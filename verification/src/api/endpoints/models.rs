//! The models resource: search over model records by text, tag, creator,
//! type, rating, safety level, sort order and time window.

#![allow(non_camel_case_types)]

use vstd::prelude::*;

use crate::api::endpoints::{Endpoint, MapLike};
use crate::api::query::{opt_pair, opt_view, QueryMap};
use crate::api::types::{model, Model, Nsfw, Period};

verus! {

/// The order the models resource sorts its results in.
#[derive(Debug, Clone, Copy)]
pub enum Sorting {
    HighestRated,
    MostDownloaded,
    Newest,
}

impl Sorting {
    /// The wire token of each sort order.
    pub open spec fn spec_value(self) -> Seq<char> {
        match self {
            Sorting::HighestRated => "Highest Rated"@,
            Sorting::MostDownloaded => "Most Downloaded"@,
            Sorting::Newest => "Newest"@,
        }
    }

    /// The exact token the remote vocabulary accepts for this sort order.
    pub fn value(self) -> (r: &'static str)
        ensures
            r@ == self.spec_value(),
    {
        match self {
            Sorting::HighestRated => "Highest Rated",
            Sorting::MostDownloaded => "Most Downloaded",
            Sorting::Newest => "Newest",
        }
    }
}

impl Default for Sorting {
    /// The default sort order.
    fn default() -> (r: Sorting)
        ensures
            r is HighestRated,
    {
        Sorting::HighestRated
    }
}

/// The parameters the models resource accepts. Every field is independently
/// optional; an unset field leaves the server default in force.
#[derive(Debug)]
pub struct Params {
    /// Free-text search over model names.
    pub query: Option<String>,
    /// Restricts the results to one tag.
    pub tag: Option<String>,
    /// Restricts the results to one creator.
    pub username: Option<String>,
    /// Restricts the results to one model type.
    pub types: Option<model::Type>,
    /// The sort order of the results.
    pub sort: Option<Sorting>,
    /// The time window of the results.
    pub period: Option<Period>,
    /// The minimum rating of the results, as decimal text.
    pub rating: Option<String>,
    /// The safety level of the results.
    pub nsfw: Option<Nsfw>,
}

impl Default for Params {
    /// A record with every field unset.
    fn default() -> (r: Params)
        ensures
            r.query is None,
            r.tag is None,
            r.username is None,
            r.types is None,
            r.sort is None,
            r.period is None,
            r.rating is None,
            r.nsfw is None,
    {
        Params {
            query: None,
            tag: None,
            username: None,
            types: None,
            sort: None,
            period: None,
            rating: None,
            nsfw: None,
        }
    }
}

impl Params {
    /// The pairs contributed by the model type field.
    pub open spec fn spec_types_pairs(self) -> Seq<(Seq<char>, Seq<char>)> {
        opt_pair(
            "types"@,
            match self.types {
                Some(t) => Some(t.spec_value()),
                None => None,
            },
        )
    }

    /// The pairs contributed by the sort order field.
    pub open spec fn spec_sort_pairs(self) -> Seq<(Seq<char>, Seq<char>)> {
        opt_pair(
            "sort"@,
            match self.sort {
                Some(s) => Some(s.spec_value()),
                None => None,
            },
        )
    }

    /// The pairs contributed by the time window field.
    pub open spec fn spec_period_pairs(self) -> Seq<(Seq<char>, Seq<char>)> {
        opt_pair(
            "period"@,
            match self.period {
                Some(p) => Some(p.spec_value()),
                None => None,
            },
        )
    }

    /// The pairs contributed by the safety level field.
    pub open spec fn spec_nsfw_pairs(self) -> Seq<(Seq<char>, Seq<char>)> {
        opt_pair(
            "nsfw"@,
            match self.nsfw {
                Some(n) => Some(n.spec_value()),
                None => None,
            },
        )
    }
}

impl MapLike for Params {
    open spec fn spec_query_pairs(self) -> Seq<(Seq<char>, Seq<char>)> {
        opt_pair("query"@, opt_view(self.query)) + opt_pair("tag"@, opt_view(self.tag)) + opt_pair(
            "username"@,
            opt_view(self.username),
        ) + self.spec_types_pairs() + self.spec_sort_pairs() + self.spec_period_pairs() + opt_pair(
            "rating"@,
            opt_view(self.rating),
        ) + self.spec_nsfw_pairs()
    }

    fn into_map(self) -> (r: QueryMap) {
        let ghost p = self;
        let Params { query, tag, username, types, sort, period, rating, nsfw } = self;
        let mut q = QueryMap::new();
        q.insert_opt("query", query);
        q.insert_opt("tag", tag);
        q.insert_opt("username", username);
        let types_s = match types {
            Some(t) => Some(String::from_str(t.value())),
            None => None,
        };
        proof {
            assert(opt_pair("types"@, opt_view(types_s)) == p.spec_types_pairs());
        }
        q.insert_opt("types", types_s);
        let sort_s = match sort {
            Some(v) => Some(String::from_str(v.value())),
            None => None,
        };
        proof {
            assert(opt_pair("sort"@, opt_view(sort_s)) == p.spec_sort_pairs());
        }
        q.insert_opt("sort", sort_s);
        let period_s = match period {
            Some(v) => Some(String::from_str(v.value())),
            None => None,
        };
        proof {
            assert(opt_pair("period"@, opt_view(period_s)) == p.spec_period_pairs());
        }
        q.insert_opt("period", period_s);
        q.insert_opt("rating", rating);
        let nsfw_s = match nsfw {
            Some(v) => Some(String::from_str(v.value())),
            None => None,
        };
        proof {
            assert(opt_pair("nsfw"@, opt_view(nsfw_s)) == p.spec_nsfw_pairs());
        }
        q.insert_opt("nsfw", nsfw_s);
        proof {
            assert(Seq::<(Seq<char>, Seq<char>)>::empty() + opt_pair(
                "query"@,
                opt_view(p.query),
            ) =~= opt_pair("query"@, opt_view(p.query)));
            assert(q.spec_pairs() == p.spec_query_pairs());
        }
        q
    }
}

/// A parameter record with every field unset encodes to the empty query.
pub proof fn lemma_unset_models_params_encode_empty(p: Params)
    requires
        p.query is None,
        p.tag is None,
        p.username is None,
        p.types is None,
        p.sort is None,
        p.period is None,
        p.rating is None,
        p.nsfw is None,
    ensures
        p.spec_query_pairs() == Seq::<(Seq<char>, Seq<char>)>::empty(),
        crate::api::query::map_of(p.spec_query_pairs()) == Map::<Seq<char>, Seq<char>>::empty(),
{
    assert(p.spec_query_pairs() =~= Seq::<(Seq<char>, Seq<char>)>::empty());
}

/// The models endpoint descriptor.
pub struct models;

impl Endpoint for models {
    type Params = Params;

    type Item = Model;

    open spec fn spec_url() -> Seq<char> {
        "https://civitai.com/api/v1/models"@
    }

    fn url() -> (r: &'static str) {
        "https://civitai.com/api/v1/models"
    }
}

} // verus!
