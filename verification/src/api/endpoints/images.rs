//! The images resource: search over image records by text, owning post,
//! model, model version, creator, safety level, sort order and time window.

#![allow(non_camel_case_types)]

use vstd::prelude::*;

use crate::api::endpoints::{Endpoint, MapLike};
use crate::api::query::{opt_pair, opt_view, QueryMap};
use crate::api::types::model::Image;
use crate::api::types::{Nsfw, Period};
use crate::text::{spec_dec, usize_dec};

verus! {

/// The order the images resource sorts its results in.
#[derive(Debug, Clone, Copy)]
pub enum Sort {
    MostReactions,
    MostComments,
    Newest,
}

impl Sort {
    /// The wire token of each sort order.
    pub open spec fn spec_value(self) -> Seq<char> {
        match self {
            Sort::MostReactions => "MostReactions"@,
            Sort::MostComments => "MostComments"@,
            Sort::Newest => "Newest"@,
        }
    }

    /// The exact token the remote vocabulary accepts for this sort order.
    pub fn value(self) -> (r: &'static str)
        ensures
            r@ == self.spec_value(),
    {
        match self {
            Sort::MostReactions => "MostReactions",
            Sort::MostComments => "MostComments",
            Sort::Newest => "Newest",
        }
    }
}

impl Default for Sort {
    /// The default sort order.
    fn default() -> (r: Sort)
        ensures
            r is Newest,
    {
        Sort::Newest
    }
}

/// The parameters the images resource accepts. Every field is independently
/// optional; an unset field leaves the server default in force.
#[derive(Debug)]
pub struct Params {
    /// Free-text search.
    pub query: Option<String>,
    /// The number of items one page carries.
    pub limit: Option<usize>,
    /// Restricts the results to one post.
    pub post_id: Option<usize>,
    /// Restricts the results to one model.
    pub model_id: Option<usize>,
    /// Restricts the results to one model version.
    pub model_version_id: Option<usize>,
    /// Restricts the results to one creator.
    pub username: Option<String>,
    /// The safety level of the results.
    pub nsfw: Option<Nsfw>,
    /// The sort order of the results.
    pub sort: Option<Sort>,
    /// The time window of the results.
    pub period: Option<Period>,
}

impl Default for Params {
    /// A record with every field unset.
    fn default() -> (r: Params)
        ensures
            r.query is None,
            r.limit is None,
            r.post_id is None,
            r.model_id is None,
            r.model_version_id is None,
            r.username is None,
            r.nsfw is None,
            r.sort is None,
            r.period is None,
    {
        Params {
            query: None,
            limit: None,
            post_id: None,
            model_id: None,
            model_version_id: None,
            username: None,
            nsfw: None,
            sort: None,
            period: None,
        }
    }
}

impl Params {
    /// The pairs contributed by an optional count field.
    pub open spec fn spec_count_pair(k: Seq<char>, n: Option<usize>) -> Seq<
        (Seq<char>, Seq<char>),
    > {
        opt_pair(
            k,
            match n {
                Some(v) => Some(spec_dec(v as int)),
                None => None,
            },
        )
    }

    /// The pairs contributed by the safety level field.
    pub open spec fn spec_nsfw_pairs(self) -> Seq<(Seq<char>, Seq<char>)> {
        opt_pair(
            "nsfw"@,
            match self.nsfw {
                Some(n) => Some(n.spec_value()),
                None => None,
            },
        )
    }

    /// The pairs contributed by the sort order field.
    pub open spec fn spec_sort_pairs(self) -> Seq<(Seq<char>, Seq<char>)> {
        opt_pair(
            "sort"@,
            match self.sort {
                Some(s) => Some(s.spec_value()),
                None => None,
            },
        )
    }

    /// The pairs contributed by the time window field.
    pub open spec fn spec_period_pairs(self) -> Seq<(Seq<char>, Seq<char>)> {
        opt_pair(
            "period"@,
            match self.period {
                Some(p) => Some(p.spec_value()),
                None => None,
            },
        )
    }
}

impl MapLike for Params {
    open spec fn spec_query_pairs(self) -> Seq<(Seq<char>, Seq<char>)> {
        opt_pair("query"@, opt_view(self.query)) + Self::spec_count_pair("limit"@, self.limit)
            + Self::spec_count_pair("postId"@, self.post_id) + Self::spec_count_pair(
            "modelId"@,
            self.model_id,
        ) + Self::spec_count_pair("modelVersionId"@, self.model_version_id) + opt_pair(
            "username"@,
            opt_view(self.username),
        ) + self.spec_nsfw_pairs() + self.spec_sort_pairs() + self.spec_period_pairs()
    }

    fn into_map(self) -> (r: QueryMap) {
        let ghost p = self;
        let Params {
            query,
            limit,
            post_id,
            model_id,
            model_version_id,
            username,
            nsfw,
            sort,
            period,
        } = self;
        let mut q = QueryMap::new();
        q.insert_opt("query", query);
        let limit_s = match limit {
            Some(n) => Some(usize_dec(n)),
            None => None,
        };
        proof {
            assert(opt_pair("limit"@, opt_view(limit_s)) == Self::spec_count_pair(
                "limit"@,
                p.limit,
            ));
        }
        q.insert_opt("limit", limit_s);
        let post_s = match post_id {
            Some(n) => Some(usize_dec(n)),
            None => None,
        };
        proof {
            assert(opt_pair("postId"@, opt_view(post_s)) == Self::spec_count_pair(
                "postId"@,
                p.post_id,
            ));
        }
        q.insert_opt("postId", post_s);
        let model_s = match model_id {
            Some(n) => Some(usize_dec(n)),
            None => None,
        };
        proof {
            assert(opt_pair("modelId"@, opt_view(model_s)) == Self::spec_count_pair(
                "modelId"@,
                p.model_id,
            ));
        }
        q.insert_opt("modelId", model_s);
        let version_s = match model_version_id {
            Some(n) => Some(usize_dec(n)),
            None => None,
        };
        proof {
            assert(opt_pair("modelVersionId"@, opt_view(version_s)) == Self::spec_count_pair(
                "modelVersionId"@,
                p.model_version_id,
            ));
        }
        q.insert_opt("modelVersionId", version_s);
        q.insert_opt("username", username);
        let nsfw_s = match nsfw {
            Some(v) => Some(String::from_str(v.value())),
            None => None,
        };
        proof {
            assert(opt_pair("nsfw"@, opt_view(nsfw_s)) == p.spec_nsfw_pairs());
        }
        q.insert_opt("nsfw", nsfw_s);
        let sort_s = match sort {
            Some(v) => Some(String::from_str(v.value())),
            None => None,
        };
        proof {
            assert(opt_pair("sort"@, opt_view(sort_s)) == p.spec_sort_pairs());
        }
        q.insert_opt("sort", sort_s);
        let period_s = match period {
            Some(v) => Some(String::from_str(v.value())),
            None => None,
        };
        proof {
            assert(opt_pair("period"@, opt_view(period_s)) == p.spec_period_pairs());
        }
        q.insert_opt("period", period_s);
        proof {
            assert(Seq::<(Seq<char>, Seq<char>)>::empty() + opt_pair(
                "query"@,
                opt_view(p.query),
            ) =~= opt_pair("query"@, opt_view(p.query)));
            assert(q.spec_pairs() == p.spec_query_pairs());
        }
        q
    }
}

/// A parameter record with every field unset encodes to the empty query.
pub proof fn lemma_unset_images_params_encode_empty(p: Params)
    requires
        p.query is None,
        p.limit is None,
        p.post_id is None,
        p.model_id is None,
        p.model_version_id is None,
        p.username is None,
        p.nsfw is None,
        p.sort is None,
        p.period is None,
    ensures
        p.spec_query_pairs() == Seq::<(Seq<char>, Seq<char>)>::empty(),
        crate::api::query::map_of(p.spec_query_pairs()) == Map::<Seq<char>, Seq<char>>::empty(),
{
    assert(p.spec_query_pairs() =~= Seq::<(Seq<char>, Seq<char>)>::empty());
}

/// The images endpoint descriptor.
pub struct images;

impl Endpoint for images {
    type Params = Params;

    type Item = Image;

    open spec fn spec_url() -> Seq<char> {
        "https://civitai.com/api/v1/images"@
    }

    fn url() -> (r: &'static str) {
        "https://civitai.com/api/v1/images"
    }
}

} // verus!
