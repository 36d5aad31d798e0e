//! The creators resource: free-text search over creator records.

#![allow(non_camel_case_types)]

use vstd::prelude::*;

use crate::api::endpoints::{Endpoint, MapLike};
use crate::api::query::{opt_pair, opt_view, QueryMap};
use crate::api::types::Creator;

verus! {

/// The parameters the creators resource accepts.
#[derive(Debug)]
pub struct Params {
    /// Free-text search over usernames.
    pub query: Option<String>,
}

impl Default for Params {
    /// A record with every field unset.
    fn default() -> (r: Params)
        ensures
            r.query is None,
    {
        Params { query: None }
    }
}

impl MapLike for Params {
    open spec fn spec_query_pairs(self) -> Seq<(Seq<char>, Seq<char>)> {
        opt_pair("query"@, opt_view(self.query))
    }

    fn into_map(self) -> (r: QueryMap) {
        let ghost p = self;
        let Params { query } = self;
        let mut q = QueryMap::new();
        q.insert_opt("query", query);
        proof {
            assert(Seq::<(Seq<char>, Seq<char>)>::empty() + opt_pair(
                "query"@,
                opt_view(p.query),
            ) =~= opt_pair("query"@, opt_view(p.query)));
            assert(q.spec_pairs() == p.spec_query_pairs());
        }
        q
    }
}

/// A parameter record with every field unset encodes to the empty query.
pub proof fn lemma_unset_creators_params_encode_empty(p: Params)
    requires
        p.query is None,
    ensures
        p.spec_query_pairs() == Seq::<(Seq<char>, Seq<char>)>::empty(),
        crate::api::query::map_of(p.spec_query_pairs()) == Map::<Seq<char>, Seq<char>>::empty(),
{
    assert(p.spec_query_pairs() =~= Seq::<(Seq<char>, Seq<char>)>::empty());
}

/// The creators endpoint descriptor.
pub struct creators;

impl Endpoint for creators {
    type Params = Params;

    type Item = Creator;

    open spec fn spec_url() -> Seq<char> {
        "https://civitai.com/api/v1/creators"@
    }

    fn url() -> (r: &'static str) {
        "https://civitai.com/api/v1/creators"
    }
}

} // verus!
