//! The endpoint descriptors: each binds a resource url, a parameter record
//! and an item type into one named, stateless capability. The transport that
//! performs the fetch lives outside the library and is handed the url and the
//! encoded query as plain values.

pub mod creators;
pub mod images;
pub mod models;

use vstd::prelude::*;

use super::query::{map_of, QueryMap};

verus! {

/// A parameter record that flattens into an encoded query. Every field is
/// independently optional; absent fields contribute nothing to the mapping.
pub trait MapLike: Sized {
    /// The pairs the record encodes to, in the order they are emitted.
    spec fn spec_query_pairs(self) -> Seq<(Seq<char>, Seq<char>)>;

    /// Flattens the record into the encoded query.
    fn into_map(self) -> (r: QueryMap)
        ensures
            r.spec_pairs() == self.spec_query_pairs(),
            r@ == map_of(self.spec_query_pairs()),
    ;
}

/// One fetchable resource: a static association of url, parameter shape and
/// item shape.
pub trait Endpoint {
    /// The parameter record the resource accepts.
    type Params: MapLike + Default;

    /// The item the resource's pages carry.
    type Item;

    /// The resource url.
    spec fn spec_url() -> Seq<char>;

    /// The resource url, as the transport is handed it.
    fn url() -> (r: &'static str)
        ensures
            r@ == Self::spec_url(),
    ;
}

} // verus!
