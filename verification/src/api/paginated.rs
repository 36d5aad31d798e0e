//! The paginated envelope: one page's worth of items plus its pagination
//! metadata, as one fetch returns it. A value type: it is inspected once, or
//! converted whole into a page stream.

use vstd::prelude::*;

use crate::api::stream::PageStream;
use crate::api::PaginationMeta;

verus! {

/// One page of items and the metadata that locates its neighbours. The item
/// order is the server's response order and is never re-sorted.
pub struct Paginated<T> {
    items: Vec<T>,
    metadata: PaginationMeta,
}

impl<T> Paginated<T> {
    /// The items the page carries, in server order.
    pub closed spec fn spec_items(self) -> Seq<T> {
        self.items@
    }

    /// The metadata the page carries.
    pub closed spec fn spec_meta(self) -> PaginationMeta {
        self.metadata
    }

    /// Assembles a page from its decoded parts.
    pub fn new(items: Vec<T>, metadata: PaginationMeta) -> (r: Paginated<T>)
        ensures
            r.spec_items() == items@,
            r.spec_meta() == metadata,
    {
        Paginated { items, metadata }
    }

    /// A borrowing view of the items and the metadata, for one-shot
    /// inspection of the page.
    pub fn first_few(&self) -> (r: (&Vec<T>, &PaginationMeta))
        ensures
            r.0@ == self.spec_items(),
            *r.1 == self.spec_meta(),
    {
        (&self.items, &self.metadata)
    }

    /// Surrenders the page's parts to the caller.
    pub fn into_parts(self) -> (r: (Vec<T>, PaginationMeta))
        ensures
            r.0@ == self.spec_items(),
            r.1 == self.spec_meta(),
    {
        let Paginated { items, metadata } = self;
        (items, metadata)
    }

    /// Keeps only the first `n` items of the page, or all of them when the
    /// page is shorter.
    pub fn truncate_items(&mut self, n: usize)
        ensures
            final(self).spec_items() == old(self).spec_items().take(
                vstd::math::min(n as int, old(self).spec_items().len() as int),
            ),
            final(self).spec_meta() == old(self).spec_meta(),
    {
        self.items.truncate(n);
        proof {
            assert(self.items@ =~= old(self).spec_items().take(
                vstd::math::min(n as int, old(self).spec_items().len() as int),
            ));
        }
    }

    /// Applies `mapper` to every item, keeping order and metadata.
    pub fn map<U, F: Fn(T) -> U>(self, mapper: F) -> (r: Paginated<U>)
        requires
            forall|i: int|
                0 <= i < self.spec_items().len() ==> call_requires(
                    mapper,
                    (self.spec_items()[i],),
                ),
        ensures
            r.spec_meta() == self.spec_meta(),
            r.spec_items().len() == self.spec_items().len(),
            forall|i: int|
                0 <= i < r.spec_items().len() ==> call_ensures(
                    mapper,
                    (self.spec_items()[i],),
                    #[trigger] r.spec_items()[i],
                ),
    {
        let ghost orig = self.spec_items();
        proof {
            assert(forall|i: int| 0 <= i < orig.len() ==> call_requires(mapper, (#[trigger] orig[i],)));
        }
        let Paginated { mut items, metadata } = self;
        let mut out: Vec<U> = Vec::new();
        while items.len() > 0
            invariant
                out@.len() + items@.len() == orig.len(),
                items@ == orig.subrange(out@.len() as int, orig.len() as int),
                forall|i: int|
                    0 <= i < out@.len() ==> call_ensures(mapper, (orig[i],), #[trigger] out@[i]),
                forall|i: int| 0 <= i < orig.len() ==> call_requires(mapper, (orig[i],)),
            decreases items@.len(),
        {
            let x = items.remove(0);
            let y = mapper(x);
            out.push(y);
            proof {
                assert(items@ =~= orig.subrange(out@.len() as int, orig.len() as int));
            }
        }
        Paginated { items: out, metadata }
    }
}

impl<T> Paginated<T> {
    /// Absorbs the page into a page stream that yields its items and then
    /// walks the next-page links.
    pub fn into_stream(self) -> (r: PageStream<T>)
        ensures
            r.model() == crate::api::stream::StreamModel::from_page(
                self.spec_items(),
                self.spec_meta(),
            ),
            r.spec_error() is None,
    {
        PageStream::from_page(self)
    }
}

} // verus!
