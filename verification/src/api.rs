//! The client core: query encoding, endpoint descriptors, the paginated
//! envelope and the page-stream state machine.

pub mod endpoints;
pub mod paginated;
pub mod query;
pub mod stream;
pub mod types;

use vstd::prelude::*;

verus! {

/// Pagination metadata, as one page fetch reports it: total item count,
/// current page index, page size, total page count, and the links to the
/// next and previous pages. The counts default to zero when the wire payload
/// omits them; the presence of `next_page` is the sole termination signal of
/// a page stream.
#[derive(Debug, Clone)]
pub struct PaginationMeta {
    /// The total number of items available.
    pub total_items: usize,
    /// The current page index.
    pub current_page: usize,
    /// The size of one batch.
    pub page_size: usize,
    /// The total number of pages.
    pub total_pages: usize,
    /// The url of the next batch of items, if a page boundary has not been
    /// reached.
    pub next_page: Option<String>,
    /// The url of the previous batch of items.
    pub prev_page: Option<String>,
}

impl PaginationMeta {
    /// The metadata derived from the optional wire fields: each absent count
    /// becomes zero, the links are kept as they came.
    pub open spec fn spec_from_wire(
        total_items: Option<usize>,
        current_page: Option<usize>,
        page_size: Option<usize>,
        total_pages: Option<usize>,
        next_page: Option<String>,
        prev_page: Option<String>,
    ) -> PaginationMeta {
        PaginationMeta {
            total_items: if total_items is Some { total_items->0 } else { 0 },
            current_page: if current_page is Some { current_page->0 } else { 0 },
            page_size: if page_size is Some { page_size->0 } else { 0 },
            total_pages: if total_pages is Some { total_pages->0 } else { 0 },
            next_page,
            prev_page,
        }
    }

    /// Assembles the metadata from the optional fields of the wire payload,
    /// defaulting every absent count to zero.
    pub fn from_wire(
        total_items: Option<usize>,
        current_page: Option<usize>,
        page_size: Option<usize>,
        total_pages: Option<usize>,
        next_page: Option<String>,
        prev_page: Option<String>,
    ) -> (r: PaginationMeta)
        ensures
            r == Self::spec_from_wire(
                total_items,
                current_page,
                page_size,
                total_pages,
                next_page,
                prev_page,
            ),
    {
        PaginationMeta {
            total_items: match total_items {
                Some(n) => n,
                None => 0,
            },
            current_page: match current_page {
                Some(n) => n,
                None => 0,
            },
            page_size: match page_size {
                Some(n) => n,
                None => 0,
            },
            total_pages: match total_pages {
                Some(n) => n,
                None => 0,
            },
            next_page,
            prev_page,
        }
    }
}

/// Deriving the metadata from wire fields loses nothing: every count that the
/// payload carries is kept as the same integer, every absent count becomes
/// zero, and the page links are kept as they came.
pub proof fn lemma_meta_wire_round_trip(
    total_items: Option<usize>,
    current_page: Option<usize>,
    page_size: Option<usize>,
    total_pages: Option<usize>,
    next_page: Option<String>,
    prev_page: Option<String>,
)
    ensures
        ({
            let m = PaginationMeta::spec_from_wire(
                total_items,
                current_page,
                page_size,
                total_pages,
                next_page,
                prev_page,
            );
            &&& total_items is Some ==> m.total_items == total_items->0
            &&& current_page is Some ==> m.current_page == current_page->0
            &&& page_size is Some ==> m.page_size == page_size->0
            &&& total_pages is Some ==> m.total_pages == total_pages->0
            &&& total_items is None ==> m.total_items == 0
            &&& current_page is None ==> m.current_page == 0
            &&& page_size is None ==> m.page_size == 0
            &&& total_pages is None ==> m.total_pages == 0
            &&& m.next_page == next_page
            &&& m.prev_page == prev_page
        }),
{
}

/// The two failure kinds a page fetch can surface: the network call failed,
/// or the response body did not match the expected shape. Both carry the
/// reporter's message and are propagated to the caller unchanged.
#[derive(Debug, Clone)]
pub enum FetchError {
    /// A connection, timeout or non-success status failure of the transport.
    Transport(String),
    /// A response body that could not be decoded into the expected shape.
    Decode(String),
}

impl FetchError {
    /// The message the failure was reported with.
    pub fn message(&self) -> (r: &String)
        ensures
            self is Transport ==> r == self->Transport_0,
            self is Decode ==> r == self->Decode_0,
    {
        match self {
            FetchError::Transport(m) => m,
            FetchError::Decode(m) => m,
        }
    }

    /// Whether the failure came from the transport rather than from decoding.
    pub fn is_transport(&self) -> (r: bool)
        ensures
            r == (self is Transport),
    {
        match self {
            FetchError::Transport(_) => true,
            FetchError::Decode(_) => false,
        }
    }
}

} // verus!
