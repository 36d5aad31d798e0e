//! The page stream: a mutable cursor over one logical item sequence that
//! spans many page fetches. The stream itself performs no network call; each
//! step either yields a buffered item, asks the driver to fetch one url, or
//! reports the end of the sequence. At most one fetch is outstanding at a
//! time, and the absence of a next-page link is the sole termination signal.

use vstd::prelude::*;

use crate::api::paginated::Paginated;
use crate::api::{FetchError, PaginationMeta};

verus! {

/// The next-page link of a page's metadata, as a character sequence.
pub open spec fn spec_next_of(meta: PaginationMeta) -> Option<Seq<char>> {
    match meta.next_page {
        Some(s) => Some(s@),
        None => None,
    }
}

/// The abstract state of a page stream: the items of the current page that
/// are still to be yielded, the next-page link of the current metadata, the
/// advisory total count, whether a fetch is outstanding, and whether a fetch
/// has failed.
#[verifier::ext_equal]
pub struct StreamModel<T> {
    pub buffered: Seq<T>,
    pub next: Option<Seq<char>>,
    pub total: usize,
    pub fetching: bool,
    pub failed: bool,
}

impl<T> StreamModel<T> {
    /// The state of a stream freshly built from one page.
    pub open spec fn from_page(items: Seq<T>, meta: PaginationMeta) -> StreamModel<T> {
        StreamModel {
            buffered: items,
            next: spec_next_of(meta),
            total: meta.total_items,
            fetching: false,
            failed: false,
        }
    }
}

/// What one step of the stream reports, at the abstract level.
pub enum StepModel<T> {
    /// The next item of the sequence.
    Item(T),
    /// The driver must fetch this url and hand the outcome back.
    Fetch(Seq<char>),
    /// The sequence has ended.
    Ended,
}

/// One step of the stream: a buffered item is yielded first; a failed stream
/// has ended; otherwise the next-page link, if any, is asked for, and its
/// absence ends the sequence.
pub open spec fn spec_step<T>(m: StreamModel<T>) -> (StreamModel<T>, StepModel<T>) {
    if m.buffered.len() > 0 {
        (
            StreamModel {
                buffered: m.buffered.drop_first(),
                next: m.next,
                total: m.total,
                fetching: m.fetching,
                failed: m.failed,
            },
            StepModel::Item(m.buffered.first()),
        )
    } else if m.failed {
        (m, StepModel::Ended)
    } else if m.next is Some {
        (
            StreamModel {
                buffered: m.buffered,
                next: m.next,
                total: m.total,
                fetching: true,
                failed: m.failed,
            },
            StepModel::Fetch(m.next->0),
        )
    } else {
        (m, StepModel::Ended)
    }
}

/// The state after a fetched page arrives, and the item yielded with it: the
/// new page replaces the buffer and the metadata, and its first item, if any,
/// is yielded as part of the same logical step.
pub open spec fn spec_page_arrival<T>(
    m: StreamModel<T>,
    items: Seq<T>,
    meta: PaginationMeta,
) -> (StreamModel<T>, Option<T>) {
    (
        StreamModel {
            buffered: if items.len() > 0 {
                items.drop_first()
            } else {
                items
            },
            next: spec_next_of(meta),
            total: meta.total_items,
            fetching: false,
            failed: m.failed,
        },
        if items.len() > 0 {
            Some(items.first())
        } else {
            None
        },
    )
}

/// The state after the outstanding fetch fails: the stream is terminal and
/// never asks for the failing link again.
pub open spec fn spec_fetch_failed<T>(m: StreamModel<T>) -> StreamModel<T> {
    StreamModel {
        buffered: m.buffered,
        next: m.next,
        total: m.total,
        fetching: false,
        failed: true,
    }
}

/// The state after `n` steps, and everything the steps reported, in order.
pub open spec fn run_steps<T>(m: StreamModel<T>, n: nat) -> (StreamModel<T>, Seq<StepModel<T>>)
    decreases n,
{
    if n == 0 {
        (m, Seq::empty())
    } else {
        let (m1, s) = spec_step(m);
        let (m2, rest) = run_steps(m1, (n - 1) as nat);
        (m2, seq![s] + rest)
    }
}

/// What one step of the stream reports, as the driver sees it.
#[derive(Debug)]
pub enum StreamStep<T> {
    /// The next item of the sequence.
    Item(T),
    /// The driver must fetch this url and hand the outcome back through
    /// `on_fetch_success` or `on_fetch_failure`.
    Fetch(String),
    /// The sequence has ended.
    Ended,
}

/// Whether a reported step is the given abstract step.
pub open spec fn step_matches<T>(s: StreamStep<T>, sm: StepModel<T>) -> bool {
    match (s, sm) {
        (StreamStep::Item(a), StepModel::Item(b)) => a == b,
        (StreamStep::Fetch(u), StepModel::Fetch(v)) => u@ == v,
        (StreamStep::Ended, StepModel::Ended) => true,
        _ => false,
    }
}

/// The stateful adaptor that yields one logical item sequence across many
/// page fetches. The driver calls `poll_step`; on a `Fetch` it performs the
/// network call and reports the outcome before polling again.
pub struct PageStream<T> {
    buffer: Vec<T>,
    meta: PaginationMeta,
    fetching: bool,
    failed: bool,
    error: Option<FetchError>,
}

impl<T> PageStream<T> {
    /// The abstract state of the stream.
    pub closed spec fn model(self) -> StreamModel<T> {
        StreamModel {
            buffered: self.buffer@,
            next: spec_next_of(self.meta),
            total: self.meta.total_items,
            fetching: self.fetching,
            failed: self.failed,
        }
    }

    /// The failure that ended the stream, while nobody has taken it yet.
    pub closed spec fn spec_error(self) -> Option<FetchError> {
        self.error
    }

    /// A stream over the items of one page and everything its next-page
    /// links reach.
    pub fn from_page(page: Paginated<T>) -> (r: PageStream<T>)
        ensures
            r.model() == StreamModel::from_page(page.spec_items(), page.spec_meta()),
            r.spec_error() is None,
    {
        let (items, metadata) = page.into_parts();
        let r = PageStream {
            buffer: items,
            meta: metadata,
            fetching: false,
            failed: false,
            error: None,
        };
        proof {
            assert(r.model() =~= StreamModel::from_page(page.spec_items(), page.spec_meta()));
        }
        r
    }

    /// Produces the next event of the sequence: the next buffered item, the
    /// url the driver must fetch, or the end of the sequence. May only be
    /// called while no fetch is outstanding.
    pub fn poll_step(&mut self) -> (r: StreamStep<T>)
        requires
            !old(self).model().fetching,
        ensures
            final(self).model() == spec_step(old(self).model()).0,
            step_matches(r, spec_step(old(self).model()).1),
            final(self).spec_error() == old(self).spec_error(),
    {
        let ghost m0 = self.model();
        if self.buffer.len() > 0 {
            let item = self.buffer.remove(0);
            proof {
                assert(self.buffer@ =~= m0.buffered.drop_first());
                assert(self.model() =~= spec_step(m0).0);
            }
            StreamStep::Item(item)
        } else if self.failed {
            StreamStep::Ended
        } else {
            match &self.meta.next_page {
                Some(url) => {
                    let u = url.clone();
                    self.fetching = true;
                    proof {
                        assert(self.model() =~= spec_step(m0).0);
                    }
                    StreamStep::Fetch(u)
                },
                None => StreamStep::Ended,
            }
        }
    }

    /// Absorbs the page an outstanding fetch returned, and yields its first
    /// item as the result of the same logical step; a fetched page with no
    /// items yields nothing, and the next poll walks its link or ends.
    pub fn on_fetch_success(&mut self, page: Paginated<T>) -> (r: Option<T>)
        requires
            old(self).model().fetching,
        ensures
            final(self).model() == spec_page_arrival(
                old(self).model(),
                page.spec_items(),
                page.spec_meta(),
            ).0,
            r == spec_page_arrival(old(self).model(), page.spec_items(), page.spec_meta()).1,
            final(self).spec_error() == old(self).spec_error(),
    {
        let ghost m0 = self.model();
        let (mut items, metadata) = page.into_parts();
        self.meta = metadata;
        self.fetching = false;
        if items.len() > 0 {
            let first = items.remove(0);
            self.buffer = items;
            proof {
                assert(self.buffer@ =~= page.spec_items().drop_first());
                assert(self.model() =~= spec_page_arrival(
                    m0,
                    page.spec_items(),
                    page.spec_meta(),
                ).0);
            }
            Some(first)
        } else {
            self.buffer = items;
            proof {
                assert(self.model() =~= spec_page_arrival(
                    m0,
                    page.spec_items(),
                    page.spec_meta(),
                ).0);
            }
            None
        }
    }

    /// Records that the outstanding fetch failed, keeping the failure for
    /// the caller to take exactly once. The stream is terminal from here on:
    /// it yields no further item and never retries the link.
    pub fn on_fetch_failure(&mut self, err: FetchError)
        requires
            old(self).model().fetching,
        ensures
            final(self).model() == spec_fetch_failed(old(self).model()),
            final(self).spec_error() == Some(err),
    {
        let ghost m0 = self.model();
        self.fetching = false;
        self.failed = true;
        self.error = Some(err);
        proof {
            assert(self.model() =~= spec_fetch_failed(m0));
        }
    }

    /// Hands the recorded failure out, at most once: a second take, and
    /// every take on a stream that ended normally, finds nothing. The item
    /// sequence itself is untouched.
    pub fn take_error(&mut self) -> (r: Option<FetchError>)
        ensures
            r == old(self).spec_error(),
            final(self).spec_error() is None,
            final(self).model() == old(self).model(),
    {
        self.error.take()
    }

    /// Whether the stream ended because a fetch failed, rather than because
    /// the last page carried no next-page link.
    pub fn failed(&self) -> (r: bool)
        ensures
            r == self.model().failed,
    {
        self.failed
    }

    /// The best-known estimate of the remaining item count, taken from the
    /// last-seen total-item metadata field. Advisory only: it may be stale
    /// or approximate and never decides termination.
    pub fn size_hint(&self) -> (r: (usize, Option<usize>))
        ensures
            r.0 == self.model().total,
            r.1 == Some(self.model().total),
    {
        (self.meta.total_items, Some(self.meta.total_items))
    }
}

/// A stream whose current metadata carries no next-page link yields exactly
/// its buffered items, in order, then reports the end of the sequence on
/// every further step; it never asks for a page fetch.
pub proof fn lemma_single_page_run<T>(m: StreamModel<T>, n: nat)
    requires
        m.next is None,
        !m.failed,
        n >= m.buffered.len(),
    ensures
        run_steps(m, n).1.len() == n,
        forall|i: int|
            0 <= i < m.buffered.len() ==> run_steps(m, n).1[i] == StepModel::Item(m.buffered[i]),
        forall|i: int|
            m.buffered.len() <= i < n ==> run_steps(m, n).1[i] == StepModel::<T>::Ended,
        run_steps(m, n).0 == (StreamModel {
            buffered: Seq::<T>::empty(),
            next: m.next,
            total: m.total,
            fetching: m.fetching,
            failed: m.failed,
        }),
    decreases n,
{
    if n == 0 {
        assert(m.buffered =~= Seq::<T>::empty());
        assert(run_steps(m, n).0 =~= (StreamModel {
            buffered: Seq::<T>::empty(),
            next: m.next,
            total: m.total,
            fetching: m.fetching,
            failed: m.failed,
        }));
    } else {
        let (m1, s) = spec_step(m);
        lemma_single_page_run(m1, (n - 1) as nat);
        let rest = run_steps(m1, (n - 1) as nat).1;
        let outs = run_steps(m, n).1;
        assert(outs =~= seq![s] + rest);
        if m.buffered.len() > 0 {
            assert(outs[0] == StepModel::Item(m.buffered[0]));
            assert forall|i: int| 1 <= i < m.buffered.len() implies outs[i] == StepModel::Item(
                m.buffered[i],
            ) by {
                assert(outs[i] == rest[i - 1]);
                assert(m1.buffered[i - 1] == m.buffered[i]);
            }
            assert forall|i: int| m.buffered.len() <= i < n implies outs[i]
                == StepModel::<T>::Ended by {
                assert(outs[i] == rest[i - 1]);
            }
        } else {
            assert(s == StepModel::<T>::Ended);
            assert(m1 == m);
            assert forall|i: int| m.buffered.len() <= i < n implies outs[i]
                == StepModel::<T>::Ended by {
                if i > 0 {
                    assert(outs[i] == rest[i - 1]);
                }
            }
        }
    }
}

/// A stream whose fetch has failed and whose buffer is drained reports the
/// end of the sequence on every further step, without change of state: the
/// failing link is never retried and over-consumption is harmless.
pub proof fn lemma_failed_stream_run<T>(m: StreamModel<T>, n: nat)
    requires
        m.buffered.len() == 0,
        m.failed,
    ensures
        run_steps(m, n).0 == m,
        run_steps(m, n).1.len() == n,
        forall|i: int| 0 <= i < n ==> run_steps(m, n).1[i] == StepModel::<T>::Ended,
    decreases n,
{
    if n == 0 {
    } else {
        let (m1, s) = spec_step(m);
        assert(m1 == m);
        assert(s == StepModel::<T>::Ended);
        lemma_failed_stream_run(m, (n - 1) as nat);
        let rest = run_steps(m, (n - 1) as nat).1;
        let outs = run_steps(m, n).1;
        assert(outs =~= seq![s] + rest);
        assert forall|i: int| 0 <= i < n implies outs[i] == StepModel::<T>::Ended by {
            if i > 0 {
                assert(outs[i] == rest[i - 1]);
            }
        }
    }
}

/// A stream whose current metadata carries a next-page link yields exactly
/// its buffered items, in order, and then asks for exactly one fetch, of
/// that link; the buffered items all come before any network activity.
pub proof fn lemma_drain_then_fetch<T>(m: StreamModel<T>)
    requires
        m.next is Some,
        !m.failed,
        !m.fetching,
    ensures
        run_steps(m, (m.buffered.len() + 1) as nat).1.len() == m.buffered.len() + 1,
        forall|i: int|
            0 <= i < m.buffered.len() ==> run_steps(m, (m.buffered.len() + 1) as nat).1[i]
                == StepModel::Item(m.buffered[i]),
        run_steps(m, (m.buffered.len() + 1) as nat).1[m.buffered.len() as int]
            == StepModel::<T>::Fetch(m.next->0),
        run_steps(m, (m.buffered.len() + 1) as nat).0 == (StreamModel {
            buffered: Seq::<T>::empty(),
            next: m.next,
            total: m.total,
            fetching: true,
            failed: m.failed,
        }),
    decreases m.buffered.len(),
{
    let n = (m.buffered.len() + 1) as nat;
    let (m1, s) = spec_step(m);
    let rest = run_steps(m1, (n - 1) as nat).1;
    let outs = run_steps(m, n).1;
    assert(outs =~= seq![s] + rest);
    if m.buffered.len() == 0 {
        assert(s == StepModel::<T>::Fetch(m.next->0));
        assert(run_steps(m1, 0).0 == m1);
        assert(m1.buffered =~= Seq::<T>::empty());
        assert(run_steps(m, n).0 =~= (StreamModel {
            buffered: Seq::<T>::empty(),
            next: m.next,
            total: m.total,
            fetching: true,
            failed: m.failed,
        }));
    } else {
        lemma_drain_then_fetch(m1);
        assert(outs[0] == StepModel::Item(m.buffered[0]));
        assert forall|i: int| 1 <= i < m.buffered.len() implies outs[i] == StepModel::Item(
            m.buffered[i],
        ) by {
            assert(outs[i] == rest[i - 1]);
            assert(m1.buffered[i - 1] == m.buffered[i]);
        }
        assert(outs[m.buffered.len() as int] == rest[m.buffered.len() - 1]);
    }
}

/// If the one outstanding fetch fails, the stream has already yielded every
/// buffered item, the driver surfaces the failure once as the outcome of
/// that step, and every further step reports the end of the sequence without
/// change of state: the failing link is never retried.
pub proof fn lemma_fetch_failure_terminates<T>(m: StreamModel<T>, n: nat)
    requires
        m.next is Some,
        !m.failed,
        !m.fetching,
    ensures
        forall|i: int|
            0 <= i < m.buffered.len() ==> run_steps(m, (m.buffered.len() + 1) as nat).1[i]
                == StepModel::Item(m.buffered[i]),
        run_steps(m, (m.buffered.len() + 1) as nat).1[m.buffered.len() as int]
            == StepModel::<T>::Fetch(m.next->0),
        run_steps(
            spec_fetch_failed(run_steps(m, (m.buffered.len() + 1) as nat).0),
            n,
        ).0 == spec_fetch_failed(run_steps(m, (m.buffered.len() + 1) as nat).0),
        forall|i: int|
            0 <= i < n ==> #[trigger] run_steps(
                spec_fetch_failed(run_steps(m, (m.buffered.len() + 1) as nat).0),
                n,
            ).1[i] == StepModel::<T>::Ended,
{
    lemma_drain_then_fetch(m);
    lemma_failed_stream_run(
        spec_fetch_failed(run_steps(m, (m.buffered.len() + 1) as nat).0),
        n,
    );
}

/// The two-page interaction: a stream whose page carries a next-page link
/// yields that page's items in order, asks for exactly one fetch of the
/// link, and when the fetch returns a non-empty page it yields that page's
/// first item as part of the same step; the rest of the new page follows
/// under `lemma_single_page_run`, so the caller sees every item of both
/// pages, in order, with one network call in between.
pub proof fn lemma_two_page_run<T>(m: StreamModel<T>, items2: Seq<T>, meta2: PaginationMeta)
    requires
        m.next is Some,
        !m.failed,
        !m.fetching,
        items2.len() > 0,
    ensures
        forall|i: int|
            0 <= i < m.buffered.len() ==> run_steps(m, (m.buffered.len() + 1) as nat).1[i]
                == StepModel::Item(m.buffered[i]),
        run_steps(m, (m.buffered.len() + 1) as nat).1[m.buffered.len() as int]
            == StepModel::<T>::Fetch(m.next->0),
        spec_page_arrival(
            run_steps(m, (m.buffered.len() + 1) as nat).0,
            items2,
            meta2,
        ).1 == Some(items2[0]),
        spec_page_arrival(run_steps(m, (m.buffered.len() + 1) as nat).0, items2, meta2).0
            == (StreamModel {
            buffered: items2.drop_first(),
            next: spec_next_of(meta2),
            total: meta2.total_items,
            fetching: false,
            failed: false,
        }),
        seq![items2[0]] + items2.drop_first() == items2,
{
    lemma_drain_then_fetch(m);
    assert(seq![items2[0]] + items2.drop_first() =~= items2);
}

} // verus!
