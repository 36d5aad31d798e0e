//! The wave loading animation: a row of bar levels that advances one step per
//! tick. The output always has the row's fixed width, so the animation does
//! not move whilst ticking.

use vstd::pervasive::VecAdditionalExecFns;
use vstd::prelude::*;

verus! {

/// How many heights one bar cycles through.
pub const WAVE_STATES: usize = 18;

/// The character drawn for one bar level: blank, rising eighth-blocks, full
/// blocks, then falling eighth-blocks.
pub open spec fn spec_state_char(i: int) -> char {
    if i == 0 {
        ' '
    } else if i == 1 {
        '\u{2581}'
    } else if i == 2 {
        '\u{2582}'
    } else if i == 3 {
        '\u{2583}'
    } else if i == 4 {
        '\u{2584}'
    } else if i == 5 {
        '\u{2585}'
    } else if i == 6 {
        '\u{2586}'
    } else if i == 7 {
        '\u{2587}'
    } else if i == 8 || i == 9 || i == 10 {
        '\u{2588}'
    } else if i == 11 {
        '\u{2587}'
    } else if i == 12 {
        '\u{2586}'
    } else if i == 13 {
        '\u{2585}'
    } else if i == 14 {
        '\u{2584}'
    } else if i == 15 {
        '\u{2583}'
    } else if i == 16 {
        '\u{2582}'
    } else {
        '\u{2581}'
    }
}

/// The character drawn for one bar level.
pub fn state_char(i: usize) -> (c: char)
    requires
        i < WAVE_STATES,
    ensures
        c == spec_state_char(i as int),
{
    match i {
        0 => ' ',
        1 => '\u{2581}',
        2 => '\u{2582}',
        3 => '\u{2583}',
        4 => '\u{2584}',
        5 => '\u{2585}',
        6 => '\u{2586}',
        7 => '\u{2587}',
        8 => '\u{2588}',
        9 => '\u{2588}',
        10 => '\u{2588}',
        11 => '\u{2587}',
        12 => '\u{2586}',
        13 => '\u{2585}',
        14 => '\u{2584}',
        15 => '\u{2583}',
        16 => '\u{2582}',
        _ => '\u{2581}',
    }
}

/// The first bar that has left the resting level, or the row length when all
/// bars rest.
pub open spec fn spec_first_active(levels: Seq<usize>) -> int
    decreases levels.len(),
{
    if levels.len() == 0 {
        0
    } else if levels[0] > 0 {
        0
    } else {
        1 + spec_first_active(levels.drop_first())
    }
}

/// The first bar a tick advances: one to the left of the first active bar,
/// and the leftmost bar when none is active beyond it.
pub open spec fn spec_bump_start(levels: Seq<usize>) -> int {
    if spec_first_active(levels) <= 1 {
        0
    } else {
        spec_first_active(levels) - 1
    }
}

/// When the first `k` bars rest and bar `k`, if there is one, is active, the
/// first active bar is `k`.
proof fn lemma_first_active_at(levels: Seq<usize>, k: int)
    requires
        0 <= k <= levels.len(),
        forall|j: int| 0 <= j < k ==> levels[j] == 0,
        k < levels.len() ==> levels[k] > 0,
    ensures
        spec_first_active(levels) == k,
    decreases k,
{
    if k == 0 {
    } else {
        lemma_first_active_at(levels.drop_first(), k - 1);
    }
}

/// The state of a wave animation: one level per bar.
pub struct Wave {
    levels: Vec<usize>,
}

impl Wave {
    /// The bar levels, left to right.
    pub closed spec fn spec_levels(&self) -> Seq<usize> {
        self.levels@
    }

    /// Every bar level stays inside the cycle.
    pub open spec fn wf(&self) -> bool {
        forall|i: int|
            0 <= i < self.spec_levels().len() ==> #[trigger] self.spec_levels()[i] < WAVE_STATES
    }

    /// A resting wave of `n` bars.
    pub fn new(n: usize) -> (r: Wave)
        ensures
            r.spec_levels().len() == n,
            forall|i: int| 0 <= i < n ==> #[trigger] r.spec_levels()[i] == 0,
            r.wf(),
    {
        let mut levels: Vec<usize> = Vec::new();
        while levels.len() < n
            invariant
                levels@.len() <= n,
                forall|i: int| 0 <= i < levels@.len() ==> #[trigger] levels@[i] == 0,
            decreases n - levels@.len(),
        {
            levels.push(0);
        }
        Wave { levels }
    }

    /// Advances the animation one step: every bar from the bump start on
    /// moves to its next level of the cycle; the bars left of it rest on.
    pub fn tick(&mut self)
        requires
            old(self).wf(),
        ensures
            final(self).wf(),
            final(self).spec_levels().len() == old(self).spec_levels().len(),
            forall|i: int|
                0 <= i < final(self).spec_levels().len() ==> #[trigger] final(self).spec_levels()[i]
                    == if i >= spec_bump_start(old(self).spec_levels()) {
                    ((old(self).spec_levels()[i] + 1) % (WAVE_STATES as int)) as usize
                } else {
                    old(self).spec_levels()[i]
                },
    {
        let ghost l0 = self.levels@;
        proof {
            assert forall|j: int| 0 <= j < l0.len() implies l0[j] < WAVE_STATES by {
                assert(self.spec_levels()[j] < WAVE_STATES);
            }
        }
        let n = self.levels.len();
        let mut first: usize = 0;
        while first < n && self.levels[first] == 0
            invariant
                first <= n,
                n == self.levels@.len(),
                self.levels@ == l0,
                forall|j: int| 0 <= j < first ==> l0[j] == 0,
            decreases n - first,
        {
            first = first + 1;
        }
        proof {
            lemma_first_active_at(l0, first as int);
        }
        let start: usize = if first <= 1 {
            0
        } else {
            first - 1
        };
        let mut i: usize = start;
        while i < n
            invariant
                start <= i <= n || (i == start && start >= n),
                n == self.levels@.len(),
                n == l0.len(),
                start == spec_bump_start(l0),
                forall|j: int| 0 <= j < n && j < i && j >= start ==> #[trigger] self.levels@[j]
                    == ((l0[j] + 1) % (WAVE_STATES as int)) as usize,
                forall|j: int| 0 <= j < n && (j < start || j >= i) ==> #[trigger] self.levels@[j]
                    == l0[j],
                forall|j: int| 0 <= j < l0.len() ==> l0[j] < WAVE_STATES,
            decreases n - i,
        {
            let v = self.levels[i];
            proof {
                assert(v == l0[i as int]);
            }
            self.levels.set(i, (v + 1) % WAVE_STATES);
            i = i + 1;
        }
    }

    /// The row of characters the animation currently shows.
    pub fn line(&self) -> (r: String)
        requires
            self.wf(),
        ensures
            r@.len() == self.spec_levels().len(),
            forall|i: int|
                0 <= i < r@.len() ==> #[trigger] r@[i] == spec_state_char(
                    self.spec_levels()[i] as int,
                ),
    {
        let mut out = String::new();
        let mut i: usize = 0;
        while i < self.levels.len()
            invariant
                i <= self.levels@.len(),
                self.wf(),
                out@.len() == i,
                forall|j: int|
                    0 <= j < i ==> #[trigger] out@[j] == spec_state_char(
                        self.spec_levels()[j] as int,
                    ),
            decreases self.levels@.len() - i,
        {
            proof {
                assert(self.spec_levels()[i as int] < WAVE_STATES);
            }
            out.push(state_char(self.levels[i]));
            i = i + 1;
        }
        out
    }
}

} // verus!
