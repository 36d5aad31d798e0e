//! The encoded query: a flat mapping from query key to query value, produced
//! fresh by one encode of a parameter record. Keys come from a fixed
//! per-endpoint vocabulary; absent fields contribute nothing.

use vstd::prelude::*;

verus! {

/// One encode's worth of query pairs. The view is the key-to-value mapping;
/// the pair sequence keeps the order the encoder emitted.
pub struct QueryMap {
    pairs: Vec<(String, String)>,
}

/// The mapping described by a sequence of key-value pairs, a later pair
/// winning over an earlier one with the same key.
pub open spec fn map_of(pairs: Seq<(Seq<char>, Seq<char>)>) -> Map<Seq<char>, Seq<char>>
    decreases pairs.len(),
{
    if pairs.len() == 0 {
        Map::empty()
    } else {
        map_of(pairs.drop_last()).insert(pairs.last().0, pairs.last().1)
    }
}

/// The pairs an optional field contributes: one pair when the value is
/// present, nothing when it is absent.
pub open spec fn opt_pair(k: Seq<char>, v: Option<Seq<char>>) -> Seq<(Seq<char>, Seq<char>)> {
    match v {
        Some(s) => seq![(k, s)],
        None => Seq::empty(),
    }
}

/// The character sequence of an optional string.
pub open spec fn opt_view(s: Option<String>) -> Option<Seq<char>> {
    match s {
        Some(x) => Some(x@),
        None => None,
    }
}

impl View for QueryMap {
    type V = Map<Seq<char>, Seq<char>>;

    open spec fn view(&self) -> Map<Seq<char>, Seq<char>> {
        map_of(self.spec_pairs())
    }
}

impl QueryMap {
    /// The emitted pairs, in order, as character sequences.
    pub closed spec fn spec_pairs(self) -> Seq<(Seq<char>, Seq<char>)> {
        self.pairs@.map_values(|p: (String, String)| (p.0@, p.1@))
    }

    /// An encode that has emitted nothing yet.
    pub fn new() -> (r: QueryMap)
        ensures
            r.spec_pairs() == Seq::<(Seq<char>, Seq<char>)>::empty(),
            r@ == Map::<Seq<char>, Seq<char>>::empty(),
    {
        let r = QueryMap { pairs: Vec::new() };
        proof {
            assert(r.spec_pairs() =~= Seq::<(Seq<char>, Seq<char>)>::empty());
        }
        r
    }

    /// Emits one key-value pair.
    pub fn insert(&mut self, k: String, v: String)
        ensures
            final(self).spec_pairs() == old(self).spec_pairs().push((k@, v@)),
            final(self)@ == old(self)@.insert(k@, v@),
    {
        let ghost k_view = k@;
        let ghost v_view = v@;
        self.pairs.push((k, v));
        proof {
            assert(self.spec_pairs() =~= old(self).spec_pairs().push((k_view, v_view)));
            assert(self.spec_pairs().drop_last() =~= old(self).spec_pairs());
        }
    }

    /// Emits the pair of one optional field: the key with the present value,
    /// or nothing when the field is unset.
    pub fn insert_opt(&mut self, k: &str, v: Option<String>)
        ensures
            final(self).spec_pairs() == old(self).spec_pairs() + opt_pair(k@, opt_view(v)),
    {
        let ghost pairs0 = self.spec_pairs();
        match v {
            Some(x) => {
                let ghost xv = x@;
                self.insert(String::from_str(k), x);
                proof {
                    assert(opt_pair(k@, Some(xv)) =~= seq![(k@, xv)]);
                    assert(pairs0.push((k@, xv)) =~= pairs0 + seq![(k@, xv)]);
                }
            },
            None => {
                proof {
                    assert(pairs0 + opt_pair(k@, None) =~= pairs0);
                }
            },
        }
    }

    /// The emitted pairs, in order.
    pub fn pairs(&self) -> (r: &Vec<(String, String)>)
        ensures
            r@.len() == self.spec_pairs().len(),
            forall|i: int|
                0 <= i < r@.len() ==> (#[trigger] r@[i].0@, r@[i].1@) == self.spec_pairs()[i],
    {
        &self.pairs
    }

    /// How many pairs the encode emitted.
    pub fn len(&self) -> (r: usize)
        ensures
            r == self.spec_pairs().len(),
    {
        self.pairs.len()
    }

    /// Whether the encode emitted nothing.
    pub fn is_empty(&self) -> (r: bool)
        ensures
            r == (self.spec_pairs().len() == 0),
    {
        self.pairs.len() == 0
    }
}

} // verus!
