//! A selection cursor over an ordered sequence: an optional selected index
//! that moves one step at a time with wrap-around at both ends, and that
//! clamps explicit selection requests into range instead of failing.

use vstd::prelude::*;

verus! {

/// Index reached from `i` by one forward step over `len` items, wrapping
/// past the last index back to `0`.
pub open spec fn step_next(i: nat, len: nat) -> nat
    recommends
        i < len,
{
    if i + 1 == len {
        0
    } else {
        i + 1
    }
}

/// Index reached from `i` by one backward step over `len` items, wrapping
/// past `0` back to the last index.
pub open spec fn step_prev(i: nat, len: nat) -> nat
    recommends
        i < len,
{
    if i == 0 {
        (len - 1) as nat
    } else {
        (i - 1) as nat
    }
}

/// Selection after a forward move: an empty sequence never has a selection,
/// a sequence without one gains the first index, otherwise the index steps
/// forward with wrap-around.
pub open spec fn next_sel(sel: Option<usize>, len: nat) -> Option<usize> {
    if len == 0 {
        None
    } else {
        match sel {
            Some(i) => Some(step_next(i as nat, len) as usize),
            None => Some(0usize),
        }
    }
}

/// Selection after a backward move, symmetric to `next_sel`.
pub open spec fn prev_sel(sel: Option<usize>, len: nat) -> Option<usize> {
    if len == 0 {
        None
    } else {
        match sel {
            Some(i) => Some(step_prev(i as nat, len) as usize),
            None => Some(0usize),
        }
    }
}

/// Selection that an explicit request yields: `None` clears it, an in-range
/// index is taken as is, an out-of-range one is clamped to the last index,
/// and an empty sequence yields no selection at all.
pub open spec fn clamped_sel(req: Option<usize>, len: nat) -> Option<usize> {
    match req {
        None => None,
        Some(i) => if len == 0 {
            None
        } else if i < len {
            Some(i)
        } else {
            Some((len - 1) as usize)
        },
    }
}

/// `step_next` applied `k` times starting from `i`.
pub open spec fn iter_next(i: nat, len: nat, k: nat) -> nat
    decreases k,
{
    if k == 0 {
        i
    } else {
        step_next(iter_next(i, len, (k - 1) as nat), len)
    }
}

/// `step_prev` applied `k` times starting from `i`.
pub open spec fn iter_prev(i: nat, len: nat, k: nat) -> nat
    decreases k,
{
    if k == 0 {
        i
    } else {
        step_prev(iter_prev(i, len, (k - 1) as nat), len)
    }
}

/// An ordered sequence with a movable selection.
pub struct Cursor<T> {
    items: Vec<T>,
    idx: Option<usize>,
}

impl<T> Cursor<T> {
    /// The items, as a mathematical sequence.
    pub closed spec fn seq(&self) -> Seq<T> {
        self.items@
    }

    /// The selected index, if any.
    pub closed spec fn sel(&self) -> Option<usize> {
        self.idx
    }

    /// Well-formedness: a selection is always in range, and an empty
    /// sequence has none.
    pub open spec fn wf(&self) -> bool {
        &&& (self.sel() matches Some(i) ==> i < self.seq().len())
        &&& (self.seq().len() == 0 ==> self.sel() is None)
    }

    /// An empty cursor with no selection.
    pub fn new() -> (r: Cursor<T>)
        ensures
            r.seq() == Seq::<T>::empty(),
            r.sel() is None,
            r.wf(),
    {
        Cursor { items: Vec::new(), idx: None }
    }

    /// A cursor over `items`, selecting the first index when there is one.
    pub fn with_items(items: Vec<T>) -> (r: Cursor<T>)
        ensures
            r.seq() == items@,
            r.sel() == (if items@.len() == 0 {
                Option::<usize>::None
            } else {
                Option::<usize>::Some(0usize)
            }),
            r.wf(),
    {
        let idx = if items.len() == 0 {
            None
        } else {
            Some(0usize)
        };
        Cursor { items, idx }
    }

    pub fn len(&self) -> (n: usize)
        ensures
            n == self.seq().len(),
    {
        self.items.len()
    }

    pub fn items(&self) -> (r: &Vec<T>)
        ensures
            r@ == self.seq(),
    {
        &self.items
    }

    pub fn current_idx(&self) -> (r: Option<usize>)
        ensures
            r == self.sel(),
    {
        self.idx
    }

    /// The items, consuming the cursor.
    pub fn into_items(self) -> (r: Vec<T>)
        ensures
            r@ == self.seq(),
    {
        self.items
    }

    /// Set the selection: `None` clears it, an out-of-range index clamps to
    /// the last valid one, and on an empty sequence nothing can be selected.
    pub fn select(&mut self, req: Option<usize>)
        ensures
            final(self).seq() == old(self).seq(),
            final(self).sel() == clamped_sel(req, old(self).seq().len()),
            final(self).wf(),
    {
        let len = self.items.len();
        self.idx = match req {
            None => None,
            Some(i) => {
                if len == 0 {
                    None
                } else if i < len {
                    Some(i)
                } else {
                    Some(len - 1)
                }
            },
        };
    }

    /// Move the selection one step forward, wrapping at the end; on an
    /// empty sequence this is a no-op yielding no selection. Returns the
    /// new selection.
    pub fn next(&mut self) -> (r: Option<usize>)
        requires
            old(self).wf(),
        ensures
            final(self).seq() == old(self).seq(),
            final(self).sel() == next_sel(old(self).sel(), old(self).seq().len()),
            final(self).wf(),
            r == final(self).sel(),
    {
        let len = self.items.len();
        if len == 0 {
            self.idx = None;
        } else {
            let i: usize = match self.idx {
                Some(i) => {
                    if i + 1 == len {
                        0
                    } else {
                        i + 1
                    }
                },
                None => 0,
            };
            self.idx = Some(i);
        }
        self.idx
    }

    /// Move the selection one step backward, wrapping at the start; on an
    /// empty sequence this is a no-op yielding no selection. Returns the
    /// new selection.
    pub fn previous(&mut self) -> (r: Option<usize>)
        requires
            old(self).wf(),
        ensures
            final(self).seq() == old(self).seq(),
            final(self).sel() == prev_sel(old(self).sel(), old(self).seq().len()),
            final(self).wf(),
            r == final(self).sel(),
    {
        let len = self.items.len();
        if len == 0 {
            self.idx = None;
        } else {
            let i: usize = match self.idx {
                Some(i) => {
                    if i == 0 {
                        len - 1
                    } else {
                        i - 1
                    }
                },
                None => 0,
            };
            self.idx = Some(i);
        }
        self.idx
    }

    /// The selected item, if any.
    pub fn current(&self) -> (r: Option<&T>)
        requires
            self.wf(),
        ensures
            match self.sel() {
                Some(i) => r matches Some(v) && *v == self.seq()[i as int],
                None => r is None,
            },
    {
        match self.idx {
            Some(i) => Some(&self.items[i]),
            None => None,
        }
    }
}

/// Splitting an iterated forward walk: walking `a + b` steps is walking
/// `a` steps and then `b` more.
proof fn lemma_iter_next_split(i: nat, len: nat, a: nat, b: nat)
    ensures
        iter_next(i, len, a + b) == iter_next(iter_next(i, len, a), len, b),
    decreases b,
{
    if b > 0 {
        lemma_iter_next_split(i, len, a, (b - 1) as nat);
    }
}

/// A forward walk short enough not to wrap just adds the step count.
proof fn lemma_iter_next_no_wrap(i: nat, len: nat, k: nat)
    requires
        i + k < len,
    ensures
        iter_next(i, len, k) == i + k,
    decreases k,
{
    if k > 0 {
        lemma_iter_next_no_wrap(i, len, (k - 1) as nat);
    }
}

/// Splitting an iterated backward walk, symmetric to the forward case.
proof fn lemma_iter_prev_split(i: nat, len: nat, a: nat, b: nat)
    ensures
        iter_prev(i, len, a + b) == iter_prev(iter_prev(i, len, a), len, b),
    decreases b,
{
    if b > 0 {
        lemma_iter_prev_split(i, len, a, (b - 1) as nat);
    }
}

/// A backward walk short enough not to wrap just subtracts the step count.
proof fn lemma_iter_prev_no_wrap(i: nat, len: nat, k: nat)
    requires
        k <= i < len,
    ensures
        iter_prev(i, len, k) == i - k,
    decreases k,
{
    if k > 0 {
        lemma_iter_prev_no_wrap(i, len, (k - 1) as nat);
    }
}

/// Law: over a sequence of `len > 0` items, taking `len` forward steps from
/// any selected index returns the selection to that index.
pub proof fn lemma_next_round_trip(i: nat, len: nat)
    requires
        i < len,
    ensures
        iter_next(i, len, len) == i,
{
    let last = (len - 1) as nat;
    let to_last = (len - 1 - i) as nat;
    lemma_iter_next_no_wrap(i, len, to_last);
    lemma_iter_next_split(i, len, to_last, (i + 1) as nat);
    assert(iter_next(i, len, len) == iter_next(last, len, (i + 1) as nat));
    lemma_iter_next_split(last, len, 1, i);
    assert(iter_next(last, len, 1) == step_next(iter_next(last, len, 0), len));
    assert(iter_next(last, len, 0) == last);
    assert(step_next(last, len) == 0);
    lemma_iter_next_no_wrap(0, len, i);
}

/// Law: over a sequence of `len > 0` items, taking `len` backward steps from
/// any selected index returns the selection to that index.
pub proof fn lemma_prev_round_trip(i: nat, len: nat)
    requires
        i < len,
    ensures
        iter_prev(i, len, len) == i,
{
    let last = (len - 1) as nat;
    let up_from_last = (len - 1 - i) as nat;
    lemma_iter_prev_no_wrap(i, len, i);
    lemma_iter_prev_split(i, len, i, (len - i) as nat);
    assert(iter_prev(i, len, len) == iter_prev(0, len, (len - i) as nat));
    lemma_iter_prev_split(0, len, 1, up_from_last);
    assert(iter_prev(0, len, 1) == step_prev(iter_prev(0, len, 0), len));
    assert(iter_prev(0, len, 0) == 0);
    assert(step_prev(0, len) == last);
    lemma_iter_prev_no_wrap(last, len, up_from_last);
}

} // verus!
