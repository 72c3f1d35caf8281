//! Per-iteration actions and their observable call history.

use vstd::prelude::*;
use vstd::pervasive::VecAdditionalExecFns;
use vstd::wrapping::usize_specs;

verus! {

/// A caller-supplied unit of work, invoked once per iteration index.
///
/// `history()` is the action's view: every index it has been handed so far,
/// oldest first. A `call` appends exactly the index it was given, so the
/// history is the observable record of what an unroller did with the action.
/// `accepts` says which indices the action is prepared for; a call may
/// change the action's state but may not shrink that set.
pub trait Action: Sized {
    /// Which indices the action is currently prepared to receive.
    spec fn accepts(&self, i: int) -> bool;

    /// Every index handed to the action so far, oldest first.
    spec fn history(&self) -> Seq<int>;

    /// Perform the work for iteration index `i`.
    fn call(&mut self, i: usize)
        requires
            old(self).accepts(i as int),
        ensures
            final(self).history() == old(self).history().push(i as int),
            forall|j: int| old(self).accepts(j) ==> final(self).accepts(j),
    ;
}

/// A unit of work that receives each index together with its unroll slot.
///
/// The history records the `(index, slot)` pairs the action was handed,
/// oldest first, and a call appends exactly its own pair.
pub trait SlotAction: Sized {
    /// Which `(index, slot)` pairs the action is currently prepared to receive.
    spec fn accepts(&self, i: int, s: int) -> bool;

    /// Every `(index, slot)` pair handed to the action so far, oldest first.
    spec fn history(&self) -> Seq<(int, int)>;

    /// Perform the work for iteration index `i` in unroll slot `s`.
    fn call(&mut self, i: usize, s: usize)
        requires
            old(self).accepts(i as int, s as int),
        ensures
            final(self).history() == old(self).history().push((i as int, s as int)),
            forall|j: int, t: int| old(self).accepts(j, t) ==> final(self).accepts(j, t),
    ;
}

/// An action that records every index it is handed, in order.
pub struct IndexLog {
    /// The recorded indices, oldest first.
    pub calls: Vec<usize>,
}

impl IndexLog {
    /// An empty log.
    pub fn new() -> (log: IndexLog)
        ensures
            log.history() == Seq::<int>::empty(),
            log.calls@.len() == 0,
    {
        IndexLog { calls: Vec::new() }
    }
}

impl Action for IndexLog {
    open spec fn accepts(&self, i: int) -> bool {
        true
    }

    open spec fn history(&self) -> Seq<int> {
        self.calls@.map_values(|c: usize| c as int)
    }

    fn call(&mut self, i: usize) {
        self.calls.push(i);
        proof {
            assert(self.calls@.map_values(|c: usize| c as int)
                =~= old(self).calls@.map_values(|c: usize| c as int).push(i as int));
        }
    }
}

/// An action that records every `(index, slot)` pair it is handed, in order.
pub struct PairLog {
    /// The recorded pairs, oldest first.
    pub calls: Vec<(usize, usize)>,
}

impl PairLog {
    /// An empty log.
    pub fn new() -> (log: PairLog)
        ensures
            log.history() == Seq::<(int, int)>::empty(),
            log.calls@.len() == 0,
    {
        PairLog { calls: Vec::new() }
    }
}

impl SlotAction for PairLog {
    open spec fn accepts(&self, i: int, s: int) -> bool {
        true
    }

    open spec fn history(&self) -> Seq<(int, int)> {
        self.calls@.map_values(|c: (usize, usize)| (c.0 as int, c.1 as int))
    }

    fn call(&mut self, i: usize, s: usize) {
        self.calls.push((i, s));
        proof {
            assert(self.calls@.map_values(|c: (usize, usize)| (c.0 as int, c.1 as int))
                =~= old(self).calls@.map_values(|c: (usize, usize)| (c.0 as int, c.1 as int))
                    .push((i as int, s as int)));
        }
    }
}

/// An action over a row of cells that writes each index into its own cell:
/// `cells[i] = i`.
pub struct StoreIndex {
    /// The cells being filled.
    pub cells: Vec<usize>,
    pub hist: Ghost<Seq<int>>,
}

impl StoreIndex {
    /// An action over `cells` with an empty history.
    pub fn new(cells: Vec<usize>) -> (a: StoreIndex)
        ensures
            a.cells == cells,
            a.history() == Seq::<int>::empty(),
    {
        StoreIndex { cells, hist: Ghost(Seq::empty()) }
    }
}

impl Action for StoreIndex {
    open spec fn accepts(&self, i: int) -> bool {
        0 <= i < self.cells@.len()
    }

    open spec fn history(&self) -> Seq<int> {
        self.hist@
    }

    fn call(&mut self, i: usize)
        ensures
            final(self).cells@ == old(self).cells@.update(i as int, i),
    {
        self.cells.set(i, i);
        self.hist = Ghost(self.hist@.push(i as int));
    }
}

/// An action over a row of cells that adds each index into its own cell:
/// `cells[i] += i`, wrapping on overflow.
pub struct AddIndex {
    /// The cells being accumulated into.
    pub cells: Vec<usize>,
    pub hist: Ghost<Seq<int>>,
}

impl AddIndex {
    /// An action over `cells` with an empty history.
    pub fn new(cells: Vec<usize>) -> (a: AddIndex)
        ensures
            a.cells == cells,
            a.history() == Seq::<int>::empty(),
    {
        AddIndex { cells, hist: Ghost(Seq::empty()) }
    }
}

impl Action for AddIndex {
    open spec fn accepts(&self, i: int) -> bool {
        0 <= i < self.cells@.len()
    }

    open spec fn history(&self) -> Seq<int> {
        self.hist@
    }

    fn call(&mut self, i: usize)
        ensures
            final(self).cells@ == old(self).cells@.update(
                i as int,
                usize_specs::wrapping_add(old(self).cells@[i as int], i),
            ),
    {
        let v: usize = self.cells[i].wrapping_add(i);
        self.cells.set(i, v);
        self.hist = Ghost(self.hist@.push(i as int));
    }
}

/// A slot action over two rows of cells: it adds each index into its own
/// cell of `sums` (wrapping on overflow) and writes the slot it was handed
/// into the same cell of `slots`.
pub struct AddIndexStoreSlot {
    /// The cells accumulating the indices.
    pub sums: Vec<usize>,
    /// The cells holding the last slot seen for each index.
    pub slots: Vec<usize>,
    pub hist: Ghost<Seq<(int, int)>>,
}

impl AddIndexStoreSlot {
    /// An action over `sums` and `slots` with an empty history.
    pub fn new(sums: Vec<usize>, slots: Vec<usize>) -> (a: AddIndexStoreSlot)
        ensures
            a.sums == sums,
            a.slots == slots,
            a.history() == Seq::<(int, int)>::empty(),
    {
        AddIndexStoreSlot { sums, slots, hist: Ghost(Seq::empty()) }
    }
}

impl SlotAction for AddIndexStoreSlot {
    open spec fn accepts(&self, i: int, s: int) -> bool {
        0 <= i < self.sums@.len() && i < self.slots@.len()
    }

    open spec fn history(&self) -> Seq<(int, int)> {
        self.hist@
    }

    fn call(&mut self, i: usize, s: usize)
        ensures
            final(self).sums@ == old(self).sums@.update(
                i as int,
                usize_specs::wrapping_add(old(self).sums@[i as int], i),
            ),
            final(self).slots@ == old(self).slots@.update(i as int, s),
    {
        let v: usize = self.sums[i].wrapping_add(i);
        self.sums.set(i, v);
        self.slots.set(i, s);
        self.hist = Ghost(self.hist@.push((i as int, s as int)));
    }
}

} // verus!
