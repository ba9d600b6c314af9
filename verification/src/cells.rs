//! State cells: values that a composition scope keeps across passes.
//!
//! A cell is named by call order: the first `use_state` of a pass reaches
//! slot 0, the second slot 1, and so on. The slot number is the cell's
//! address; it stays valid for as long as the store lives, so that a handler
//! invoked outside any pass reaches the same storage through it.

use vstd::prelude::*;

verus! {

/// The mathematical value of a [`StateCells`].
pub struct CellsView<T> {
    /// The stored values, by address.
    pub slots: Seq<T>,
    /// How many cells the current pass has reached so far.
    pub cursor: nat,
    /// How many cells the pass before this one reached, once one has ended.
    pub expected: Option<nat>,
}

impl<T> CellsView<T> {
    /// A store without cells, before its first pass.
    pub open spec fn empty() -> CellsView<T> {
        CellsView { slots: Seq::empty(), cursor: 0, expected: None }
    }

    /// The store after one `use_state`, where `initial` is what the cell is
    /// initialised with if it does not exist yet.
    pub open spec fn used(self, initial: T) -> CellsView<T> {
        CellsView {
            slots: if self.cursor < self.slots.len() {
                self.slots
            } else {
                self.slots.push(initial)
            },
            cursor: self.cursor + 1,
            expected: self.expected,
        }
    }

    /// The store after `value` was written to the cell at `address`. An
    /// address that names no cell changes nothing.
    pub open spec fn written(self, address: nat, value: T) -> CellsView<T> {
        if address < self.slots.len() {
            CellsView {
                slots: self.slots.update(address as int, value),
                cursor: self.cursor,
                expected: self.expected,
            }
        } else {
            self
        }
    }

    /// Whether the pass that is ending reached as many cells as the one
    /// before it. The first pass is consistent whatever it reached.
    pub open spec fn consistent(self) -> bool {
        match self.expected {
            None => true,
            Some(n) => n == self.cursor,
        }
    }

    /// The store after the pass has ended.
    pub open spec fn ended(self) -> CellsView<T> {
        CellsView { slots: self.slots, cursor: 0, expected: Some(self.cursor) }
    }
}

/// A pass reached another number of cells than the pass before it, so that
/// call order no longer names the same cells.
#[derive(Debug, Clone, Copy, PartialEq, Eq, Structural)]
pub struct OrderViolation {
    /// The number of cells that the earlier pass reached.
    pub expected: usize,
    /// The number of cells that this pass reached.
    pub found: usize,
}

/// A cell checked out for the current pass: a working copy of its value and
/// the address to commit it to. Committing consumes the handle, so that one
/// handle is committed at most once.
pub struct StateHandle<T> {
    address: usize,
    value: T,
}

impl<T: Copy> StateHandle<T> {
    /// The address of the cell.
    pub closed spec fn spec_address(&self) -> usize {
        self.address
    }

    /// The working copy.
    pub closed spec fn spec_value(&self) -> T {
        self.value
    }

    /// The address of the cell: stable across passes.
    #[verifier::when_used_as_spec(spec_address)]
    pub fn address(&self) -> (address: usize)
        ensures
            address == self.spec_address(),
    {
        self.address
    }

    /// Reads the working copy.
    #[verifier::when_used_as_spec(spec_value)]
    pub fn value(&self) -> (value: T)
        ensures
            value == self.spec_value(),
    {
        self.value
    }

    /// Overwrites the working copy. The store sees the new value when the
    /// handle is committed.
    pub fn set(&mut self, value: T)
        ensures
            final(self).spec_value() == value,
            final(self).spec_address() == old(self).spec_address(),
    {
        self.value = value;
    }
}

/// The cells of one composition scope.
pub struct StateCells<T> {
    slots: Vec<T>,
    cursor: usize,
    expected: Option<usize>,
}

impl<T: Copy> View for StateCells<T> {
    type V = CellsView<T>;

    closed spec fn view(&self) -> CellsView<T> {
        CellsView {
            slots: self.slots@,
            cursor: self.cursor as nat,
            expected: match self.expected {
                Some(n) => Some(n as nat),
                None => None,
            },
        }
    }
}

impl<T: Copy> StateCells<T> {
    /// No pass reaches beyond the cell after the last one.
    pub open spec fn wf(&self) -> bool {
        self@.cursor <= self@.slots.len()
    }

    /// A store without cells.
    pub fn new() -> (cells: StateCells<T>)
        ensures
            cells@ == CellsView::<T>::empty(),
            cells.wf(),
    {
        StateCells { slots: Vec::new(), cursor: 0, expected: None }
    }

    /// Reaches the next cell of this pass. Where the cell exists, its value
    /// is checked out and `make_initial` is not called. Where it does not,
    /// `make_initial` is called, once, and a cell with its result is created.
    pub fn use_state<F: FnOnce() -> T>(&mut self, make_initial: F) -> (handle: StateHandle<T>)
        requires
            old(self).wf(),
            call_requires(make_initial, ()),
        ensures
            final(self).wf(),
            handle.spec_address() == old(self)@.cursor,
            final(self)@ == old(self)@.used(handle.spec_value()),
            handle.spec_value() == final(self)@.slots[old(self)@.cursor as int],
            old(self)@.cursor == old(self)@.slots.len() ==> call_ensures(
                make_initial,
                (),
                handle.spec_value(),
            ),
    {
        let address: usize = self.cursor;
        let value = if address < self.slots.len() {
            self.slots[address]
        } else {
            let initial = make_initial();
            self.slots.push(initial);
            initial
        };
        let len: usize = self.slots.len();
        assert(address < len);
        self.cursor = address + 1;
        StateHandle { address, value }
    }

    /// Writes the working copy back to its cell and reports whether the
    /// address named one.
    pub fn commit(&mut self, handle: StateHandle<T>) -> (stored: bool)
        ensures
            stored == (handle.spec_address() < old(self)@.slots.len()),
            final(self)@ == old(self)@.written(handle.spec_address() as nat, handle.spec_value()),
            old(self).wf() ==> final(self).wf(),
    {
        self.write(handle.address, handle.value)
    }

    /// Reads the cell at `address`, in or out of a pass.
    pub fn read(&self, address: usize) -> (value: Option<T>)
        ensures
            value == if address < self@.slots.len() {
                Some(self@.slots[address as int])
            } else {
                None
            },
    {
        if address < self.slots.len() {
            Some(self.slots[address])
        } else {
            None
        }
    }

    /// Writes the cell at `address`, in or out of a pass, and reports whether
    /// the address named one.
    pub fn write(&mut self, address: usize, value: T) -> (stored: bool)
        ensures
            stored == (address < old(self)@.slots.len()),
            final(self)@ == old(self)@.written(address as nat, value),
            old(self).wf() ==> final(self).wf(),
    {
        if address < self.slots.len() {
            self.slots[address] = value;
            true
        } else {
            false
        }
    }

    /// The number of cells.
    pub fn len(&self) -> (len: usize)
        ensures
            len == self@.slots.len(),
    {
        self.slots.len()
    }

    /// Ends the pass: the next `use_state` reaches slot 0 again. Fails where
    /// this pass reached another number of cells than the one before it; the
    /// store is reset all the same, with this pass's count as the new
    /// expectation.
    pub fn end_pass(&mut self) -> (res: Result<(), OrderViolation>)
        ensures
            final(self)@ == old(self)@.ended(),
            final(self).wf(),
            res is Ok <==> old(self)@.consistent(),
            res is Err ==> old(self)@.expected == Some(res->Err_0.expected as nat)
                && res->Err_0.found == old(self)@.cursor,
    {
        let found: usize = self.cursor;
        let before = self.expected;
        self.expected = Some(found);
        self.cursor = 0;
        match before {
            Some(expected) => {
                if expected == found {
                    Ok(())
                } else {
                    Err(OrderViolation { expected, found })
                }
            },
            None => Ok(()),
        }
    }
}

/// One pass of a scope whose only cell is a counter: the cell is reached
/// with 0 as its initial value, incremented, and committed, and the pass
/// ends.
pub open spec fn counting_pass(cells: CellsView<u64>) -> CellsView<u64> {
    let reached = cells.used(0);
    reached.written(cells.cursor, (reached.slots[cells.cursor as int] + 1) as u64).ended()
}

/// The store after `passes` counting passes.
pub open spec fn counting_passes(cells: CellsView<u64>, passes: nat) -> CellsView<u64>
    decreases passes,
{
    if passes == 0 {
        cells
    } else {
        counting_pass(counting_passes(cells, (passes - 1) as nat))
    }
}

/// A counter cell incremented once per pass holds `passes` after that many
/// passes on a fresh store: the initial value is used once, every later pass
/// finds what the pass before it committed, and every pass is consistent
/// with the one before it.
pub proof fn lemma_counter_counts_passes(passes: nat)
    requires
        0 < passes <= u64::MAX,
    ensures
        counting_passes(CellsView::<u64>::empty(), passes).slots == seq![passes as u64],
        counting_passes(CellsView::<u64>::empty(), passes).cursor == 0,
        counting_passes(CellsView::<u64>::empty(), passes).expected == Some(1nat),
    decreases passes,
{
    let before = counting_passes(CellsView::<u64>::empty(), (passes - 1) as nat);
    let after = counting_pass(before);
    assert(counting_passes(CellsView::<u64>::empty(), passes) == after);
    if passes > 1 {
        lemma_counter_counts_passes((passes - 1) as nat);
        assert(before.used(0).slots == before.slots);
    } else {
        assert(before == CellsView::<u64>::empty());
        assert(before.used(0).slots =~= seq![0u64]);
    }
    assert(after.slots =~= seq![passes as u64]);
}

/// A pass that reaches an existing cell without writing to it leaves every
/// stored value as it was: what was committed is still there in a later pass
/// with the same call order.
pub proof fn lemma_reading_pass_keeps_values<T>(cells: CellsView<T>, initial: T)
    requires
        cells.cursor < cells.slots.len(),
    ensures
        cells.used(initial).slots == cells.slots,
        cells.used(initial).ended().slots == cells.slots,
{
}

} // verus!
