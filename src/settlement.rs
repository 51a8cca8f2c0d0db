//! The single-fire settlement cell shared by the reply and error handlers.
use vstd::prelude::*;

verus! {

/// Where a settlement cell stands. `Armed` is the only state with a way out.
#[derive(PartialEq, Eq, Structural, Clone, Copy, Debug)]
pub enum CellState {
    Armed,
    Resolved,
    Rejected,
}

/// A cell that lets through at most one settlement, resolve or reject.
///
/// Every write goes through a take-if-armed gate: the first `resolve` or
/// `reject` disarms the cell, and every later one leaves it as it is.
#[derive(Debug)]
pub struct SettlementCell {
    state: CellState,
}

impl View for SettlementCell {
    type V = CellState;

    closed spec fn view(&self) -> CellState {
        self.state
    }
}

impl SettlementCell {
    /// A fresh cell, armed.
    pub fn new() -> (r: SettlementCell)
        ensures
            r@ == CellState::Armed,
    {
        SettlementCell { state: CellState::Armed }
    }

    pub fn state(&self) -> (r: CellState)
        ensures
            r == self@,
    {
        self.state
    }

    pub fn is_armed(&self) -> (r: bool)
        ensures
            r == (self@ == CellState::Armed),
    {
        self.state == CellState::Armed
    }

    /// Settles the cell as resolved if it is still armed; reports whether it did.
    pub fn resolve(&mut self) -> (fired: bool)
        ensures
            fired == (old(self)@ == CellState::Armed),
            fired ==> final(self)@ == CellState::Resolved,
            !fired ==> final(self)@ == old(self)@,
    {
        self.take(CellState::Resolved)
    }

    /// Settles the cell as rejected if it is still armed; reports whether it did.
    pub fn reject(&mut self) -> (fired: bool)
        ensures
            fired == (old(self)@ == CellState::Armed),
            fired ==> final(self)@ == CellState::Rejected,
            !fired ==> final(self)@ == old(self)@,
    {
        self.take(CellState::Rejected)
    }

    /// The one write gate: moves an armed cell to `to`, and leaves a settled
    /// cell alone.
    fn take(&mut self, to: CellState) -> (fired: bool)
        requires
            to != CellState::Armed,
        ensures
            fired == (old(self)@ == CellState::Armed),
            fired ==> final(self)@ == to,
            !fired ==> final(self)@ == old(self)@,
    {
        if self.state == CellState::Armed {
            self.state = to;
            true
        } else {
            false
        }
    }
}

} // verus!
