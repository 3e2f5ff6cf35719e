//! Lifecycle states of a strategy.

use vstd::prelude::*;

verus! {

/// Where a strategy stands in its cycle.
#[derive(Debug)]
pub enum DcaState {
    /// Stopped; waits for a manual start.
    Idle,
    /// Looks for entries and exits on every tick.
    Running,
    /// The position was closed at a profit.
    TakeProfitReached,
    /// The position was closed at the loss limit.
    StopLossReached,
    /// The configured number of entries has been made.
    MaxOrdersReached,
    /// An order failed; the text says why.
    Error(String),
}

impl DcaState {
    /// The text shown for a state.
    pub open spec fn label_text(&self) -> Seq<char> {
        match self {
            DcaState::Idle => "STOPPED"@,
            DcaState::Running => "ACTIVE"@,
            DcaState::TakeProfitReached => "TAKE PROFIT"@,
            DcaState::StopLossReached => "STOP LOSS"@,
            DcaState::MaxOrdersReached => "MAX ORDERS"@,
            DcaState::Error(_) => "ERROR"@,
        }
    }

    /// A strategy is active exactly in the state `Running`.
    pub open spec fn active(&self) -> bool {
        *self is Running
    }

    /// Two states are the same variant and, for errors, carry the same text.
    pub open spec fn same(&self, other: &DcaState) -> bool {
        match (self, other) {
            (DcaState::Idle, DcaState::Idle) => true,
            (DcaState::Running, DcaState::Running) => true,
            (DcaState::TakeProfitReached, DcaState::TakeProfitReached) => true,
            (DcaState::StopLossReached, DcaState::StopLossReached) => true,
            (DcaState::MaxOrdersReached, DcaState::MaxOrdersReached) => true,
            (DcaState::Error(a), DcaState::Error(b)) => a@ == b@,
            _ => false,
        }
    }

    /// Returns the text shown for the state.
    pub fn label(&self) -> (r: &str)
        ensures
            r@ == self.label_text(),
    {
        match self {
            DcaState::Idle => "STOPPED",
            DcaState::Running => "ACTIVE",
            DcaState::TakeProfitReached => "TAKE PROFIT",
            DcaState::StopLossReached => "STOP LOSS",
            DcaState::MaxOrdersReached => "MAX ORDERS",
            DcaState::Error(_) => "ERROR",
        }
    }

    /// Tells whether the strategy is running.
    pub fn is_active(&self) -> (r: bool)
        ensures
            r == self.active(),
    {
        match self {
            DcaState::Running => true,
            _ => false,
        }
    }
}

impl Clone for DcaState {
    fn clone(&self) -> (r: DcaState)
        ensures
            r == *self,
    {
        match self {
            DcaState::Idle => DcaState::Idle,
            DcaState::Running => DcaState::Running,
            DcaState::TakeProfitReached => DcaState::TakeProfitReached,
            DcaState::StopLossReached => DcaState::StopLossReached,
            DcaState::MaxOrdersReached => DcaState::MaxOrdersReached,
            DcaState::Error(reason) => DcaState::Error(reason.clone()),
        }
    }
}

impl PartialEq for DcaState {
    fn eq(&self, other: &DcaState) -> (r: bool) {
        match (self, other) {
            (DcaState::Idle, DcaState::Idle) => true,
            (DcaState::Running, DcaState::Running) => true,
            (DcaState::TakeProfitReached, DcaState::TakeProfitReached) => true,
            (DcaState::StopLossReached, DcaState::StopLossReached) => true,
            (DcaState::MaxOrdersReached, DcaState::MaxOrdersReached) => true,
            (DcaState::Error(a), DcaState::Error(b)) => *a == *b,
            _ => false,
        }
    }
}

impl vstd::std_specs::cmp::PartialEqSpecImpl for DcaState {
    open spec fn obeys_eq_spec() -> bool {
        true
    }

    open spec fn eq_spec(&self, other: &DcaState) -> bool {
        self.same(other)
    }
}

/// The state a strategy has when none was stored for it.
pub fn default_state() -> (r: DcaState)
    ensures
        r == DcaState::Idle,
{
    DcaState::Idle
}

} // verus!
