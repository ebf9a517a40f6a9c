//! Lifecycle states of an escrow and the fixed graph of transitions between them.
//!
//! ```text
//! Created --Accept--> Accepted --ConfirmDelivery--> Completed
//!    |                    |
//!    +--Cancel--> Cancelled   +--ResolveTimeout--> TimedOut
//! ```

use vstd::prelude::*;

verus! {

/// The lifecycle state of an escrow. Exactly one holds at any time.
#[derive(Clone, Copy, Debug, PartialEq, Eq, Structural)]
pub enum EscrowState {
    Created,
    Accepted,
    Completed,
    Cancelled,
    TimedOut,
}

/// A transition that can be requested on an existing escrow.
#[derive(Clone, Copy, Debug, PartialEq, Eq, Structural)]
pub enum Transition {
    Accept,
    ConfirmDelivery,
    Cancel,
    ResolveTimeout,
}

impl EscrowState {
    /// A terminal state has no outgoing transition.
    pub open spec fn terminal(self) -> bool {
        self == EscrowState::Completed || self == EscrowState::Cancelled
            || self == EscrowState::TimedOut
    }

    /// How far along the lifecycle a state is: 0 for `Created`, 1 for
    /// `Accepted`, 2 for every terminal state.
    pub open spec fn rank(self) -> nat {
        match self {
            EscrowState::Created => 0,
            EscrowState::Accepted => 1,
            _ => 2,
        }
    }

    /// Whether the graph has an edge from `self` to `to`.
    pub open spec fn edge(self, to: EscrowState) -> bool {
        exists|t: Transition| t.source() == self && t.target() == to
    }

    /// Whether `to` can be reached from `self` by following zero or more edges.
    pub open spec fn reaches(self, to: EscrowState) -> bool {
        self == to || self.edge(to) || (self == EscrowState::Created && (to
            == EscrowState::Completed || to == EscrowState::TimedOut))
    }

    /// Whether no transition leaves this state.
    pub fn is_terminal(&self) -> (r: bool)
        ensures
            r == self.terminal(),
    {
        match self {
            EscrowState::Created => false,
            EscrowState::Accepted => false,
            _ => true,
        }
    }
}

impl Transition {
    /// The only state from which the transition is legal.
    pub open spec fn source(self) -> EscrowState {
        match self {
            Transition::Accept => EscrowState::Created,
            Transition::ConfirmDelivery => EscrowState::Accepted,
            Transition::Cancel => EscrowState::Created,
            Transition::ResolveTimeout => EscrowState::Accepted,
        }
    }

    /// The state in which the transition leaves the escrow.
    pub open spec fn target(self) -> EscrowState {
        match self {
            Transition::Accept => EscrowState::Accepted,
            Transition::ConfirmDelivery => EscrowState::Completed,
            Transition::Cancel => EscrowState::Cancelled,
            Transition::ResolveTimeout => EscrowState::TimedOut,
        }
    }

    /// Whether the transition hands the vault's balance over.
    pub open spec fn releases(self) -> bool {
        self != Transition::Accept
    }

    /// The state from which this transition is legal.
    pub fn from_state(&self) -> (r: EscrowState)
        ensures
            r == self.source(),
    {
        match self {
            Transition::Accept => EscrowState::Created,
            Transition::ConfirmDelivery => EscrowState::Accepted,
            Transition::Cancel => EscrowState::Created,
            Transition::ResolveTimeout => EscrowState::Accepted,
        }
    }

    /// The state that this transition leads to.
    pub fn to_state(&self) -> (r: EscrowState)
        ensures
            r == self.target(),
    {
        match self {
            Transition::Accept => EscrowState::Accepted,
            Transition::ConfirmDelivery => EscrowState::Completed,
            Transition::Cancel => EscrowState::Cancelled,
            Transition::ResolveTimeout => EscrowState::TimedOut,
        }
    }
}

/// The graph has exactly four edges, and none of them leaves a terminal state,
/// returns to an earlier state or skips `Accepted` on the way to `Completed` or
/// `TimedOut`.
pub proof fn lemma_graph_shape(from: EscrowState, to: EscrowState)
    ensures
        from.edge(to) <==> (from == EscrowState::Created && to == EscrowState::Accepted) || (from
            == EscrowState::Created && to == EscrowState::Cancelled) || (from
            == EscrowState::Accepted && to == EscrowState::Completed) || (from
            == EscrowState::Accepted && to == EscrowState::TimedOut),
        from.edge(to) ==> !from.terminal() && from.rank() < to.rank(),
{
    if (from == EscrowState::Created && to == EscrowState::Accepted) {
        assert(Transition::Accept.source() == from && Transition::Accept.target() == to);
    }
    if (from == EscrowState::Created && to == EscrowState::Cancelled) {
        assert(Transition::Cancel.source() == from && Transition::Cancel.target() == to);
    }
    if (from == EscrowState::Accepted && to == EscrowState::Completed) {
        assert(Transition::ConfirmDelivery.source() == from && Transition::ConfirmDelivery.target()
            == to);
    }
    if (from == EscrowState::Accepted && to == EscrowState::TimedOut) {
        assert(Transition::ResolveTimeout.source() == from && Transition::ResolveTimeout.target()
            == to);
    }
}

} // verus!
