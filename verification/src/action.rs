use vstd::prelude::*;

verus! {

/// One of the three things the overlay can do.
#[derive(Debug, Copy, Clone, PartialEq, Eq, Structural)]
pub enum Action {
    ShutDown,
    Reboot,
    Sleep,
}

impl Action {
    /// The action one step to the right in the cycle
    /// shut down -> reboot -> sleep -> shut down.
    pub open spec fn spec_next(self) -> Action {
        match self {
            Action::ShutDown => Action::Reboot,
            Action::Reboot => Action::Sleep,
            Action::Sleep => Action::ShutDown,
        }
    }

    /// The action one step to the left in the same cycle.
    pub open spec fn spec_previous(self) -> Action {
        match self {
            Action::ShutDown => Action::Sleep,
            Action::Reboot => Action::ShutDown,
            Action::Sleep => Action::Reboot,
        }
    }

    pub fn next(self) -> (r: Action)
        ensures
            r == self.spec_next(),
    {
        match self {
            Action::ShutDown => Action::Reboot,
            Action::Reboot => Action::Sleep,
            Action::Sleep => Action::ShutDown,
        }
    }

    pub fn previous(self) -> (r: Action)
        ensures
            r == self.spec_previous(),
    {
        match self {
            Action::ShutDown => Action::Sleep,
            Action::Reboot => Action::ShutDown,
            Action::Sleep => Action::Reboot,
        }
    }
}

impl Default for Action {
    /// The overlay starts with shut down focused.
    fn default() -> (r: Action)
        ensures
            r == Action::ShutDown,
    {
        Action::ShutDown
    }
}

/// Stepping left undoes stepping right, and the other way round.
pub proof fn lemma_next_previous_inverse(a: Action)
    ensures
        a.spec_next().spec_previous() == a,
        a.spec_previous().spec_next() == a,
{
}

/// The cycle has length three: three steps in either direction
/// come back to the start, and fewer do not.
pub proof fn lemma_cycle_length_three(a: Action)
    ensures
        a.spec_next().spec_next().spec_next() == a,
        a.spec_previous().spec_previous().spec_previous() == a,
        a.spec_next() != a,
        a.spec_next().spec_next() != a,
{
}

/// Stepping right reaches every action: the focus can always be moved
/// to any of the three choices.
pub proof fn lemma_next_reaches_all(a: Action, b: Action)
    ensures
        b == a || b == a.spec_next() || b == a.spec_next().spec_next(),
{
}

} // verus!
