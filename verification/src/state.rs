use vstd::prelude::*;

use crate::action::Action;
use crate::message::FocusDirection;
use crate::message::Message;

verus! {

/// The whole state of the overlay: which of the three actions holds the
/// keyboard focus.
#[derive(Debug, Copy, Clone, PartialEq, Eq, Structural)]
pub struct OxiShut {
    pub focused_action: Action,
}

/// What the surrounding program must do after a message is handled.
/// The overlay itself never performs an action or exits: it only decides.
#[derive(Debug, Copy, Clone, PartialEq, Eq, Structural)]
pub enum Effect {
    /// Keep showing the overlay.
    Continue,
    /// Run the commands of this action, then terminate.
    Run(Action),
    /// Terminate without running anything.
    Exit,
}

impl OxiShut {
    /// What handling a message does: the state after it, and the effect
    /// the surrounding program owes.
    pub open spec fn spec_update(self, message: Message) -> (OxiShut, Effect) {
        match message {
            Message::Exit => (self, Effect::Exit),
            Message::Action(action) => (self, Effect::Run(action)),
            Message::CurrentAction => (self, Effect::Run(self.focused_action)),
            Message::MoveFocus(direction) => {
                let focused = match direction {
                    FocusDirection::Right => self.focused_action.spec_next(),
                    FocusDirection::Left => self.focused_action.spec_previous(),
                };
                (OxiShut { focused_action: focused }, Effect::Continue)
            },
        }
    }

    /// A fresh overlay: shut down is focused.
    pub fn new() -> (r: OxiShut)
        ensures
            r.focused_action == Action::ShutDown,
    {
        OxiShut { focused_action: Action::ShutDown }
    }

    /// Handle one message: move the focus, or report the effect owed.
    pub fn update(&mut self, message: Message) -> (e: Effect)
        ensures
            (*final(self), e) == old(self).spec_update(message),
    {
        match message {
            Message::Exit => Effect::Exit,
            Message::Action(action) => Effect::Run(action),
            Message::CurrentAction => Effect::Run(self.focused_action),
            Message::MoveFocus(direction) => {
                self.focused_action = match direction {
                    FocusDirection::Right => self.focused_action.next(),
                    FocusDirection::Left => self.focused_action.previous(),
                };
                Effect::Continue
            },
        }
    }
}

/// Only a focus move changes the state; every other message leaves the
/// overlay exactly as it was.
pub proof fn lemma_only_focus_moves_change_state(s: OxiShut, m: Message)
    requires
        !(m is MoveFocus),
    ensures
        s.spec_update(m).0 == s,
{
}

/// A focus move never runs anything and never exits: its effect is always
/// to keep the overlay open.
pub proof fn lemma_focus_move_continues(s: OxiShut, d: FocusDirection)
    ensures
        s.spec_update(Message::MoveFocus(d)).1 == Effect::Continue,
{
}

/// Moving right and then left, or left and then right, restores the state.
pub proof fn lemma_focus_moves_cancel(s: OxiShut)
    ensures
        s.spec_update(Message::MoveFocus(FocusDirection::Right)).0.spec_update(
            Message::MoveFocus(FocusDirection::Left),
        ).0 == s,
        s.spec_update(Message::MoveFocus(FocusDirection::Left)).0.spec_update(
            Message::MoveFocus(FocusDirection::Right),
        ).0 == s,
{
}

/// Confirming runs exactly the focused action: the effect of
/// `Message::CurrentAction` is to run what the state says is focused.
pub proof fn lemma_confirm_runs_focused(s: OxiShut)
    ensures
        s.spec_update(Message::CurrentAction).1 == Effect::Run(s.focused_action),
{
}

} // verus!
