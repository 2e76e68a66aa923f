use vstd::prelude::*;

use crate::action::Action;
use crate::message::FocusDirection;
use crate::message::Message;

verus! {

/// The named keys the overlay distinguishes. Every other named key is
/// `OtherNamed` and is ignored.
#[derive(Debug, Copy, Clone, PartialEq, Eq, Structural)]
pub enum NamedKey {
    Escape,
    Enter,
    Tab,
    OtherNamed,
}

/// The physical key codes the overlay distinguishes. Every other code is
/// `OtherCode` and is ignored.
#[derive(Debug, Copy, Clone, PartialEq, Eq, Structural)]
pub enum KeyCode {
    Digit1,
    Digit2,
    Digit3,
    OtherCode,
}

/// One key press, as the overlay sees it. A press of a named key carries
/// whether shift, and shift alone, was held; any other press is reduced to
/// its physical code.
#[derive(Debug, Copy, Clone, PartialEq, Eq, Structural)]
pub enum KeyPress {
    Named { key: NamedKey, shift_only: bool },
    Code { code: KeyCode },
}

/// The message a key press produces, if any: escape exits, enter confirms
/// the focused action, tab moves the focus right (left with shift alone),
/// and the digits one to three pick an action directly.
pub open spec fn spec_message_for_key(press: KeyPress) -> Option<Message> {
    match press {
        KeyPress::Named { key, shift_only } => match key {
            NamedKey::Escape => Some(Message::Exit),
            NamedKey::Enter => Some(Message::CurrentAction),
            NamedKey::Tab => if shift_only {
                Some(Message::MoveFocus(FocusDirection::Left))
            } else {
                Some(Message::MoveFocus(FocusDirection::Right))
            },
            NamedKey::OtherNamed => None,
        },
        KeyPress::Code { code } => match code {
            KeyCode::Digit1 => Some(Message::Action(Action::ShutDown)),
            KeyCode::Digit2 => Some(Message::Action(Action::Reboot)),
            KeyCode::Digit3 => Some(Message::Action(Action::Sleep)),
            KeyCode::OtherCode => None,
        },
    }
}

/// Turn one key press into the message it stands for, or nothing.
pub fn message_for_key(press: KeyPress) -> (r: Option<Message>)
    ensures
        r == spec_message_for_key(press),
{
    match press {
        KeyPress::Named { key, shift_only } => match key {
            NamedKey::Escape => Some(Message::Exit),
            NamedKey::Enter => Some(Message::CurrentAction),
            NamedKey::Tab => if shift_only {
                Some(Message::MoveFocus(FocusDirection::Left))
            } else {
                Some(Message::MoveFocus(FocusDirection::Right))
            },
            NamedKey::OtherNamed => None,
        },
        KeyPress::Code { code } => match code {
            KeyCode::Digit1 => Some(Message::Action(Action::ShutDown)),
            KeyCode::Digit2 => Some(Message::Action(Action::Reboot)),
            KeyCode::Digit3 => Some(Message::Action(Action::Sleep)),
            KeyCode::OtherCode => None,
        },
    }
}

/// Every action can be picked by some single key press: the digit keys
/// cover the whole menu.
pub proof fn lemma_every_action_has_a_key(a: Action)
    ensures
        exists|p: KeyPress| spec_message_for_key(p) == Some(Message::Action(a)),
{
    let p = match a {
        Action::ShutDown => KeyPress::Code { code: KeyCode::Digit1 },
        Action::Reboot => KeyPress::Code { code: KeyCode::Digit2 },
        Action::Sleep => KeyPress::Code { code: KeyCode::Digit3 },
    };
    assert(spec_message_for_key(p) == Some(Message::Action(a)));
}

} // verus!
