//! Logic of a small power-menu overlay: a cyclic focus over three actions
//! (shut down, reboot, sleep), the messages that move or confirm that focus,
//! the key presses that produce those messages, the commands each action
//! runs, and the layer-shell placement of the panel.

pub mod action;
pub mod commands;
pub mod keys;
pub mod layout;
pub mod message;
pub mod state;
