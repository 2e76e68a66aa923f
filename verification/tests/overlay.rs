use oxishut::action::Action;
use oxishut::commands::commands_for;
use oxishut::keys::{message_for_key, KeyCode, KeyPress, NamedKey};
use oxishut::layout::{installed_svg_path, overlay_settings, svg_path, KeyboardMode, OverlayLayer};
use oxishut::message::{FocusDirection, Message};
use oxishut::state::{Effect, OxiShut};

#[test]
fn next_cycles_right() {
    assert_eq!(Action::ShutDown.next(), Action::Reboot);
    assert_eq!(Action::Reboot.next(), Action::Sleep);
    assert_eq!(Action::Sleep.next(), Action::ShutDown);
}

#[test]
fn previous_cycles_left() {
    assert_eq!(Action::ShutDown.previous(), Action::Sleep);
    assert_eq!(Action::Reboot.previous(), Action::ShutDown);
    assert_eq!(Action::Sleep.previous(), Action::Reboot);
}

#[test]
fn previous_undoes_next() {
    for a in [Action::ShutDown, Action::Reboot, Action::Sleep] {
        assert_eq!(a.next().previous(), a);
        assert_eq!(a.previous().next(), a);
    }
}

#[test]
fn three_steps_return() {
    for a in [Action::ShutDown, Action::Reboot, Action::Sleep] {
        assert_eq!(a.next().next().next(), a);
        assert_ne!(a.next(), a);
        assert_ne!(a.next().next(), a);
    }
}

#[test]
fn default_action_is_shut_down() {
    assert_eq!(Action::default(), Action::ShutDown);
}

#[test]
fn fresh_overlay_focuses_shut_down() {
    assert_eq!(OxiShut::new().focused_action, Action::ShutDown);
}

#[test]
fn moving_focus_continues() {
    let mut s = OxiShut::new();
    let e = s.update(Message::MoveFocus(FocusDirection::Right));
    assert_eq!(e, Effect::Continue);
    assert_eq!(s.focused_action, Action::Reboot);
    let e = s.update(Message::MoveFocus(FocusDirection::Left));
    assert_eq!(e, Effect::Continue);
    assert_eq!(s.focused_action, Action::ShutDown);
    let e = s.update(Message::MoveFocus(FocusDirection::Left));
    assert_eq!(e, Effect::Continue);
    assert_eq!(s.focused_action, Action::Sleep);
}

#[test]
fn confirming_runs_the_focused_action() {
    let mut s = OxiShut::new();
    s.update(Message::MoveFocus(FocusDirection::Right));
    let e = s.update(Message::CurrentAction);
    assert_eq!(e, Effect::Run(Action::Reboot));
    assert_eq!(s.focused_action, Action::Reboot);
}

#[test]
fn direct_action_ignores_focus() {
    let mut s = OxiShut::new();
    let e = s.update(Message::Action(Action::Sleep));
    assert_eq!(e, Effect::Run(Action::Sleep));
    assert_eq!(s.focused_action, Action::ShutDown);
}

#[test]
fn exit_message_exits() {
    let mut s = OxiShut::new();
    let e = s.update(Message::Exit);
    assert_eq!(e, Effect::Exit);
    assert_eq!(s.focused_action, Action::ShutDown);
}

#[test]
fn escape_exits() {
    let press = KeyPress::Named { key: NamedKey::Escape, shift_only: false };
    assert_eq!(message_for_key(press), Some(Message::Exit));
}

#[test]
fn enter_confirms() {
    let press = KeyPress::Named { key: NamedKey::Enter, shift_only: false };
    assert_eq!(message_for_key(press), Some(Message::CurrentAction));
}

#[test]
fn tab_moves_right() {
    let press = KeyPress::Named { key: NamedKey::Tab, shift_only: false };
    assert_eq!(
        message_for_key(press),
        Some(Message::MoveFocus(FocusDirection::Right))
    );
}

#[test]
fn shift_tab_moves_left() {
    let press = KeyPress::Named { key: NamedKey::Tab, shift_only: true };
    assert_eq!(
        message_for_key(press),
        Some(Message::MoveFocus(FocusDirection::Left))
    );
}

#[test]
fn other_named_keys_are_ignored() {
    let press = KeyPress::Named { key: NamedKey::OtherNamed, shift_only: false };
    assert_eq!(message_for_key(press), None);
}

#[test]
fn digits_pick_actions() {
    let digit = |code| message_for_key(KeyPress::Code { code });
    assert_eq!(digit(KeyCode::Digit1), Some(Message::Action(Action::ShutDown)));
    assert_eq!(digit(KeyCode::Digit2), Some(Message::Action(Action::Reboot)));
    assert_eq!(digit(KeyCode::Digit3), Some(Message::Action(Action::Sleep)));
    assert_eq!(digit(KeyCode::OtherCode), None);
}

#[test]
fn shut_down_runs_shutdown_now() {
    let cmds = commands_for(&Action::ShutDown);
    assert_eq!(cmds.len(), 1);
    assert_eq!(cmds[0].program, "shutdown");
    assert_eq!(cmds[0].args, vec!["now".to_string()]);
}

#[test]
fn reboot_runs_reboot() {
    let cmds = commands_for(&Action::Reboot);
    assert_eq!(cmds.len(), 1);
    assert_eq!(cmds[0].program, "reboot");
    assert!(cmds[0].args.is_empty());
}

#[test]
fn sleep_pauses_locks_and_suspends() {
    let cmds = commands_for(&Action::Sleep);
    assert_eq!(cmds.len(), 3);
    assert_eq!(cmds[0].program, "playerctl");
    assert_eq!(cmds[0].args, vec!["-a".to_string(), "pause".to_string()]);
    assert_eq!(cmds[1].program, "hyprlock");
    assert!(cmds[1].args.is_empty());
    assert_eq!(cmds[2].program, "systemctl");
    assert_eq!(cmds[2].args, vec!["suspend".to_string()]);
}

#[test]
fn panel_placement() {
    let s = overlay_settings();
    assert_eq!((s.width, s.height), (800, 400));
    assert_eq!(s.exclusive_zone, 0);
    assert!(s.anchor_left);
    assert!(s.anchor_right);
    assert!(!s.anchor_top);
    assert!(!s.anchor_bottom);
    assert_eq!(
        (s.margin_top, s.margin_right, s.margin_bottom, s.margin_left),
        (100, 100, 100, 100)
    );
    assert_eq!(s.layer, OverlayLayer::Overlay);
    assert_eq!(s.keyboard_mode, KeyboardMode::Exclusive);
}

#[test]
fn source_tree_icon_path() {
    assert_eq!(svg_path("shutdown.svg"), "./assets/shutdown.svg");
    assert_eq!(svg_path(""), "./assets/");
}

#[test]
fn installed_icon_path() {
    assert_eq!(
        installed_svg_path("/usr/bin", "sleep.svg"),
        "/usr/bin/../share/pixmaps/oxishut/sleep.svg"
    );
}
