use tulsbot_desktop::health::HealthState;
use tulsbot_desktop::monitor::{
    action_of, first_phase, next_phase, snapshot_from_probes, LoopAction, LoopPhase,
    ENDPOINT_COUNT, POLL_INTERVAL_SECS, SETTLE_DELAY_SECS,
};
use tulsbot_desktop::text::{decimal_string, same_text};
use tulsbot_desktop::tray::{
    click_toggles_popover, indicator_icon, indicator_tooltip, menu_command, menu_entries, publish,
    ButtonState, MenuCommand, MouseButton, TrayIcon,
};

#[test]
fn icon_follows_the_overall_word() {
    assert_eq!(indicator_icon("healthy"), TrayIcon::Green);
    assert_eq!(indicator_icon("degraded"), TrayIcon::Yellow);
    assert_eq!(indicator_icon("down"), TrayIcon::Red);
    assert_eq!(indicator_icon("Healthy"), TrayIcon::Red);
    assert_eq!(indicator_icon(""), TrayIcon::Red);
}

#[test]
fn tooltip_embeds_the_overall_word() {
    assert_eq!(indicator_tooltip("healthy"), "Tulsbot \u{2014} healthy");
    assert_eq!(indicator_tooltip("down"), "Tulsbot — down");
}

#[test]
fn publication_follows_the_snapshot() {
    let healthy = publish(snapshot_from_probes(&[true, true, true, true]));
    assert_eq!(healthy.icon, TrayIcon::Green);
    assert_eq!(healthy.tooltip, "Tulsbot — healthy");
    assert_eq!(healthy.event, "health-update");
    assert_eq!(healthy.payload.overall(), "healthy");
    assert_eq!(healthy.payload.services().len(), 4);

    let degraded = publish(snapshot_from_probes(&[false, true, true, true]));
    assert_eq!(degraded.icon, TrayIcon::Yellow);
    assert_eq!(degraded.tooltip, "Tulsbot — degraded");
    assert!(!degraded.payload.services()[0].healthy);
    assert!(degraded.payload.services()[1].healthy);

    let down = publish(HealthState::default());
    assert_eq!(down.icon, TrayIcon::Red);
    assert_eq!(down.tooltip, "Tulsbot — down");
}

#[test]
fn menu_identifiers_map_to_commands() {
    assert_eq!(menu_command("open"), MenuCommand::OpenDashboard);
    assert_eq!(menu_command("quit"), MenuCommand::Quit);
    assert_eq!(menu_command("sep"), MenuCommand::Ignore);
    assert_eq!(menu_command("Open"), MenuCommand::Ignore);
    assert_eq!(menu_command(""), MenuCommand::Ignore);
}

#[test]
fn menu_has_open_separator_quit() {
    let entries = menu_entries();
    assert_eq!(entries.len(), 3);
    assert_eq!((entries[0].id, entries[0].label, entries[0].enabled), ("open", "Open Dashboard", true));
    assert_eq!((entries[1].id, entries[1].label, entries[1].enabled), ("sep", "────────────", false));
    assert_eq!((entries[2].id, entries[2].label, entries[2].enabled), ("quit", "Quit", true));
}

#[test]
fn only_left_release_toggles() {
    assert!(click_toggles_popover(MouseButton::Left, ButtonState::Up));
    assert!(!click_toggles_popover(MouseButton::Left, ButtonState::Down));
    assert!(!click_toggles_popover(MouseButton::Right, ButtonState::Up));
    assert!(!click_toggles_popover(MouseButton::Middle, ButtonState::Up));
    assert!(!click_toggles_popover(MouseButton::Right, ButtonState::Down));
}

#[test]
fn loop_settles_once_then_alternates() {
    assert_eq!((SETTLE_DELAY_SECS, POLL_INTERVAL_SECS, ENDPOINT_COUNT), (3, 5, 4));
    let mut phase = first_phase();
    assert_eq!(phase, LoopPhase::Settling);
    assert_eq!(action_of(phase), LoopAction::Sleep { seconds: 3 });
    for round in 0..10 {
        phase = next_phase(phase, true);
        assert_eq!(action_of(phase), LoopAction::RunRound);
        // a round that failed is followed by the same rest
        phase = next_phase(phase, round % 2 == 0);
        assert_eq!(action_of(phase), LoopAction::Sleep { seconds: 5 });
    }
}

#[test]
fn decimal_matches_the_standard_notation() {
    assert_eq!(decimal_string(0), "0");
    assert_eq!(decimal_string(9), "9");
    assert_eq!(decimal_string(10), "10");
    assert_eq!(decimal_string(404), "404");
    assert_eq!(decimal_string(5432), "5432");
    assert_eq!(decimal_string(65535), "65535");
    for n in 0..=u16::MAX {
        assert_eq!(decimal_string(n), n.to_string());
    }
}

#[test]
fn same_text_compares_characters() {
    assert!(same_text("", ""));
    assert!(same_text("open", "open"));
    assert!(!same_text("open", "Open"));
    assert!(!same_text("open", "opened"));
}
