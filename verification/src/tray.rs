//! The indicator in the system tray: how it shows a snapshot, what its menu
//! holds, and what a click on it means.

use crate::health::{labels_are_distinct, overall_of, statuses, HealthState, Overall};
use crate::text::same_text;
use vstd::prelude::*;
use vstd::string::*;

verus! {

/// The three looks of the indicator.
#[derive(Clone, Copy, Debug, PartialEq, Eq, Structural)]
pub enum TrayIcon {
    Green,
    Yellow,
    Red,
}

/// The look for a published overall word: green for "healthy", yellow for
/// "degraded", red for anything else.
pub open spec fn icon_for(overall: Seq<char>) -> TrayIcon {
    if overall == "healthy"@ {
        TrayIcon::Green
    } else if overall == "degraded"@ {
        TrayIcon::Yellow
    } else {
        TrayIcon::Red
    }
}

/// The look for an overall status.
pub open spec fn icon_of_status(overall: Overall) -> TrayIcon {
    match overall {
        Overall::Healthy => TrayIcon::Green,
        Overall::Degraded => TrayIcon::Yellow,
        Overall::Down => TrayIcon::Red,
    }
}

/// The hover text for a published overall word.
pub open spec fn tooltip_text(overall: Seq<char>) -> Seq<char> {
    "Tulsbot \u{2014} "@ + overall
}

/// Picks the indicator's look for a published overall word.
pub fn indicator_icon(overall: &str) -> (icon: TrayIcon)
    ensures
        icon == icon_for(overall@),
{
    if same_text(overall, "healthy") {
        TrayIcon::Green
    } else if same_text(overall, "degraded") {
        TrayIcon::Yellow
    } else {
        TrayIcon::Red
    }
}

/// Writes the indicator's hover text for a published overall word.
pub fn indicator_tooltip(overall: &str) -> (text: String)
    ensures
        text@ == tooltip_text(overall@),
{
    String::from_str("Tulsbot \u{2014} ").concat(overall)
}

/// Each status has a look of its own, and the look picked for a status's
/// word is the look of that status.
pub proof fn icon_follows_status(overall: Overall)
    ensures
        icon_for(overall.label()) == icon_of_status(overall),
{
    labels_are_distinct(overall, Overall::Healthy);
    labels_are_distinct(overall, Overall::Degraded);
}

/// What one publication of a snapshot consists of.
#[derive(Debug)]
pub struct Publication {
    /// The look that the indicator takes.
    pub icon: TrayIcon,
    /// The hover text that the indicator takes.
    pub tooltip: String,
    /// The name of the event that is sent to every open window.
    pub event: &'static str,
    /// The snapshot that the event carries.
    pub payload: HealthState,
}

/// Plans the publication of a snapshot: the indicator's look and hover text
/// follow the snapshot's overall status, and the snapshot goes out whole
/// under the event name "health-update". Carrying it out is best effort.
pub fn publish(snapshot: HealthState) -> (publication: Publication)
    ensures
        publication.icon == icon_of_status(overall_of(statuses(snapshot@.services))),
        publication.icon == icon_for(snapshot@.overall),
        publication.tooltip@ == tooltip_text(snapshot@.overall),
        publication.event@ == "health-update"@,
        publication.payload@ == snapshot@,
{
    let icon = indicator_icon(snapshot.overall());
    let tooltip = indicator_tooltip(snapshot.overall());
    proof {
        icon_follows_status(overall_of(statuses(snapshot@.services)));
    }
    Publication { icon, tooltip, event: "health-update", payload: snapshot }
}

/// What choosing an entry of the indicator's menu asks for.
#[derive(Clone, Copy, Debug, PartialEq, Eq, Structural)]
pub enum MenuCommand {
    /// Show the main window and give it the input focus.
    OpenDashboard,
    /// End the process with exit code 0.
    Quit,
    /// Nothing: the entry has no meaning.
    Ignore,
}

/// The command behind a menu entry's identifier.
pub open spec fn command_of(id: Seq<char>) -> MenuCommand {
    if id == "open"@ {
        MenuCommand::OpenDashboard
    } else if id == "quit"@ {
        MenuCommand::Quit
    } else {
        MenuCommand::Ignore
    }
}

/// Finds the command behind a menu entry's identifier.
pub fn menu_command(id: &str) -> (command: MenuCommand)
    ensures
        command == command_of(id@),
{
    if same_text(id, "open") {
        MenuCommand::OpenDashboard
    } else if same_text(id, "quit") {
        MenuCommand::Quit
    } else {
        MenuCommand::Ignore
    }
}

/// One entry of the indicator's menu.
#[derive(Clone, Copy, Debug)]
pub struct MenuEntry {
    pub id: &'static str,
    pub label: &'static str,
    pub enabled: bool,
}

/// The indicator's menu, top to bottom: open the dashboard, a separator that
/// cannot be chosen, quit.
pub fn menu_entries() -> (entries: Vec<MenuEntry>)
    ensures
        entries@.len() == 3,
        entries@[0].id@ == "open"@,
        entries@[0].label@ == "Open Dashboard"@,
        entries@[0].enabled,
        entries@[1].id@ == "sep"@,
        entries@[1].label@
            == "\u{2500}\u{2500}\u{2500}\u{2500}\u{2500}\u{2500}\u{2500}\u{2500}\u{2500}\u{2500}\u{2500}\u{2500}"@,
        !entries@[1].enabled,
        entries@[2].id@ == "quit"@,
        entries@[2].label@ == "Quit"@,
        entries@[2].enabled,
{
    let mut entries: Vec<MenuEntry> = Vec::new();
    entries.push(MenuEntry { id: "open", label: "Open Dashboard", enabled: true });
    entries.push(
        MenuEntry {
            id: "sep",
            label: "\u{2500}\u{2500}\u{2500}\u{2500}\u{2500}\u{2500}\u{2500}\u{2500}\u{2500}\u{2500}\u{2500}\u{2500}",
            enabled: false,
        },
    );
    entries.push(MenuEntry { id: "quit", label: "Quit", enabled: true });
    entries
}

/// A mouse button.
#[derive(Clone, Copy, Debug, PartialEq, Eq, Structural)]
pub enum MouseButton {
    Left,
    Right,
    Middle,
}

/// Whether a button went down or came up.
#[derive(Clone, Copy, Debug, PartialEq, Eq, Structural)]
pub enum ButtonState {
    Up,
    Down,
}

/// Whether a click on the indicator toggles the popover: only the release
/// of the left button does.
pub fn click_toggles_popover(button: MouseButton, state: ButtonState) -> (toggles: bool)
    ensures
        toggles == (button == MouseButton::Left && state == ButtonState::Up),
{
    match (button, state) {
        (MouseButton::Left, ButtonState::Up) => true,
        _ => false,
    }
}

} // verus!
