//! The popover: a singleton auxiliary window that is created on first use,
//! then only shown and hidden.

use vstd::prelude::*;

verus! {

/// Whether the popover window exists and can be seen.
#[derive(Clone, Copy, Debug, PartialEq, Eq, Structural)]
pub enum PopoverState {
    /// No window has been created yet.
    Absent,
    /// The window exists and is hidden.
    Hidden,
    /// The window exists and is shown.
    Visible,
}

/// A request that reaches the popover.
#[derive(Clone, Copy, Debug, PartialEq, Eq, Structural)]
pub enum PopoverEvent {
    /// The indicator was clicked, or a toggle was asked for.
    Toggle,
    /// A hide was asked for.
    Hide,
    /// The window lost the input focus.
    FocusLost,
}

/// What the window system is asked to do.
#[derive(Clone, Copy, Debug, PartialEq, Eq, Structural)]
pub enum PopoverAction {
    /// Leave the window system alone.
    NoOp,
    /// Create the window, visible from the start.
    Create,
    /// Place the window against the current primary display, show it and
    /// give it the input focus.
    Reveal,
    /// Hide the window.
    Conceal,
}

/// The outcome of one request: the state afterwards and the action to take.
#[derive(Clone, Copy, Debug, PartialEq, Eq, Structural)]
pub struct Transition {
    pub next: PopoverState,
    pub action: PopoverAction,
}

/// The transition table.
///
/// A toggle creates an absent window, reveals a hidden one and conceals a
/// visible one. A hide conceals the window if it exists. A focus loss
/// conceals the window only while it is visible. Nothing leads back to
/// `Absent`.
pub open spec fn transition(state: PopoverState, event: PopoverEvent) -> Transition {
    match event {
        PopoverEvent::Toggle => match state {
            PopoverState::Absent => Transition {
                next: PopoverState::Visible,
                action: PopoverAction::Create,
            },
            PopoverState::Hidden => Transition {
                next: PopoverState::Visible,
                action: PopoverAction::Reveal,
            },
            PopoverState::Visible => Transition {
                next: PopoverState::Hidden,
                action: PopoverAction::Conceal,
            },
        },
        PopoverEvent::Hide => match state {
            PopoverState::Absent => Transition {
                next: PopoverState::Absent,
                action: PopoverAction::NoOp,
            },
            _ => Transition { next: PopoverState::Hidden, action: PopoverAction::Conceal },
        },
        PopoverEvent::FocusLost => match state {
            PopoverState::Visible => Transition {
                next: PopoverState::Hidden,
                action: PopoverAction::Conceal,
            },
            _ => Transition { next: state, action: PopoverAction::NoOp },
        },
    }
}

/// The state that a window lookup shows: `exists` says whether a window is
/// registered under the popover's key, `visible` what the window answered
/// when asked whether it is shown (`None` if the question failed).
pub open spec fn observed(exists: bool, visible: Option<bool>) -> PopoverState {
    if !exists {
        PopoverState::Absent
    } else if visible == Some(true) {
        PopoverState::Visible
    } else {
        PopoverState::Hidden
    }
}

/// Reads the popover's state off a window lookup. A window that cannot say
/// whether it is shown counts as hidden.
pub fn observe(exists: bool, visible: Option<bool>) -> (state: PopoverState)
    ensures
        state == observed(exists, visible),
{
    if !exists {
        PopoverState::Absent
    } else {
        match visible {
            Some(true) => PopoverState::Visible,
            _ => PopoverState::Hidden,
        }
    }
}

/// Handles a toggle request.
pub fn toggle_popover(state: PopoverState) -> (t: Transition)
    ensures
        t == transition(state, PopoverEvent::Toggle),
{
    match state {
        PopoverState::Absent => Transition {
            next: PopoverState::Visible,
            action: PopoverAction::Create,
        },
        PopoverState::Hidden => Transition {
            next: PopoverState::Visible,
            action: PopoverAction::Reveal,
        },
        PopoverState::Visible => Transition {
            next: PopoverState::Hidden,
            action: PopoverAction::Conceal,
        },
    }
}

/// Handles a hide request. Hiding an absent or hidden window is no error.
pub fn hide_popover(state: PopoverState) -> (t: Transition)
    ensures
        t == transition(state, PopoverEvent::Hide),
{
    match state {
        PopoverState::Absent => Transition {
            next: PopoverState::Absent,
            action: PopoverAction::NoOp,
        },
        _ => Transition { next: PopoverState::Hidden, action: PopoverAction::Conceal },
    }
}

/// Handles the loss of input focus.
pub fn focus_lost(state: PopoverState) -> (t: Transition)
    ensures
        t == transition(state, PopoverEvent::FocusLost),
{
    match state {
        PopoverState::Visible => Transition {
            next: PopoverState::Hidden,
            action: PopoverAction::Conceal,
        },
        _ => Transition { next: state, action: PopoverAction::NoOp },
    }
}

/// Handles any request.
pub fn step(state: PopoverState, event: PopoverEvent) -> (t: Transition)
    ensures
        t == transition(state, event),
{
    match event {
        PopoverEvent::Toggle => toggle_popover(state),
        PopoverEvent::Hide => hide_popover(state),
        PopoverEvent::FocusLost => focus_lost(state),
    }
}

/// One call into the window system.
#[derive(Clone, Copy, Debug, PartialEq, Eq, Structural)]
pub enum WindowOp {
    /// Create the window as `popover_window` describes it.
    Build,
    /// Move the window to where `popover_position` puts it on the current
    /// primary display.
    Place,
    /// Make the window visible.
    Show,
    /// Give the window the input focus.
    Focus,
    /// Make the window invisible.
    Hide,
}

/// One step of an action: a call, and whether its failure is reported to
/// whoever asked. A failure that is not reported is passed over and the next
/// step is taken; a reported one ends the action.
#[derive(Clone, Copy, Debug, PartialEq, Eq, Structural)]
pub struct WindowStep {
    pub op: WindowOp,
    pub reported: bool,
}

/// The calls that make up an action, in order. Placing the window is best
/// effort; every other call reports its failure.
pub open spec fn steps_of(action: PopoverAction) -> Seq<WindowStep> {
    match action {
        PopoverAction::NoOp => seq![],
        PopoverAction::Create => seq![WindowStep { op: WindowOp::Build, reported: true }],
        PopoverAction::Reveal => seq![
            WindowStep { op: WindowOp::Place, reported: false },
            WindowStep { op: WindowOp::Show, reported: true },
            WindowStep { op: WindowOp::Focus, reported: true },
        ],
        PopoverAction::Conceal => seq![WindowStep { op: WindowOp::Hide, reported: true }],
    }
}

/// Lists the calls that make up an action, in order.
pub fn steps(action: PopoverAction) -> (plan: Vec<WindowStep>)
    ensures
        plan@ == steps_of(action),
{
    let mut plan: Vec<WindowStep> = Vec::new();
    match action {
        PopoverAction::NoOp => {},
        PopoverAction::Create => {
            plan.push(WindowStep { op: WindowOp::Build, reported: true });
        },
        PopoverAction::Reveal => {
            plan.push(WindowStep { op: WindowOp::Place, reported: false });
            plan.push(WindowStep { op: WindowOp::Show, reported: true });
            plan.push(WindowStep { op: WindowOp::Focus, reported: true });
        },
        PopoverAction::Conceal => {
            plan.push(WindowStep { op: WindowOp::Hide, reported: true });
        },
    }
    assert(plan@ =~= steps_of(action));
    plan
}

/// The state after a sequence of requests, handled in order.
pub open spec fn state_after(start: PopoverState, events: Seq<PopoverEvent>) -> PopoverState
    decreases events.len(),
{
    if events.len() == 0 {
        start
    } else {
        transition(state_after(start, events.drop_last()), events.last()).next
    }
}

/// How many windows a sequence of requests, handled in order, creates.
pub open spec fn windows_created(start: PopoverState, events: Seq<PopoverEvent>) -> nat
    decreases events.len(),
{
    if events.len() == 0 {
        0
    } else {
        let before = state_after(start, events.drop_last());
        let earlier = windows_created(start, events.drop_last());
        if transition(before, events.last()).action == PopoverAction::Create {
            earlier + 1
        } else {
            earlier
        }
    }
}

/// Handles a sequence of requests in order and returns the final state.
pub fn replay(start: PopoverState, events: &Vec<PopoverEvent>) -> (end: PopoverState)
    ensures
        end == state_after(start, events@),
{
    let mut state = start;
    let mut i: usize = 0;
    while i < events.len()
        invariant
            i <= events.len(),
            state == state_after(start, events@.take(i as int)),
        decreases events.len() - i,
    {
        proof {
            assert(events@.take(i + 1).drop_last() =~= events@.take(i as int));
        }
        state = step(state, events[i]).next;
        i += 1;
    }
    proof {
        assert(events@.take(i as int) =~= events@);
    }
    state
}

/// The popover is a singleton: whatever requests arrive, in whatever order,
/// at most one window is ever created; none is created once a window
/// exists; and a window that exists never becomes absent again.
pub proof fn popover_stays_singleton(start: PopoverState, events: Seq<PopoverEvent>)
    ensures
        windows_created(start, events) <= 1,
        start != PopoverState::Absent ==> windows_created(start, events) == 0,
        start != PopoverState::Absent ==> state_after(start, events) != PopoverState::Absent,
        windows_created(start, events) == 1 ==> state_after(start, events)
            != PopoverState::Absent,
        state_after(start, events) == PopoverState::Absent ==> windows_created(start, events)
            == 0,
    decreases events.len(),
{
    if events.len() > 0 {
        popover_stays_singleton(start, events.drop_last());
    }
}

/// A toggle that finds no window creates the only one there will ever be:
/// whatever requests follow it, and however fast, exactly one window has
/// been created and it still exists.
pub proof fn first_toggle_creates_the_only_window(later: Seq<PopoverEvent>)
    ensures
        windows_created(PopoverState::Absent, seq![PopoverEvent::Toggle] + later) == 1,
        state_after(PopoverState::Absent, seq![PopoverEvent::Toggle] + later)
            != PopoverState::Absent,
    decreases later.len(),
{
    let first = seq![PopoverEvent::Toggle];
    let all = first + later;
    if later.len() == 0 {
        assert(all =~= first);
        assert(first.drop_last() =~= Seq::<PopoverEvent>::empty());
        assert(state_after(PopoverState::Absent, first.drop_last()) == PopoverState::Absent);
        assert(windows_created(PopoverState::Absent, first.drop_last()) == 0);
    } else {
        assert(all.drop_last() =~= first + later.drop_last());
        assert(all.last() == later.last());
        first_toggle_creates_the_only_window(later.drop_last());
    }
}

/// On a window that exists, toggling is a pure switch: a hidden window
/// becomes visible and then hidden again, a visible one hidden and then
/// visible again, and no window is created on the way.
pub proof fn toggle_switches_existing_window(state: PopoverState)
    requires
        state != PopoverState::Absent,
    ensures
        transition(PopoverState::Hidden, PopoverEvent::Toggle).next == PopoverState::Visible,
        transition(PopoverState::Visible, PopoverEvent::Toggle).next == PopoverState::Hidden,
        transition(transition(state, PopoverEvent::Toggle).next, PopoverEvent::Toggle).next
            == state,
        transition(state, PopoverEvent::Toggle).action != PopoverAction::Create,
{
}

/// Losing the focus hides a visible window and changes nothing else; a
/// second loss of focus changes nothing at all.
pub proof fn focus_loss_is_idempotent(state: PopoverState)
    ensures
        transition(PopoverState::Visible, PopoverEvent::FocusLost).next == PopoverState::Hidden,
        transition(PopoverState::Hidden, PopoverEvent::FocusLost) == (Transition {
            next: PopoverState::Hidden,
            action: PopoverAction::NoOp,
        }),
        transition(transition(state, PopoverEvent::FocusLost).next, PopoverEvent::FocusLost)
            == (Transition {
            next: transition(state, PopoverEvent::FocusLost).next,
            action: PopoverAction::NoOp,
        }),
{
}

/// Hiding never creates or destroys a window: an absent window stays absent
/// and is left alone, an existing one ends hidden; hiding twice ends where
/// hiding once does.
pub proof fn hide_keeps_existence(state: PopoverState)
    ensures
        transition(PopoverState::Absent, PopoverEvent::Hide) == (Transition {
            next: PopoverState::Absent,
            action: PopoverAction::NoOp,
        }),
        state != PopoverState::Absent ==> transition(state, PopoverEvent::Hide).next
            == PopoverState::Hidden,
        transition(transition(state, PopoverEvent::Hide).next, PopoverEvent::Hide).next
            == transition(state, PopoverEvent::Hide).next,
{
}

/// Width of the popover, in logical pixels.
pub const POPOVER_WIDTH: u32 = 380;

/// Height of the popover, in logical pixels.
pub const POPOVER_HEIGHT: u32 = 540;

/// Gap between the popover and the right edge of the display.
pub const POPOVER_MARGIN: u32 = 10;

/// Distance of the popover from the top of the display, below the menu bar.
pub const POPOVER_TOP: u32 = 30;

/// A place on the display, in logical pixels from its top-left corner.
#[derive(Clone, Copy, Debug, PartialEq, Eq, Structural)]
pub struct Position {
    pub x: i64,
    pub y: i64,
}

/// Where the popover goes on a display that is `screen_width` logical pixels
/// wide: its right edge one margin left of the display's right edge, its top
/// below the menu bar. The place is computed anew for every reveal.
pub fn popover_position(screen_width: i32) -> (position: Position)
    ensures
        position.x == screen_width - POPOVER_WIDTH - POPOVER_MARGIN,
        position.y == POPOVER_TOP,
{
    let width: i64 = screen_width as i64;
    Position { x: width - POPOVER_WIDTH as i64 - POPOVER_MARGIN as i64, y: POPOVER_TOP as i64 }
}

/// How the popover window is made.
#[derive(Clone, Copy, Debug)]
pub struct WindowConfig {
    /// The key under which the window is registered and found again.
    pub label: &'static str,
    /// The page that the window shows.
    pub url: &'static str,
    pub title: &'static str,
    pub width: u32,
    pub height: u32,
    pub decorations: bool,
    pub always_on_top: bool,
    pub visible: bool,
    pub skip_taskbar: bool,
}

/// The popover's window: fixed size, no decorations, above other windows,
/// kept out of the taskbar, visible as soon as it is created.
pub fn popover_window() -> (config: WindowConfig)
    ensures
        config.label@ == "chat-popover"@,
        config.url@ == "tulsbot.html"@,
        config.title@ == ""@,
        config.width == POPOVER_WIDTH,
        config.height == POPOVER_HEIGHT,
        !config.decorations,
        config.always_on_top,
        config.visible,
        config.skip_taskbar,
{
    WindowConfig {
        label: "chat-popover",
        url: "tulsbot.html",
        title: "",
        width: POPOVER_WIDTH,
        height: POPOVER_HEIGHT,
        decorations: false,
        always_on_top: true,
        visible: true,
        skip_taskbar: true,
    }
}

} // verus!
