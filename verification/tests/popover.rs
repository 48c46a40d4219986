use tulsbot_desktop::popover::{
    focus_lost, hide_popover, observe, popover_position, popover_window, replay, step, steps,
    toggle_popover, PopoverAction, PopoverEvent, PopoverState, Position, Transition, WindowOp,
    WindowStep,
};

#[test]
fn double_toggle_from_absent_creates_one_window() {
    let first = toggle_popover(PopoverState::Absent);
    assert_eq!(first, Transition { next: PopoverState::Visible, action: PopoverAction::Create });
    let second = toggle_popover(first.next);
    assert_ne!(second.action, PopoverAction::Create);
    assert_ne!(second.next, PopoverState::Absent);
    assert_eq!(second, Transition { next: PopoverState::Hidden, action: PopoverAction::Conceal });
}

#[test]
fn toggle_from_hidden_shows_then_hides() {
    let first = toggle_popover(PopoverState::Hidden);
    assert_eq!(first, Transition { next: PopoverState::Visible, action: PopoverAction::Reveal });
    let second = toggle_popover(first.next);
    assert_eq!(second, Transition { next: PopoverState::Hidden, action: PopoverAction::Conceal });
}

#[test]
fn focus_loss_hides_a_visible_window() {
    let t = focus_lost(PopoverState::Visible);
    assert_eq!(t, Transition { next: PopoverState::Hidden, action: PopoverAction::Conceal });
}

#[test]
fn focus_loss_on_hidden_window_changes_nothing() {
    let t = focus_lost(PopoverState::Hidden);
    assert_eq!(t, Transition { next: PopoverState::Hidden, action: PopoverAction::NoOp });
    let again = focus_lost(t.next);
    assert_eq!(again, t);
    let absent = focus_lost(PopoverState::Absent);
    assert_eq!(absent, Transition { next: PopoverState::Absent, action: PopoverAction::NoOp });
}

#[test]
fn hide_on_absent_window_is_no_error() {
    let t = hide_popover(PopoverState::Absent);
    assert_eq!(t, Transition { next: PopoverState::Absent, action: PopoverAction::NoOp });
}

#[test]
fn hide_conceals_an_existing_window() {
    let visible = hide_popover(PopoverState::Visible);
    assert_eq!(visible, Transition { next: PopoverState::Hidden, action: PopoverAction::Conceal });
    let hidden = hide_popover(PopoverState::Hidden);
    assert_eq!(hidden, Transition { next: PopoverState::Hidden, action: PopoverAction::Conceal });
}

#[test]
fn step_agrees_with_the_named_operations() {
    for state in [PopoverState::Absent, PopoverState::Hidden, PopoverState::Visible] {
        assert_eq!(step(state, PopoverEvent::Toggle), toggle_popover(state));
        assert_eq!(step(state, PopoverEvent::Hide), hide_popover(state));
        assert_eq!(step(state, PopoverEvent::FocusLost), focus_lost(state));
    }
}

#[test]
fn no_sequence_creates_a_second_window() {
    let events = [PopoverEvent::Toggle, PopoverEvent::Hide, PopoverEvent::FocusLost];
    // every sequence of up to six requests, from every state
    for start in [PopoverState::Absent, PopoverState::Hidden, PopoverState::Visible] {
        for len in 0..=6u32 {
            for code in 0..3u32.pow(len) {
                let mut state = start;
                let mut created = 0;
                let mut rest = code;
                let mut taken = Vec::new();
                for _ in 0..len {
                    let event = events[(rest % 3) as usize];
                    rest /= 3;
                    taken.push(event);
                    let t = step(state, event);
                    if t.action == PopoverAction::Create {
                        created += 1;
                    }
                    if state != PopoverState::Absent {
                        assert_ne!(t.next, PopoverState::Absent);
                    }
                    state = t.next;
                }
                assert!(created <= 1);
                if start != PopoverState::Absent {
                    assert_eq!(created, 0);
                }
                assert_eq!(replay(start, &taken), state);
            }
        }
    }
}

#[test]
fn observed_state_follows_the_lookup() {
    assert_eq!(observe(false, None), PopoverState::Absent);
    assert_eq!(observe(false, Some(true)), PopoverState::Absent);
    assert_eq!(observe(true, Some(true)), PopoverState::Visible);
    assert_eq!(observe(true, Some(false)), PopoverState::Hidden);
    assert_eq!(observe(true, None), PopoverState::Hidden);
}

#[test]
fn popover_sits_near_the_top_right_corner() {
    assert_eq!(popover_position(1920), Position { x: 1530, y: 30 });
    assert_eq!(popover_position(390), Position { x: 0, y: 30 });
    assert_eq!(popover_position(0), Position { x: -390, y: 30 });
    assert_eq!(popover_position(i32::MIN), Position { x: -2147484038, y: 30 });
    assert_eq!(popover_position(i32::MAX), Position { x: 2147483257, y: 30 });
}

#[test]
fn popover_window_is_fixed() {
    let config = popover_window();
    assert_eq!(config.label, "chat-popover");
    assert_eq!(config.url, "tulsbot.html");
    assert_eq!(config.title, "");
    assert_eq!((config.width, config.height), (380, 540));
    assert!(!config.decorations);
    assert!(config.always_on_top);
    assert!(config.visible);
    assert!(config.skip_taskbar);
}

#[test]
fn actions_unfold_into_window_calls() {
    assert_eq!(steps(PopoverAction::NoOp), vec![]);
    assert_eq!(steps(PopoverAction::Create), vec![WindowStep { op: WindowOp::Build, reported: true }]);
    assert_eq!(
        steps(PopoverAction::Reveal),
        vec![
            WindowStep { op: WindowOp::Place, reported: false },
            WindowStep { op: WindowOp::Show, reported: true },
            WindowStep { op: WindowOp::Focus, reported: true },
        ]
    );
    assert_eq!(steps(PopoverAction::Conceal), vec![WindowStep { op: WindowOp::Hide, reported: true }]);
}
