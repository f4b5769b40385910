use panelmux::input::{
    dispatch, Command, KeyCode, KeyEvent, MODIFIER_ALT, MODIFIER_CONTROL, MODIFIER_NONE,
    MODIFIER_SHIFT,
};
use panelmux::multiplexer::{InputAction, LoopEvent, LoopStep, Multiplexer};
use panelmux::panel::{Panel, PanelType};

fn key(c: char, modifiers: u8) -> KeyEvent {
    KeyEvent { code: KeyCode::Char(c), modifiers }
}

fn ctrl(c: char) -> KeyEvent {
    key(c, MODIFIER_CONTROL)
}

fn enter() -> KeyEvent {
    KeyEvent { code: KeyCode::Enter, modifiers: MODIFIER_NONE }
}

fn lines_of(panel: &Panel) -> Vec<String> {
    (0..panel.line_count()).map(|i| panel.line(i).clone()).collect()
}

fn active_flags(mux: &Multiplexer) -> Vec<bool> {
    (0..mux.panel_count()).map(|i| mux.panel(i).is_active()).collect()
}

#[test]
fn starts_with_one_active_host_panel() {
    let mux = Multiplexer::new(80, 24);
    assert_eq!(mux.panel_count(), 1);
    assert_eq!(mux.active_panel(), 0);
    assert_eq!(mux.next_panel_id(), 1);
    assert_eq!(mux.terminal_size(), (80, 24));
    assert!(!mux.should_quit());
    let panel = mux.panel(0);
    assert_eq!(panel.id(), 0);
    assert_eq!(panel.title(), "Welcome to OpenCode");
    assert!(panel.is_active());
    assert_eq!(panel.panel_type(), PanelType::BinaryProcess);
    assert_eq!(
        lines_of(panel),
        vec![
            "Press Enter to start OpenCode, Ctrl+C to switch panels".to_string(),
            "When binary is running, it will take full terminal control".to_string(),
        ]
    );
}

#[test]
fn key_chords_map_to_commands() {
    assert_eq!(dispatch(ctrl('q')), Command::Quit);
    assert_eq!(dispatch(ctrl('c')), Command::SwitchPanel);
    assert_eq!(dispatch(ctrl('n')), Command::NewPanel);
    assert_eq!(dispatch(enter()), Command::Submit);
    assert_eq!(
        dispatch(KeyEvent { code: KeyCode::Enter, modifiers: MODIFIER_CONTROL }),
        Command::Submit
    );
    assert_eq!(dispatch(key('q', MODIFIER_NONE)), Command::Insert('q'));
    assert_eq!(dispatch(key('Q', MODIFIER_SHIFT)), Command::Insert('Q'));
    assert_eq!(dispatch(key('q', MODIFIER_CONTROL | MODIFIER_ALT)), Command::Insert('q'));
    assert_eq!(dispatch(ctrl('x')), Command::Insert('x'));
    assert_eq!(
        dispatch(KeyEvent { code: KeyCode::Other, modifiers: MODIFIER_CONTROL }),
        Command::Ignore
    );
}

#[test]
fn new_note_panel_gets_the_next_id_and_two_lines() {
    let mut mux = Multiplexer::new(80, 24);
    assert_eq!(mux.handle_input(ctrl('n')), InputAction::Nothing);
    assert_eq!(mux.panel_count(), 2);
    assert_eq!(mux.next_panel_id(), 2);
    assert_eq!(mux.active_panel(), 0);
    let panel = mux.panel(1);
    assert_eq!(panel.id(), 1);
    assert_eq!(panel.title(), "Panel 1");
    assert!(!panel.is_active());
    assert_eq!(panel.panel_type(), PanelType::Manual);
    assert_eq!(
        lines_of(panel),
        vec![
            "Manual panel created. Type commands or notes here.".to_string(),
            "Use Ctrl+C to switch panels, Ctrl+N for new panel, Ctrl+Q to quit.".to_string(),
        ]
    );
}

#[test]
fn panel_ids_are_unique_and_count_up() {
    let mut mux = Multiplexer::new(80, 24);
    for _ in 0..12 {
        mux.handle_input(ctrl('n'));
    }
    assert_eq!(mux.panel_count(), 13);
    for i in 0..13 {
        assert_eq!(mux.panel(i).id(), i);
    }
    assert_eq!(mux.panel(10).title(), "Panel 10");
    assert_eq!(mux.panel(12).title(), "Panel 12");
    assert_eq!(mux.next_panel_id(), 13);
}

#[test]
fn create_manual_panel_keeps_the_title() {
    let mut mux = Multiplexer::new(80, 24);
    mux.create_manual_panel("scratch".to_string());
    assert_eq!(mux.panel(1).title(), "scratch");
    assert_eq!(mux.active_panel(), 0);
}

#[test]
fn create_binary_panel_takes_the_focus() {
    let mut mux = Multiplexer::new(80, 24);
    mux.create_binary_panel();
    assert_eq!(mux.panel_count(), 2);
    assert_eq!(mux.active_panel(), 1);
    assert_eq!(active_flags(&mux), vec![false, true]);
    assert_eq!(mux.panel(1).panel_type(), PanelType::BinaryProcess);
    assert_eq!(mux.panel(1).line_count(), 2);
}

#[test]
fn switching_cycles_in_opening_order() {
    let mut mux = Multiplexer::new(80, 24);
    mux.handle_input(ctrl('n'));
    mux.handle_input(ctrl('n'));
    assert_eq!(active_flags(&mux), vec![true, false, false]);
    mux.switch_to_next_panel();
    assert_eq!(mux.active_panel(), 1);
    assert_eq!(active_flags(&mux), vec![false, true, false]);
    mux.switch_to_next_panel();
    assert_eq!(mux.active_panel(), 2);
    assert_eq!(active_flags(&mux), vec![false, false, true]);
    mux.switch_to_next_panel();
    assert_eq!(mux.active_panel(), 0);
    assert_eq!(active_flags(&mux), vec![true, false, false]);
}

#[test]
fn switching_as_often_as_there_are_panels_returns_the_focus() {
    for count in 1..6usize {
        for start in 0..count {
            let mut mux = Multiplexer::new(80, 24);
            for _ in 1..count {
                mux.handle_input(ctrl('n'));
            }
            for _ in 0..start {
                mux.handle_input(ctrl('c'));
            }
            assert_eq!(mux.active_panel(), start);
            for _ in 0..count {
                mux.handle_input(ctrl('c'));
                let flags = active_flags(&mux);
                assert_eq!(flags.iter().filter(|f| **f).count(), 1);
                assert!(flags[mux.active_panel()]);
            }
            assert_eq!(mux.active_panel(), start);
        }
    }
}

#[test]
fn switching_with_one_panel_keeps_it_active() {
    let mut mux = Multiplexer::new(80, 24);
    mux.switch_to_next_panel();
    assert_eq!(mux.active_panel(), 0);
    assert!(mux.panel(0).is_active());
}

#[test]
fn typing_goes_to_a_note_panel_only() {
    let mut mux = Multiplexer::new(80, 24);
    assert_eq!(mux.handle_input(key('a', MODIFIER_NONE)), InputAction::Nothing);
    assert_eq!(mux.panel(0).line_count(), 2);
    mux.handle_input(ctrl('n'));
    mux.handle_input(ctrl('c'));
    assert_eq!(mux.handle_input(key('a', MODIFIER_NONE)), InputAction::Nothing);
    assert_eq!(mux.panel(1).line_count(), 3);
    assert_eq!(mux.panel(1).line(2), "Input: a");
    assert_eq!(mux.panel(0).line_count(), 2);
}

#[test]
fn enter_on_a_note_panel_is_acknowledged() {
    let mut mux = Multiplexer::new(80, 24);
    mux.handle_input(ctrl('n'));
    mux.handle_input(ctrl('c'));
    assert_eq!(mux.handle_input(enter()), InputAction::Nothing);
    assert_eq!(mux.panel(1).line(2), ">>> Enter pressed");
}

#[test]
fn enter_on_a_host_panel_asks_for_the_launch() {
    let mut mux = Multiplexer::new(80, 24);
    assert_eq!(mux.handle_input(enter()), InputAction::LaunchPayload);
    assert_eq!(mux.panel(0).line_count(), 2);
    assert!(!mux.should_quit());
}

#[test]
fn launch_outcome_is_recorded_in_the_active_panel() {
    let mut mux = Multiplexer::new(80, 24);
    mux.record_launch_outcome(Ok(()));
    assert_eq!(mux.panel(0).line(2), "Go binary executed successfully!");
    mux.record_launch_outcome(Err("Failed to execute Go binary: boom".to_string()));
    assert_eq!(mux.panel(0).line(3), "Error: Failed to execute Go binary: boom");
    assert_eq!(mux.panel_count(), 1);
    assert!(!mux.should_quit());
}

#[test]
fn other_keys_change_nothing() {
    let mut mux = Multiplexer::new(80, 24);
    let action = mux.handle_input(KeyEvent { code: KeyCode::Other, modifiers: MODIFIER_NONE });
    assert_eq!(action, InputAction::Nothing);
    assert_eq!(mux.panel_count(), 1);
    assert_eq!(mux.panel(0).line_count(), 2);
    assert!(!mux.should_quit());
}

#[test]
fn quit_chord_leaves_the_loop_without_another_event() {
    let mut mux = Multiplexer::new(80, 24);
    assert_eq!(mux.next_step(), LoopStep::Poll);
    let action = mux.on_event(LoopEvent::Key(ctrl('q')));
    assert_eq!(action, InputAction::Nothing);
    assert!(mux.should_quit());
    assert_eq!(mux.next_step(), LoopStep::Leave);
}

#[test]
fn quit_latch_stays_set() {
    let mut mux = Multiplexer::new(80, 24);
    mux.handle_input(ctrl('q'));
    mux.on_event(LoopEvent::Key(ctrl('n')));
    mux.on_event(LoopEvent::Resize(10, 10));
    mux.on_event(LoopEvent::Idle);
    assert!(mux.should_quit());
}

#[test]
fn resize_updates_the_size_only() {
    let mut mux = Multiplexer::new(80, 24);
    assert_eq!(mux.on_event(LoopEvent::Resize(120, 40)), InputAction::Nothing);
    assert_eq!(mux.terminal_size(), (120, 40));
    assert_eq!(mux.panel_count(), 1);
    mux.resize(1, 2);
    assert_eq!(mux.terminal_size(), (1, 2));
}

#[test]
fn idle_changes_nothing() {
    let mut mux = Multiplexer::new(80, 24);
    assert_eq!(mux.on_event(LoopEvent::Idle), InputAction::Nothing);
    assert_eq!(mux.panel_count(), 1);
    assert_eq!(mux.terminal_size(), (80, 24));
    assert_eq!(mux.next_step(), LoopStep::Poll);
}

#[test]
fn note_log_is_bounded_through_the_multiplexer() {
    let mut mux = Multiplexer::new(80, 24);
    mux.handle_input(ctrl('n'));
    mux.handle_input(ctrl('c'));
    for _ in 0..1000 {
        mux.handle_input(key('z', MODIFIER_NONE));
    }
    assert_eq!(mux.panel(1).line_count(), 1000);
    assert_eq!(mux.panel(1).line(0), "Input: z");
}
