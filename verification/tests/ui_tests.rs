use streamchat::transcript::Fragment;
use streamchat::transcript::Role;
use streamchat::ui::Directive;
use streamchat::ui::Key;
use streamchat::ui::LoopState;
use streamchat::ui::Session;
use streamchat::ui::UiAction;
use streamchat::ui::action_for;
use streamchat::ui::visible_window;
use streamchat::ui::SCROLL_STEP;

fn type_text(s: &mut Session, text: &str) {
    for c in text.chars() {
        match s.handle_key(Key::Char(c)) {
            Directive::Stay => {}
            _ => panic!("typing a character must not launch or quit"),
        }
    }
}

#[test]
fn every_key_maps_to_exactly_one_action() {
    assert_eq!(action_for(Key::Char('x')), UiAction::InsertChar('x'));
    assert_eq!(action_for(Key::Backspace), UiAction::DeleteChar);
    assert_eq!(action_for(Key::Enter), UiAction::Submit);
    assert_eq!(action_for(Key::PageUp), UiAction::ScrollUp);
    assert_eq!(action_for(Key::PageDown), UiAction::ScrollDown);
    assert_eq!(action_for(Key::Esc), UiAction::Quit);
    assert_eq!(action_for(Key::Other), UiAction::Ignore);
}

#[test]
fn typing_and_backspace_edit_the_input_buffer() {
    let mut s = Session::new();
    type_text(&mut s, "hey");
    assert_eq!(s.input, "hey");
    s.handle_key(Key::Backspace);
    assert_eq!(s.input, "he");
    s.handle_key(Key::Backspace);
    s.handle_key(Key::Backspace);
    assert_eq!(s.input, "");
    // Backspace on an empty buffer is a no-op, not a failure.
    s.handle_key(Key::Backspace);
    assert_eq!(s.input, "");
}

#[test]
fn submit_appends_turn_and_launches_excluding_placeholder() {
    let mut s = Session::new();
    type_text(&mut s, "hi");
    match s.handle_key(Key::Enter) {
        Directive::Launch(snapshot, turn) => {
            // The snapshot is the request context: everything said so far,
            // excluding the placeholder appended for the reply.
            assert_eq!(snapshot.messages.len(), 1);
            assert_eq!(snapshot.messages[0].role, Role::User);
            assert_eq!(snapshot.messages[0].content, "hi");
            assert_eq!(turn, 1);
        }
        _ => panic!("a non-empty submit must launch a streaming client"),
    }
    assert_eq!(s.transcript.messages.len(), 2);
    assert_eq!(s.transcript.messages[0].role, Role::User);
    assert_eq!(s.transcript.messages[0].content, "hi");
    assert_eq!(s.transcript.messages[1].role, Role::Assistant);
    assert_eq!(s.transcript.messages[1].content, "");
    assert_eq!(s.input, "");
}

#[test]
fn submitting_empty_input_is_a_no_op() {
    let mut s = Session::new();
    match s.handle_key(Key::Enter) {
        Directive::Stay => {}
        _ => panic!("an empty submit must not launch or quit"),
    }
    assert_eq!(s.transcript.messages.len(), 0);
    assert_eq!(s.input, "");
    assert!(matches!(s.state, LoopState::Running));
}

#[test]
fn scroll_is_clamped_at_zero_and_steps_down() {
    let mut s = Session::new();
    s.handle_key(Key::PageUp);
    assert_eq!(s.scroll_offset, 0);
    s.handle_key(Key::PageDown);
    assert_eq!(s.scroll_offset, SCROLL_STEP);
    s.handle_key(Key::PageDown);
    assert_eq!(s.scroll_offset, 2 * SCROLL_STEP);
    s.handle_key(Key::PageUp);
    assert_eq!(s.scroll_offset, SCROLL_STEP);
    // An offset below one full step clamps to zero rather than wrapping.
    s.scroll_offset = SCROLL_STEP - 2;
    s.handle_key(Key::PageUp);
    assert_eq!(s.scroll_offset, 0);
}

#[test]
fn window_clips_lines_before_the_offset() {
    let lines: Vec<String> =
        ["a", "b", "c", "d"].iter().map(|s| s.to_string()).collect();
    assert_eq!(visible_window(&lines, 0), lines);
    assert_eq!(visible_window(&lines, 2), vec!["c".to_string(), "d".to_string()]);
}

#[test]
fn window_at_or_past_the_end_is_empty() {
    let lines: Vec<String> = ["a", "b", "c"].iter().map(|s| s.to_string()).collect();
    assert_eq!(visible_window(&lines, 3).len(), 0);
    assert_eq!(visible_window(&lines, 100).len(), 0);
    assert_eq!(visible_window(&lines, usize::MAX).len(), 0);
    let none: Vec<String> = Vec::new();
    assert_eq!(visible_window(&none, 0).len(), 0);
}

#[test]
fn escape_terminates_from_any_point() {
    let mut fresh = Session::new();
    match fresh.handle_key(Key::Esc) {
        Directive::Quit => {}
        _ => panic!("escape must ask the loop to quit"),
    }
    assert!(matches!(fresh.state, LoopState::Terminating));
    assert!(!fresh.should_continue());

    // Escape mid-conversation, with input pending and a turn in progress.
    let mut busy = Session::new();
    type_text(&mut busy, "hi");
    busy.handle_key(Key::Enter);
    type_text(&mut busy, "next");
    match busy.handle_key(Key::Esc) {
        Directive::Quit => {}
        _ => panic!("escape must ask the loop to quit"),
    }
    assert!(matches!(busy.state, LoopState::Terminating));
    assert!(!busy.should_continue());
}

#[test]
fn streamed_reply_scenario() {
    // Submit "hi"; the transcript becomes [user "hi", assistant ""]; the
    // fragments "Hel" and "lo!" arrive; it becomes [user "hi", assistant
    // "Hello!"].
    let mut s = Session::new();
    type_text(&mut s, "hi");
    let turn = match s.handle_key(Key::Enter) {
        Directive::Launch(_, turn) => turn,
        _ => panic!("a non-empty submit must launch a streaming client"),
    };
    assert_eq!(s.transcript.messages[0].content, "hi");
    assert_eq!(s.transcript.messages[1].content, "");
    s.apply_fragment(&Fragment { turn, text: "Hel".to_string() });
    s.apply_fragment(&Fragment { turn, text: "lo!".to_string() });
    assert_eq!(s.transcript.messages.len(), 2);
    assert_eq!(s.transcript.messages[0].role, Role::User);
    assert_eq!(s.transcript.messages[0].content, "hi");
    assert_eq!(s.transcript.messages[1].role, Role::Assistant);
    assert_eq!(s.transcript.messages[1].content, "Hello!");
}

#[test]
fn draining_in_batches_of_any_size_is_equivalent() {
    let fragments = ["Hel", "lo", ", ", "wor", "ld!"];
    let mut sessions: Vec<Session> = Vec::new();
    // Split the same fragment sequence at every possible point into two
    // drained batches; every split must leave the same conversation.
    for split in 0..=fragments.len() {
        let mut s = Session::new();
        type_text(&mut s, "q");
        let turn = match s.handle_key(Key::Enter) {
            Directive::Launch(_, turn) => turn,
            _ => panic!("a non-empty submit must launch a streaming client"),
        };
        let to_fragment = |text: &&str| Fragment { turn, text: text.to_string() };
        let first: Vec<Fragment> = fragments[..split].iter().map(to_fragment).collect();
        let second: Vec<Fragment> = fragments[split..].iter().map(to_fragment).collect();
        s.apply_fragments(&first);
        s.apply_fragments(&second);
        sessions.push(s);
    }
    for s in &sessions {
        assert_eq!(s.transcript.messages[1].content, "Hello, world!");
    }
}

#[test]
fn transport_failure_scenario() {
    // The request fails at once: no fragment ever arrives. The placeholder
    // stays empty indefinitely and the loop stays responsive to new input.
    let mut s = Session::new();
    type_text(&mut s, "hi");
    s.handle_key(Key::Enter);
    assert_eq!(s.transcript.messages[1].content, "");
    type_text(&mut s, "still there?");
    assert_eq!(s.input, "still there?");
    assert_eq!(s.transcript.messages[1].content, "");
    s.handle_key(Key::PageDown);
    assert_eq!(s.scroll_offset, SCROLL_STEP);
    assert!(s.should_continue());
    assert_eq!(s.transcript.messages.len(), 2);
    assert_eq!(s.transcript.messages[1].content, "");
}
