use vidsearch::input::{InputStateMachine, Intent, Key, Mode};

fn type_chars(machine: &mut InputStateMachine, text: &str) {
    for c in text.chars() {
        assert_eq!(machine.handle_key_event(Key::Char(c), true), Intent::Nothing);
    }
}

#[test]
fn browsing_quit_and_escape_exit() {
    let mut machine = InputStateMachine::new();
    assert!(machine.is_running());
    assert_eq!(machine.handle_key_event(Key::Char('q'), true), Intent::Exit);
    assert_eq!(machine.mode(), Mode::Exiting);
    assert!(!machine.is_running());

    let mut machine = InputStateMachine::new();
    assert_eq!(machine.handle_key_event(Key::Escape, true), Intent::Exit);
    assert!(!machine.is_running());
}

#[test]
fn browsing_navigation_keys() {
    let mut machine = InputStateMachine::new();
    assert_eq!(machine.handle_key_event(Key::Up, true), Intent::SelectPrevious);
    assert_eq!(machine.handle_key_event(Key::Char('k'), true), Intent::SelectPrevious);
    assert_eq!(machine.handle_key_event(Key::Down, true), Intent::SelectNext);
    assert_eq!(machine.handle_key_event(Key::Char('j'), true), Intent::SelectNext);
    assert_eq!(machine.handle_key_event(Key::Enter, true), Intent::PlaySelected);
    assert_eq!(machine.mode(), Mode::Browsing);
}

#[test]
fn key_releases_are_ignored() {
    let mut machine = InputStateMachine::new();
    assert_eq!(machine.handle_key_event(Key::Char('q'), false), Intent::Nothing);
    assert_eq!(machine.mode(), Mode::Browsing);
    assert_eq!(machine.handle_key_event(Key::Char('/'), false), Intent::Nothing);
    assert_eq!(machine.mode(), Mode::Browsing);
}

#[test]
fn editing_appends_and_removes_characters() {
    let mut machine = InputStateMachine::new();
    assert_eq!(machine.handle_key_event(Key::Char('/'), true), Intent::Nothing);
    assert_eq!(machine.mode(), Mode::EditingQuery);

    // while editing, 'q' and 'j' are text, not commands
    type_chars(&mut machine, "qj!");
    assert_eq!(machine.query(), &vec!['q', 'j', '!']);

    assert_eq!(machine.handle_key_event(Key::Backspace, true), Intent::Nothing);
    assert_eq!(machine.query(), &vec!['q', 'j']);

    // backspace on an emptied buffer stays put
    machine.handle_key_event(Key::Backspace, true);
    machine.handle_key_event(Key::Backspace, true);
    assert_eq!(machine.query(), &Vec::new());
    assert_eq!(machine.handle_key_event(Key::Backspace, true), Intent::Nothing);
    assert_eq!(machine.query(), &Vec::new());
}

#[test]
fn escape_keeps_the_buffer() {
    let mut machine = InputStateMachine::new();
    machine.handle_key_event(Key::Char('/'), true);
    type_chars(&mut machine, "rust");
    assert_eq!(machine.handle_key_event(Key::Escape, true), Intent::Nothing);
    assert_eq!(machine.mode(), Mode::Browsing);
    // the buffer persists as its last value
    assert_eq!(machine.query(), &vec!['r', 'u', 's', 't']);
}

#[test]
fn enter_submits_the_buffer() {
    let mut machine = InputStateMachine::new();
    machine.handle_key_event(Key::Char('/'), true);
    type_chars(&mut machine, "cats");
    assert_eq!(machine.handle_key_event(Key::Enter, true), Intent::Submit);
    assert_eq!(machine.mode(), Mode::Browsing);
    assert_eq!(machine.query(), &vec!['c', 'a', 't', 's']);
}

#[test]
fn detail_pane_transitions() {
    let mut machine = InputStateMachine::new();
    assert_eq!(machine.handle_key_event(Key::Tab, true), Intent::Nothing);
    assert_eq!(machine.mode(), Mode::Detail);
    assert_eq!(machine.handle_key_event(Key::Tab, true), Intent::Nothing);
    assert_eq!(machine.mode(), Mode::Browsing);

    machine.handle_key_event(Key::Tab, true);
    assert_eq!(machine.handle_key_event(Key::Char('q'), true), Intent::Exit);
    assert_eq!(machine.mode(), Mode::Exiting);

    let mut machine = InputStateMachine::new();
    machine.handle_key_event(Key::Tab, true);
    assert_eq!(machine.handle_key_event(Key::Escape, true), Intent::Exit);
    assert!(!machine.is_running());
}

#[test]
fn exiting_is_terminal() {
    let mut machine = InputStateMachine::new();
    machine.handle_key_event(Key::Char('q'), true);
    assert_eq!(machine.handle_key_event(Key::Char('/'), true), Intent::Nothing);
    assert_eq!(machine.handle_key_event(Key::Enter, true), Intent::Nothing);
    assert_eq!(machine.mode(), Mode::Exiting);
}
