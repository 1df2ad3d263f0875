//! The key-input state machine: interprets key presses against the UI
//! modes and hands back the intent the surrounding application must carry
//! out. Reading terminal events and performing the intents stay outside;
//! the transition table itself is verified.

use vstd::prelude::*;

verus! {

/// The UI modes. `Exiting` is terminal: shutdown was requested.
#[derive(Clone, Copy, Debug, PartialEq, Eq, Structural)]
pub enum Mode {
    Browsing,
    EditingQuery,
    Detail,
    Exiting,
}

/// The keys the machine reacts to. Anything else arrives as `Other`.
#[derive(Clone, Copy, Debug, PartialEq, Eq, Structural)]
pub enum Key {
    Char(char),
    Up,
    Down,
    Enter,
    Escape,
    Backspace,
    Tab,
    Other,
}

/// What the application must do after a key was handled.
#[derive(Clone, Copy, Debug, PartialEq, Eq, Structural)]
pub enum Intent {
    Nothing,
    /// Stop the in-flight fetch and shut the application down.
    Exit,
    /// Move the result cursor one step backward.
    SelectPrevious,
    /// Move the result cursor one step forward.
    SelectNext,
    /// If the selected item is a video, launch the player on it.
    PlaySelected,
    /// Stop the in-flight fetch and start one for the current query buffer.
    Submit,
}

/// Mathematical model of an [`InputStateMachine`]: the mode and the query
/// buffer.
#[verifier::ext_equal]
pub struct InputModel {
    pub mode: Mode,
    pub buffer: Seq<char>,
}

/// The transition table. Key releases are ignored; only presses act.
pub open spec fn spec_step(m: InputModel, key: Key, pressed: bool) -> (InputModel, Intent) {
    if !pressed {
        (m, Intent::Nothing)
    } else {
        match m.mode {
            Mode::Browsing => spec_step_browsing(m, key),
            Mode::EditingQuery => spec_step_editing(m, key),
            Mode::Detail => spec_step_detail(m, key),
            Mode::Exiting => (m, Intent::Nothing),
        }
    }
}

/// Browsing: `q`/Escape quits, `/` opens the query editor, Up/`k` and
/// Down/`j` move the cursor, Enter plays the selection, Tab opens the
/// detail pane.
pub open spec fn spec_step_browsing(m: InputModel, key: Key) -> (InputModel, Intent) {
    match key {
        Key::Char(c) => if c == 'q' {
            ((InputModel { mode: Mode::Exiting, ..m }), Intent::Exit)
        } else if c == '/' {
            ((InputModel { mode: Mode::EditingQuery, ..m }), Intent::Nothing)
        } else if c == 'k' {
            (m, Intent::SelectPrevious)
        } else if c == 'j' {
            (m, Intent::SelectNext)
        } else {
            (m, Intent::Nothing)
        },
        Key::Escape => ((InputModel { mode: Mode::Exiting, ..m }), Intent::Exit),
        Key::Up => (m, Intent::SelectPrevious),
        Key::Down => (m, Intent::SelectNext),
        Key::Enter => (m, Intent::PlaySelected),
        Key::Tab => ((InputModel { mode: Mode::Detail, ..m }), Intent::Nothing),
        _ => (m, Intent::Nothing),
    }
}

/// Editing the query: printable characters grow the buffer, Backspace
/// shrinks it, Escape returns to browsing keeping the buffer as it stands,
/// Enter returns to browsing and submits the buffer as the new search.
pub open spec fn spec_step_editing(m: InputModel, key: Key) -> (InputModel, Intent) {
    match key {
        Key::Char(c) => (
            (InputModel { mode: m.mode, buffer: m.buffer.push(c) }),
            Intent::Nothing,
        ),
        Key::Backspace => (
            (InputModel {
                mode: m.mode,
                buffer: if m.buffer.len() > 0 {
                    m.buffer.drop_last()
                } else {
                    m.buffer
                },
            }),
            Intent::Nothing,
        ),
        Key::Escape => ((InputModel { mode: Mode::Browsing, ..m }), Intent::Nothing),
        Key::Enter => ((InputModel { mode: Mode::Browsing, ..m }), Intent::Submit),
        _ => (m, Intent::Nothing),
    }
}

/// Detail pane: `q`/Escape quits, Tab returns to browsing.
pub open spec fn spec_step_detail(m: InputModel, key: Key) -> (InputModel, Intent) {
    match key {
        Key::Char(c) => if c == 'q' {
            ((InputModel { mode: Mode::Exiting, ..m }), Intent::Exit)
        } else {
            (m, Intent::Nothing)
        },
        Key::Escape => ((InputModel { mode: Mode::Exiting, ..m }), Intent::Exit),
        Key::Tab => ((InputModel { mode: Mode::Browsing, ..m }), Intent::Nothing),
        _ => (m, Intent::Nothing),
    }
}

/// Interprets key input against the UI modes, keeping the query buffer.
pub struct InputStateMachine {
    mode: Mode,
    buffer: Vec<char>,
}

impl View for InputStateMachine {
    type V = InputModel;

    closed spec fn view(&self) -> InputModel {
        InputModel { mode: self.mode, buffer: self.buffer@ }
    }
}

impl InputStateMachine {
    /// Starts browsing with an empty query buffer.
    pub fn new() -> (r: Self)
        ensures
            r@.mode == Mode::Browsing,
            r@.buffer.len() == 0,
    {
        InputStateMachine { mode: Mode::Browsing, buffer: Vec::new() }
    }

    /// Whether shutdown has not been requested yet.
    pub fn is_running(&self) -> (r: bool)
        ensures
            r == (self@.mode != Mode::Exiting),
    {
        self.mode != Mode::Exiting
    }

    pub fn mode(&self) -> (r: Mode)
        ensures
            r == self@.mode,
    {
        self.mode
    }

    /// The query buffer as it stands.
    pub fn query(&self) -> (r: &Vec<char>)
        ensures
            r@ == self@.buffer,
    {
        &self.buffer
    }

    /// Handles one key event: steps the mode and buffer by the transition
    /// table and returns the intent the caller must carry out. Key
    /// releases change nothing.
    pub fn handle_key_event(&mut self, key: Key, pressed: bool) -> (r: Intent)
        ensures
            (final(self)@, r) == spec_step(old(self)@, key, pressed),
    {
        if !pressed {
            return Intent::Nothing;
        }
        match self.mode {
            Mode::Browsing => match key {
                Key::Char(c) => {
                    if c == 'q' {
                        self.mode = Mode::Exiting;
                        Intent::Exit
                    } else if c == '/' {
                        self.mode = Mode::EditingQuery;
                        Intent::Nothing
                    } else if c == 'k' {
                        Intent::SelectPrevious
                    } else if c == 'j' {
                        Intent::SelectNext
                    } else {
                        Intent::Nothing
                    }
                },
                Key::Escape => {
                    self.mode = Mode::Exiting;
                    Intent::Exit
                },
                Key::Up => Intent::SelectPrevious,
                Key::Down => Intent::SelectNext,
                Key::Enter => Intent::PlaySelected,
                Key::Tab => {
                    self.mode = Mode::Detail;
                    Intent::Nothing
                },
                _ => Intent::Nothing,
            },
            Mode::EditingQuery => match key {
                Key::Char(c) => {
                    self.buffer.push(c);
                    Intent::Nothing
                },
                Key::Backspace => {
                    let _ = self.buffer.pop();
                    Intent::Nothing
                },
                Key::Escape => {
                    self.mode = Mode::Browsing;
                    Intent::Nothing
                },
                Key::Enter => {
                    self.mode = Mode::Browsing;
                    Intent::Submit
                },
                _ => Intent::Nothing,
            },
            Mode::Detail => match key {
                Key::Char(c) => {
                    if c == 'q' {
                        self.mode = Mode::Exiting;
                        Intent::Exit
                    } else {
                        Intent::Nothing
                    }
                },
                Key::Escape => {
                    self.mode = Mode::Exiting;
                    Intent::Exit
                },
                Key::Tab => {
                    self.mode = Mode::Browsing;
                    Intent::Nothing
                },
                _ => Intent::Nothing,
            },
            Mode::Exiting => Intent::Nothing,
        }
    }
}

} // verus!
