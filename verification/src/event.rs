//! Event values exchanged between the input source, the dispatcher and the
//! update loop. Events are plain values: they carry no shared state across
//! the channel boundary.

use vstd::prelude::*;

use crate::strutil::string_push;

verus! {

/// A key identity, independent of the terminal backend that produced it.
#[derive(Clone, Copy, Debug, PartialEq, Eq, Structural)]
pub enum KeyCode {
    Char(char),
    Enter,
    Esc,
    Backspace,
    Delete,
    Tab,
    Up,
    Down,
    Left,
    Right,
    Other,
}

/// A key press together with whether the control modifier was held.
#[derive(Clone, Copy, Debug, PartialEq, Eq, Structural)]
pub struct KeyInfo {
    pub code: KeyCode,
    pub ctrl: bool,
}

/// A mouse event reduced to the cell it happened in.
#[derive(Clone, Copy, Debug, PartialEq, Eq, Structural)]
pub struct MouseInfo {
    pub column: u16,
    pub row: u16,
}

/// One event handed to the update loop per dispatch cycle.
#[derive(Clone, Copy, Debug, PartialEq, Eq, Structural)]
pub enum Event {
    /// Synthetic clock event, emitted at a fixed cadence.
    Tick,
    Key(KeyInfo),
    Mouse(MouseInfo),
    Resize(u16, u16),
}

/// The debug-log line naming a key code, newline-terminated.
pub open spec fn key_log_line(code: KeyCode) -> Seq<char> {
    (match code {
        KeyCode::Char(c) => seq!['C', 'h', 'a', 'r', '(', '\''] + seq![c] + seq!['\'', ')'],
        KeyCode::Enter => seq!['E', 'n', 't', 'e', 'r'],
        KeyCode::Esc => seq!['E', 's', 'c'],
        KeyCode::Backspace => seq!['B', 'a', 'c', 'k', 's', 'p', 'a', 'c', 'e'],
        KeyCode::Delete => seq!['D', 'e', 'l', 'e', 't', 'e'],
        KeyCode::Tab => seq!['T', 'a', 'b'],
        KeyCode::Up => seq!['U', 'p'],
        KeyCode::Down => seq!['D', 'o', 'w', 'n'],
        KeyCode::Left => seq!['L', 'e', 'f', 't'],
        KeyCode::Right => seq!['R', 'i', 'g', 'h', 't'],
        KeyCode::Other => seq!['O', 't', 'h', 'e', 'r'],
    }).push('\n')
}

/// Renders the debug-log line for a key code.
pub fn key_code_line(code: &KeyCode) -> (r: String)
    ensures
        r@ == key_log_line(*code),
{
    let mut s = String::new();
    match *code {
        KeyCode::Char(c) => {
            string_push(&mut s, 'C');
            string_push(&mut s, 'h');
            string_push(&mut s, 'a');
            string_push(&mut s, 'r');
            string_push(&mut s, '(');
            string_push(&mut s, '\'');
            string_push(&mut s, c);
            string_push(&mut s, '\'');
            string_push(&mut s, ')');
        },
        KeyCode::Enter => {
            string_push(&mut s, 'E');
            string_push(&mut s, 'n');
            string_push(&mut s, 't');
            string_push(&mut s, 'e');
            string_push(&mut s, 'r');
        },
        KeyCode::Esc => {
            string_push(&mut s, 'E');
            string_push(&mut s, 's');
            string_push(&mut s, 'c');
        },
        KeyCode::Backspace => {
            string_push(&mut s, 'B');
            string_push(&mut s, 'a');
            string_push(&mut s, 'c');
            string_push(&mut s, 'k');
            string_push(&mut s, 's');
            string_push(&mut s, 'p');
            string_push(&mut s, 'a');
            string_push(&mut s, 'c');
            string_push(&mut s, 'e');
        },
        KeyCode::Delete => {
            string_push(&mut s, 'D');
            string_push(&mut s, 'e');
            string_push(&mut s, 'l');
            string_push(&mut s, 'e');
            string_push(&mut s, 't');
            string_push(&mut s, 'e');
        },
        KeyCode::Tab => {
            string_push(&mut s, 'T');
            string_push(&mut s, 'a');
            string_push(&mut s, 'b');
        },
        KeyCode::Up => {
            string_push(&mut s, 'U');
            string_push(&mut s, 'p');
        },
        KeyCode::Down => {
            string_push(&mut s, 'D');
            string_push(&mut s, 'o');
            string_push(&mut s, 'w');
            string_push(&mut s, 'n');
        },
        KeyCode::Left => {
            string_push(&mut s, 'L');
            string_push(&mut s, 'e');
            string_push(&mut s, 'f');
            string_push(&mut s, 't');
        },
        KeyCode::Right => {
            string_push(&mut s, 'R');
            string_push(&mut s, 'i');
            string_push(&mut s, 'g');
            string_push(&mut s, 'h');
            string_push(&mut s, 't');
        },
        KeyCode::Other => {
            string_push(&mut s, 'O');
            string_push(&mut s, 't');
            string_push(&mut s, 'h');
            string_push(&mut s, 'e');
            string_push(&mut s, 'r');
        },
    }
    string_push(&mut s, '\n');
    proof {
        assert(s@ =~= key_log_line(*code));
    }
    s
}

impl Event {
    /// The key carried by a `Key` event, if this is one.
    pub fn key(&self) -> (r: Option<KeyInfo>)
        ensures
            r == (match self {
                Event::Key(k) => Some(*k),
                _ => None::<KeyInfo>,
            }),
    {
        match self {
            Event::Key(k) => Some(*k),
            _ => None,
        }
    }
}

} // verus!
