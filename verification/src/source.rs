//! Decisions of the event source: how long its input poll may wait before
//! the next tick is due, and which inputs are forwarded onto the channel.
//!
//! The source itself runs as a background worker for the lifetime of the
//! process; the worker's loop performs the OS calls and defers every
//! decision to the functions here.

use vstd::prelude::*;

use crate::event::{Event, KeyInfo, MouseInfo};

verus! {

/// How a key event was produced.
#[derive(Clone, Copy, Debug, PartialEq, Eq, Structural)]
pub enum KeyKind {
    Press,
    Repeat,
    Release,
}

/// A terminal input as the OS layer reports it, before filtering.
#[derive(Clone, Copy, Debug, PartialEq, Eq, Structural)]
pub enum RawInput {
    Key(KeyInfo, KeyKind),
    Mouse(MouseInfo),
    Resize(u16, u16),
    Other,
}

/// The timeout of the source's input poll: the time left until the next
/// tick is due, floored at zero so the wait is never negative.
pub fn remaining_timeout(tick_interval_ms: u64, elapsed_ms: u64) -> (r: u64)
    ensures
        r == if elapsed_ms >= tick_interval_ms {
            0u64
        } else {
            (tick_interval_ms - elapsed_ms) as u64
        },
{
    if elapsed_ms >= tick_interval_ms {
        0
    } else {
        tick_interval_ms - elapsed_ms
    }
}

/// What the source enqueues for one input: key presses, mouse events and
/// resizes are forwarded; key repeats and releases are filtered out at
/// the source.
pub fn forward_input(input: &RawInput) -> (r: Option<Event>)
    ensures
        r == (match *input {
            RawInput::Key(k, kind) => if kind is Press {
                Some(Event::Key(k))
            } else {
                None::<Event>
            },
            RawInput::Mouse(m) => Some(Event::Mouse(m)),
            RawInput::Resize(w, h) => Some(Event::Resize(w, h)),
            RawInput::Other => None::<Event>,
        }),
{
    match *input {
        RawInput::Key(k, kind) => match kind {
            KeyKind::Press => Some(Event::Key(k)),
            _ => None,
        },
        RawInput::Mouse(m) => Some(Event::Mouse(m)),
        RawInput::Resize(w, h) => Some(Event::Resize(w, h)),
        RawInput::Other => None,
    }
}

} // verus!
