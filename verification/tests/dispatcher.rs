use std::sync::mpsc::channel;

use idle_termquest::dispatch::EventHandler;
use idle_termquest::error::Error;
use idle_termquest::event::{Event, KeyCode, KeyInfo};

fn key(c: char) -> Event {
    Event::Key(KeyInfo { code: KeyCode::Char(c), ctrl: false })
}

#[test]
fn coalescing_keeps_only_the_most_recent_event() {
    let (tx, rx) = channel();
    let handler = EventHandler::new(rx);
    tx.send(key('a')).unwrap();
    tx.send(key('b')).unwrap();
    tx.send(key('c')).unwrap();
    let (r, _) = handler.poll(20);
    assert_eq!(r, Ok(key('c')));
}

#[test]
fn tick_fallback_when_nothing_is_enqueued() {
    let (tx, rx) = channel::<Event>();
    let handler = EventHandler::new(rx);
    let (r, _) = handler.poll(10);
    assert_eq!(r, Ok(Event::Tick));
    drop(tx);
}

#[test]
fn disconnection_surfaces_as_error() {
    let (tx, rx) = channel::<Event>();
    drop(tx);
    let handler = EventHandler::new(rx);
    let (r, _) = handler.poll(20);
    assert_eq!(r, Err(Error::SourceDisconnected));
}

#[test]
fn disconnection_wins_over_a_remembered_event() {
    let (tx, rx) = channel();
    tx.send(key('x')).unwrap();
    drop(tx);
    let handler = EventHandler::new(rx);
    let (r, _) = handler.poll(20);
    assert_eq!(r, Err(Error::SourceDisconnected));
}

#[test]
fn event_key_accessor() {
    let info = KeyInfo { code: KeyCode::Enter, ctrl: false };
    assert_eq!(Event::Key(info).key(), Some(info));
    assert_eq!(Event::Tick.key(), None);
    assert_eq!(Event::Resize(80, 24).key(), None);
}
