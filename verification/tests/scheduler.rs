use idle_termquest::error::Error;
use idle_termquest::turn::{Snapshot, Turn};

fn snap(id: u32, spd: i32) -> Snapshot {
    Snapshot { id, spd }
}

#[test]
fn test_usize() {
    let mut u = 1usize;
    u += 1;
    assert_eq!(u, 2);
    u -= 1;
    assert_eq!(u, 1);
    u -= 1;
    assert_eq!(u, 0);
}

#[test]
fn concrete_roster_scenario() {
    let mut t = Turn::new();
    t.set_entities(vec![snap(1, 5), snap(2, 1), snap(3, 9)]);
    assert_eq!(t.get_current_turn(), Some(2));
    assert_eq!(t.round_len(), 3);
    assert_eq!(t.pop(), Some(1));
    assert_eq!(t.pop(), Some(3));
    assert_eq!(t.pop(), Some(2));
}

#[test]
fn round_monotonicity_over_two_rounds() {
    let mut t = Turn::new();
    t.set_entities(vec![snap(10, 40), snap(11, 10), snap(12, 30), snap(13, 20)]);
    // ascending speeds: 11 (10), 13 (20), 12 (30), 10 (40)
    assert_eq!(t.get_current_turn(), Some(11));
    assert_eq!(t.pop(), Some(13));
    assert_eq!(t.pop(), Some(12));
    assert_eq!(t.pop(), Some(10));
    // rollover: the round restarts at the same first actor
    t.update_next_round_order();
    assert_eq!(t.pop(), Some(11));
    // the call after the rollover repeats the first answer
    assert_eq!(t.pop(), Some(13));
}

#[test]
fn rollover_restores_round_length() {
    let mut t = Turn::new();
    t.set_entities(vec![snap(1, 1), snap(2, 2), snap(3, 3)]);
    assert_eq!(t.round_len(), 3);
    t.pop();
    assert_eq!(t.round_len(), 2);
    t.pop();
    assert_eq!(t.round_len(), 1);
    t.pop();
    assert_eq!(t.round_len(), 3);
}

#[test]
fn speed_change_mid_round_keeps_current_order() {
    let mut t = Turn::new();
    t.set_entities(vec![snap(1, 5), snap(2, 1), snap(3, 9)]);
    // round frozen as [2, 1, 3]; make actor 3 the fastest for next round
    t.set_speed(3, 0);
    t.update_next_round_order();
    assert_eq!(t.pop(), Some(1));
    assert_eq!(t.pop(), Some(3));
    // rollover re-reads the roster: 3 now goes first
    assert_eq!(t.pop(), Some(3));
    assert_eq!(t.pop(), Some(2));
}

#[test]
fn equal_speeds_keep_input_order() {
    let mut t = Turn::new();
    t.set_entities(vec![snap(1, 5), snap(2, 5), snap(3, 1)]);
    assert_eq!(t.get_current_turn(), Some(3));
    assert_eq!(t.pop(), Some(1));
    assert_eq!(t.pop(), Some(2));
    assert_eq!(t.pop(), Some(3));
}

#[test]
fn advance_on_empty_scheduler_is_empty_round() {
    let mut t = Turn::new();
    assert_eq!(t.advance(), Err(Error::EmptyRound));
}

#[test]
fn advance_acts_like_pop_when_active() {
    let mut t = Turn::new();
    t.set_entities(vec![snap(7, 2), snap(8, 1)]);
    assert_eq!(t.advance(), Ok(Some(7)));
    assert_eq!(t.advance(), Ok(Some(8)));
}

#[test]
fn cursor_stays_within_the_populations() {
    let mut t = Turn::new();
    t.set_entities(vec![snap(1, 1), snap(2, 2)]);
    // move the cursor towards the end of round order + roster
    let key = |c: char| idle_termquest::Event::Key(idle_termquest::event::KeyInfo {
        code: idle_termquest::event::KeyCode::Char(c),
        ctrl: false,
    });
    t.handle_event(&key('j'));
    t.handle_event(&key('j'));
    t.handle_event(&key('j'));
    // population is 2 + 2: the cursor stops at the last index
    assert_eq!(t.selected_index(), 3);
    t.handle_event(&key('j'));
    assert_eq!(t.selected_index(), 3);
    t.pop();
    // population is now 1 + 2: the cursor is clamped back to 2
    assert_eq!(t.selected_index(), 2);
}
