use idle_termquest::entities::{Enemy, Entity, Hero};
use idle_termquest::entity_list::EntityList;
use idle_termquest::event::{Event, KeyCode, KeyInfo};
use idle_termquest::types::{BasicStat, Info, Status};

fn key(code: KeyCode) -> Event {
    Event::Key(KeyInfo { code, ctrl: false })
}

#[test]
fn hero_draws_its_id_as_speed_and_name() {
    let h = Hero::new();
    assert!(h.id <= u8::MAX as u32);
    assert_eq!(h.stat.spd, h.id as i32);
    assert_eq!(h.info.name, format!("{}. Hero", h.id));
    assert_eq!(h.id(), h.id);
}

#[test]
fn enemy_draws_its_id_as_speed_and_name() {
    let e = Enemy::new();
    assert!(e.id() <= u8::MAX as u32);
    assert_eq!(e.stat().spd, e.id() as i32);
    assert_eq!(e.info().name, format!("{}. Enemy", e.id()));
}

#[test]
fn hero_with_id_keeps_the_given_id() {
    let h = Hero::with_id(42);
    assert_eq!(h.id, 42);
    assert_eq!(h.info.name, "42. Hero");
    assert!(h.stat.spd >= 0 && h.stat.spd <= u8::MAX as i32);
    assert_eq!(h.stat.max_hp, 15);
}

#[test]
fn enemy_with_id_keeps_the_given_id() {
    let e = Enemy::with_id(7);
    assert_eq!(e.id(), 7);
    assert_eq!(e.info().name, "7. Enemy");
    assert!(e.stat().spd >= 0 && e.stat().spd <= u8::MAX as i32);
}

#[test]
fn default_stats_are_all_fifteen() {
    let s = BasicStat::default();
    assert_eq!(
        (s.p_att, s.m_att, s.p_def, s.m_def, s.curr_hp, s.max_hp, s.spd),
        (15, 15, 15, 15, 15, 15, 15)
    );
    let i = Info::default();
    assert_eq!(i.name, "Hero");
    assert_eq!(i.description, "");
    let _ = Status::default();
}

#[test]
fn set_turn_marks_only_listed_ids() {
    let mut list: EntityList<Hero> = EntityList::new();
    let h = Hero::new();
    let id = h.id;
    list.push(h);
    list.set_turn(Some(id));
    assert_eq!(list.get_turn(), Some(id));
    list.set_turn(Some(id + 1));
    assert_eq!(list.get_turn(), None);
    list.set_turn(None);
    assert_eq!(list.get_turn(), None);
}

#[test]
fn selection_moves_within_bounds() {
    let mut list: EntityList<Hero> = EntityList::new();
    list.push(Hero::new());
    list.push(Hero::new());
    assert_eq!(list.selected_index(), 0);
    list.handle_event(&key(KeyCode::Up));
    assert_eq!(list.selected_index(), 0);
    list.handle_event(&key(KeyCode::Down));
    assert_eq!(list.selected_index(), 1);
    list.handle_event(&key(KeyCode::Char('j')));
    assert_eq!(list.selected_index(), 1);
    list.handle_event(&key(KeyCode::Char('k')));
    assert_eq!(list.selected_index(), 0);
}
