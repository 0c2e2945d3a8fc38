use idle_termquest::context::Context;
use idle_termquest::entities::Entity;
use idle_termquest::event::{Event, KeyCode, KeyInfo};
use idle_termquest::states::{InGame, StateType, StateWidget, Welcome};

fn key(code: KeyCode) -> Event {
    Event::Key(KeyInfo { code, ctrl: false })
}

#[test]
fn welcome_enter_continues_into_the_game() {
    let mut w = Welcome::new();
    let mut ctx = Context::new();
    assert_eq!(w.handle_event(key(KeyCode::Enter), &mut ctx), Some(StateType::InGame));
    assert!(!ctx.should_quit());
}

#[test]
fn welcome_q_requests_quit() {
    let mut w = Welcome::new();
    let mut ctx = Context::new();
    assert_eq!(w.handle_event(key(KeyCode::Char('q')), &mut ctx), None);
    assert!(ctx.should_quit());
    assert_eq!(w.get_type(), StateType::Welcome);
}

#[test]
fn init_starts_a_round_over_six_participants() {
    let mut g = InGame::new();
    assert_eq!(g.current_turn(), None);
    g.init(0);
    assert!(g.current_turn().is_some());
    assert_eq!(g.get_type(), StateType::InGame);
}

#[test]
fn update_advances_only_after_the_interval() {
    let mut g = InGame::new();
    let mut ctx = Context::new();
    g.init(0);
    let first = g.current_turn();
    assert_eq!(g.update(&mut ctx, 1999), None);
    assert_eq!(g.current_turn(), first);
    assert!(ctx.get_log().is_empty());
    assert_eq!(g.update(&mut ctx, 2000), None);
    assert!(g.current_turn().is_some());
}

#[test]
fn update_logs_the_new_turn() {
    let mut g = InGame::new();
    let mut ctx = Context::new();
    g.init(0);
    g.update(&mut ctx, 2000);
    let logged = ctx.get_log().back().cloned().unwrap();
    assert_eq!(logged, format!("Current turn: {:?}\n", g.current_turn()));
}

#[test]
fn init_assigns_distinct_sequential_ids() {
    let mut g = InGame::new();
    g.init(0);
    for k in 0..3u32 {
        assert_eq!(g.heroes_list().get(k as usize).id, k);
        assert_eq!(g.enemies_list().get(k as usize).id(), k + 3);
    }
}

#[test]
fn welcome_logs_each_key_code() {
    let mut w = Welcome::new();
    let mut ctx = Context::new();
    w.handle_event(key(KeyCode::Char('q')), &mut ctx);
    w.handle_event(key(KeyCode::Enter), &mut ctx);
    w.handle_event(Event::Tick, &mut ctx);
    let log: Vec<&str> = ctx.get_log().iter().map(|s| s.as_str()).collect();
    assert_eq!(log, vec!["Char('q')\n", "Enter\n"]);
}

#[test]
fn ingame_logs_each_key_code() {
    let mut g = InGame::new();
    let mut ctx = Context::new();
    g.handle_event(key(KeyCode::Up), &mut ctx);
    g.handle_event(key(KeyCode::Char('x')), &mut ctx);
    g.handle_event(Event::Resize(80, 24), &mut ctx);
    let log: Vec<&str> = ctx.get_log().iter().map(|s| s.as_str()).collect();
    assert_eq!(log, vec!["Up\n", "Char('x')\n"]);
}

#[test]
fn navigation_walks_the_widget_layout() {
    let mut g = InGame::new();
    let mut ctx = Context::new();
    assert_eq!(g.selected(), StateWidget::Command);
    g.handle_event(key(KeyCode::Up), &mut ctx);
    assert_eq!(g.selected(), StateWidget::Log);
    g.handle_event(key(KeyCode::Up), &mut ctx);
    assert_eq!(g.selected(), StateWidget::Hero);
    g.handle_event(key(KeyCode::Right), &mut ctx);
    assert_eq!(g.selected(), StateWidget::Turn);
    g.handle_event(key(KeyCode::Right), &mut ctx);
    assert_eq!(g.selected(), StateWidget::Enemy);
    // no widget lies to the right of the enemies
    g.handle_event(key(KeyCode::Right), &mut ctx);
    assert_eq!(g.selected(), StateWidget::Enemy);
    g.handle_event(key(KeyCode::Left), &mut ctx);
    assert_eq!(g.selected(), StateWidget::Turn);
}

#[test]
fn quit_key_is_ignored_while_the_command_line_is_entered() {
    let mut g = InGame::new();
    let mut ctx = Context::new();
    g.handle_event(key(KeyCode::Char(':')), &mut ctx);
    assert_eq!(g.selected(), StateWidget::Command);
    g.handle_event(key(KeyCode::Char('q')), &mut ctx);
    assert!(!ctx.should_quit());
    g.handle_event(key(KeyCode::Tab), &mut ctx);
    g.handle_event(key(KeyCode::Char('q')), &mut ctx);
    assert!(ctx.should_quit());
}

#[test]
fn enter_and_esc_move_focus_in_and_out() {
    let mut g = InGame::new();
    let mut ctx = Context::new();
    g.handle_event(key(KeyCode::Up), &mut ctx);
    g.handle_event(key(KeyCode::Up), &mut ctx);
    assert_eq!(g.selected(), StateWidget::Hero);
    assert!(!g.is_in_widget());
    g.handle_event(key(KeyCode::Enter), &mut ctx);
    assert!(g.is_in_widget());
    // navigation is frozen while a widget is entered
    g.handle_event(key(KeyCode::Right), &mut ctx);
    assert_eq!(g.selected(), StateWidget::Hero);
    g.handle_event(key(KeyCode::Esc), &mut ctx);
    assert!(!g.is_in_widget());
}

#[test]
fn bounded_log_keeps_the_last_three_lines() {
    let mut ctx = Context::new();
    for i in 0..5 {
        ctx.push_log(format!("line {i}"));
    }
    let log: Vec<&str> = ctx.get_log().iter().map(|s| s.as_str()).collect();
    assert_eq!(log, vec!["line 2", "line 3", "line 4"]);
}
