use idle_termquest::command::Command;

fn typed(s: &str) -> Command {
    let mut c = Command::new();
    c.enter();
    for ch in s.chars() {
        c.push(ch);
    }
    c
}

#[test]
fn push_only_lands_while_entered() {
    let mut c = Command::new();
    c.push('a');
    assert_eq!(c.execute(), Some(String::new()));
    c.enter();
    c.push('a');
    c.push('b');
    assert_eq!(c.execute(), Some("ab".to_owned()));
}

#[test]
fn execute_clears_the_content() {
    let mut c = typed("run");
    assert_eq!(c.execute(), Some("run".to_owned()));
    assert_eq!(c.execute(), Some(String::new()));
}

#[test]
fn pop_removes_the_last_character() {
    let mut c = typed("hi!");
    c.pop();
    assert_eq!(c.execute(), Some("hi".to_owned()));
}

#[test]
fn pop_word_keeps_the_separating_space() {
    let mut c = typed("hello world");
    c.pop_word();
    assert_eq!(c.execute(), Some("hello ".to_owned()));
}

#[test]
fn pop_word_skips_trailing_symbols() {
    let mut c = typed("a b!!");
    c.pop_word();
    assert_eq!(c.execute(), Some("a ".to_owned()));
}

#[test]
fn pop_word_on_a_single_word_clears_it() {
    let mut c = typed("hello");
    c.pop_word();
    assert_eq!(c.execute(), Some(String::new()));
}

#[test]
fn focus_moves_with_enter_and_exit() {
    let mut c = Command::new();
    assert!(!c.is_entered());
    c.enter();
    assert!(c.is_entered());
    c.exit();
    assert!(!c.is_entered());
}
