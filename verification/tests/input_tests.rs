use githut::input::TextInput;

fn typed(s: &str) -> TextInput {
    let mut t = TextInput::new();
    for c in s.chars() {
        t.insert(c);
    }
    t
}

#[test]
fn new_input_is_empty() {
    let t = TextInput::new();
    assert!(t.is_empty());
    assert_eq!(t.as_str(), "");
    assert_eq!(t.cursor, 0);
}

#[test]
fn insert_moves_cursor_by_bytes() {
    let t = typed("aé");
    assert_eq!(t.as_str(), "aé");
    assert_eq!(t.cursor, 3);
    assert!(!t.is_empty());
}

#[test]
fn insert_in_the_middle() {
    let mut t = typed("ab");
    t.move_left();
    t.insert('x');
    assert_eq!(t.as_str(), "axb");
    assert_eq!(t.cursor, 2);
}

#[test]
fn insert_then_backspace_restores() {
    let mut t = typed("héllo");
    t.move_left();
    t.move_left();
    let before = t.clone();
    t.insert('ß');
    t.backspace();
    assert_eq!(t.as_str(), before.as_str());
    assert_eq!(t.cursor, before.cursor);
}

#[test]
fn backspace_at_start_does_nothing() {
    let mut t = typed("ab");
    t.move_home();
    t.backspace();
    assert_eq!(t.as_str(), "ab");
    assert_eq!(t.cursor, 0);
}

#[test]
fn backspace_removes_a_multibyte_character() {
    let mut t = typed("a€");
    t.backspace();
    assert_eq!(t.as_str(), "a");
    assert_eq!(t.cursor, 1);
}

#[test]
fn delete_removes_the_character_under_the_cursor() {
    let mut t = typed("abc");
    t.move_home();
    t.delete();
    assert_eq!(t.as_str(), "bc");
    assert_eq!(t.cursor, 0);
    t.move_end();
    t.delete();
    assert_eq!(t.as_str(), "bc");
    assert_eq!(t.cursor, 2);
}

#[test]
fn left_then_right_comes_back() {
    let mut t = typed("añb");
    let c = t.cursor;
    t.move_left();
    assert_eq!(t.cursor, 3);
    t.move_left();
    assert_eq!(t.cursor, 1);
    t.move_right();
    t.move_right();
    assert_eq!(t.cursor, c);
}

#[test]
fn right_then_left_comes_back() {
    let mut t = typed("ñx");
    t.move_home();
    t.move_right();
    assert_eq!(t.cursor, 2);
    t.move_left();
    assert_eq!(t.cursor, 0);
}

#[test]
fn moves_stop_at_the_ends() {
    let mut t = typed("ab");
    t.move_right();
    assert_eq!(t.cursor, 2);
    t.move_home();
    t.move_left();
    assert_eq!(t.cursor, 0);
}

#[test]
fn home_and_end() {
    let mut t = typed("日本");
    t.move_home();
    assert_eq!(t.cursor, 0);
    t.move_end();
    assert_eq!(t.cursor, 6);
}

#[test]
fn display_marks_the_cursor() {
    let mut t = typed("abc");
    assert_eq!(t.display_with_cursor(), "abc_");
    t.move_left();
    assert_eq!(t.display_with_cursor(), "ab_c");
    t.move_home();
    assert_eq!(t.display_with_cursor(), "_abc");
}

#[test]
fn clear_empties_the_field() {
    let mut t = typed("abc");
    t.clear();
    assert_eq!(t.as_str(), "");
    assert_eq!(t.cursor, 0);
}

#[test]
fn to_path_expands_home_and_relative_paths() {
    let t = typed("  ~/code/x  ");
    assert_eq!(t.to_path("/home/u", "/work"), "/home/u/code/x");
    let t = typed("../other/./y");
    assert_eq!(t.to_path("/home/u", "/work/dir"), "/work/other/y");
    let t = typed("/abs/../kept");
    assert_eq!(t.to_path("/home/u", "/work"), "/abs/../kept");
    let t = typed("   ");
    assert_eq!(t.to_path("/home/u", "/work"), "");
}
