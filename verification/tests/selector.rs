use gcz::error::GczError;
use gcz::key::{KeyCode, KeyPress, Modifiers, ALT};
use gcz::selector::{Row, Selector};

fn press(selector: &mut Selector, code: KeyCode) -> Result<Option<String>, GczError> {
    selector.handle_key(&KeyPress::plain(code))
}

fn type_text(selector: &mut Selector, text: &str) {
    for c in text.chars() {
        assert_eq!(press(selector, KeyCode::Char(c)), Ok(None));
    }
}

fn labels(selector: &Selector, use_emoji: bool) -> Vec<String> {
    selector.render(use_emoji).rows.into_iter().map(|row| row.label).collect()
}

#[test]
fn selector_starts_empty_on_first_row() {
    let selector = Selector::new();
    assert_eq!(selector.query(), "");
    assert_eq!(selector.selected_index(), 0);
}

#[test]
fn typing_fi_then_enter_selects_fix() {
    let mut selector = Selector::new();
    type_text(&mut selector, "fi");
    assert_eq!(selector.query(), "fi");
    assert_eq!(press(&mut selector, KeyCode::Enter), Ok(Some("fix".to_string())));
}

#[test]
fn enter_on_fresh_selector_selects_feat() {
    let mut selector = Selector::new();
    assert_eq!(press(&mut selector, KeyCode::Enter), Ok(Some("feat".to_string())));
}

#[test]
fn control_c_interrupts_selection() {
    let mut selector = Selector::new();
    type_text(&mut selector, "f");
    assert_eq!(selector.handle_key(&KeyPress::ctrl('c')), Err(GczError::UserInterrupt));
    assert_eq!(selector.query(), "f");
}

#[test]
fn control_d_interrupts_selection() {
    let mut selector = Selector::new();
    assert_eq!(selector.handle_key(&KeyPress::ctrl('d')), Err(GczError::UserInterrupt));
}

#[test]
fn up_from_first_row_wraps_to_last() {
    let mut selector = Selector::new();
    assert_eq!(press(&mut selector, KeyCode::Up), Ok(None));
    assert_eq!(selector.selected_index(), 8);
    assert_eq!(press(&mut selector, KeyCode::Enter), Ok(Some("chore".to_string())));
}

#[test]
fn down_from_last_row_wraps_to_first() {
    let mut selector = Selector::new();
    type_text(&mut selector, "f");
    for expected in [1, 2, 3, 0, 1] {
        selector.move_down();
        assert_eq!(selector.selected_index(), expected);
    }
}

#[test]
fn up_and_down_step_by_one_inside_the_list() {
    let mut selector = Selector::new();
    type_text(&mut selector, "e");
    selector.move_down();
    selector.move_down();
    assert_eq!(selector.selected_index(), 2);
    selector.move_up();
    assert_eq!(selector.selected_index(), 1);
    assert_eq!(selector.confirm(), Some("style".to_string()));
    selector.move_up();
    selector.move_up();
    assert_eq!(selector.selected_index(), 5);
    assert_eq!(selector.confirm(), Some("chore".to_string()));
}

#[test]
fn typing_resets_highlight_to_first_row() {
    let mut selector = Selector::new();
    selector.move_down();
    selector.move_down();
    assert_eq!(selector.selected_index(), 2);
    selector.push_char('f');
    assert_eq!(selector.selected_index(), 0);
    selector.move_down();
    selector.backspace();
    assert_eq!(selector.selected_index(), 0);
    selector.move_down();
    selector.clear();
    assert_eq!(selector.selected_index(), 0);
}

#[test]
fn backspace_removes_last_character_of_query() {
    let mut selector = Selector::new();
    type_text(&mut selector, "fé中");
    assert_eq!(press(&mut selector, KeyCode::Backspace), Ok(None));
    assert_eq!(selector.query(), "fé");
    selector.backspace();
    assert_eq!(selector.query(), "f");
    selector.backspace();
    selector.backspace();
    assert_eq!(selector.query(), "");
}

#[test]
fn escape_clears_query() {
    let mut selector = Selector::new();
    type_text(&mut selector, "perf");
    assert_eq!(press(&mut selector, KeyCode::Esc), Ok(None));
    assert_eq!(selector.query(), "");
    assert_eq!(selector.render(false).rows.len(), 9);
}

#[test]
fn enter_with_nothing_on_show_changes_nothing() {
    let mut selector = Selector::new();
    type_text(&mut selector, "zzz");
    assert_eq!(press(&mut selector, KeyCode::Enter), Ok(None));
    assert_eq!(selector.confirm(), None);
    assert_eq!(selector.query(), "zzz");
    assert_eq!(selector.selected_index(), 0);
}

#[test]
fn up_and_down_with_nothing_on_show_stay_on_row_zero() {
    let mut selector = Selector::new();
    type_text(&mut selector, "zzz");
    assert_eq!(press(&mut selector, KeyCode::Up), Ok(None));
    assert_eq!(selector.selected_index(), 0);
    assert_eq!(press(&mut selector, KeyCode::Down), Ok(None));
    assert_eq!(selector.selected_index(), 0);
    selector.backspace();
    selector.backspace();
    selector.backspace();
    assert_eq!(press(&mut selector, KeyCode::Enter), Ok(Some("feat".to_string())));
}

#[test]
fn unbound_keys_change_nothing() {
    let mut selector = Selector::new();
    type_text(&mut selector, "f");
    selector.move_down();
    for code in [
        KeyCode::Left,
        KeyCode::Right,
        KeyCode::Home,
        KeyCode::End,
        KeyCode::Delete,
        KeyCode::Other,
    ] {
        assert_eq!(press(&mut selector, code), Ok(None));
        assert_eq!(selector.query(), "f");
        assert_eq!(selector.selected_index(), 1);
    }
}

#[test]
fn characters_with_modifiers_are_typed() {
    let mut selector = Selector::new();
    let alt_f = KeyPress { code: KeyCode::Char('f'), modifiers: Modifiers { bits: ALT } };
    assert_eq!(selector.handle_key(&alt_f), Ok(None));
    assert_eq!(selector.handle_key(&KeyPress::ctrl('i')), Ok(None));
    assert_eq!(selector.query(), "fi");
}

#[test]
fn upper_case_query_selects_the_same_entry() {
    let mut selector = Selector::new();
    type_text(&mut selector, "DOC");
    assert_eq!(press(&mut selector, KeyCode::Enter), Ok(Some("docs".to_string())));
}

#[test]
fn render_shows_prompt_and_all_rows() {
    let selector = Selector::new();
    let screen = selector.render(false);
    assert_eq!(screen.prompt, "Select a commit type: ");
    assert_eq!(
        labels(&selector, false),
        vec![
            "❯ feat",
            "  fix",
            "  docs",
            "  style",
            "  refactor",
            "  perf",
            "  test",
            "  ci",
            "  chore"
        ]
    );
    let marked: Vec<bool> = screen.rows.iter().map(|row| row.highlighted).collect();
    assert_eq!(marked, vec![true, false, false, false, false, false, false, false, false]);
}

#[test]
fn render_follows_query_and_highlight() {
    let mut selector = Selector::new();
    type_text(&mut selector, "f");
    selector.move_down();
    selector.move_down();
    let screen = selector.render(false);
    assert_eq!(screen.prompt, "Select a commit type: f");
    assert_eq!(
        screen.rows,
        vec![
            Row { label: "  feat".to_string(), highlighted: false },
            Row { label: "  fix".to_string(), highlighted: false },
            Row { label: "❯ refactor".to_string(), highlighted: true },
            Row { label: "  perf".to_string(), highlighted: false },
        ]
    );
}

#[test]
fn render_with_decoration_puts_glyph_before_name() {
    let mut selector = Selector::new();
    type_text(&mut selector, "fi");
    assert_eq!(labels(&selector, true), vec!["❯ 🐛 fix"]);
    assert_eq!(labels(&selector, false), vec!["❯ fix"]);
    selector.clear();
    type_text(&mut selector, "re");
    assert_eq!(labels(&selector, true), vec!["❯ ♻️ refactor", "  🔧 chore"]);
}

#[test]
fn render_with_nothing_on_show_has_no_rows() {
    let mut selector = Selector::new();
    type_text(&mut selector, "zzz");
    let screen = selector.render(true);
    assert_eq!(screen.prompt, "Select a commit type: zzz");
    assert!(screen.rows.is_empty());
}
