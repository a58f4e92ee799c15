use ghzinga::app::composer::CommentComposer;
use ghzinga::app::composer_keys::apply_composer_edit_key;
use ghzinga::app::update::{KeyCode, KeyPress};
fn composer_with(text: &str) -> CommentComposer {
    let mut composer = CommentComposer::new();
    composer.insert_str(text);
    composer
}

#[test]
fn starts_empty_with_cursor_at_origin() {
    let composer = CommentComposer::new();
    assert!(composer.is_empty());
    assert_eq!(composer.cursor(), (0, 0));
    assert_eq!(composer.body(), "");
}

#[test]
fn typing_and_newlines_build_the_body() {
    let composer = composer_with("hello\nworld");
    assert_eq!(composer.body(), "hello\nworld");
    assert_eq!(composer.cursor(), (1, 5));
}

#[test]
fn paste_normalizes_crlf_line_endings() {
    let composer = composer_with("a\r\nb\rc");
    assert_eq!(composer.body(), "a\nb\nc");
}

#[test]
fn insert_char_mid_line_respects_cursor() {
    let mut composer = composer_with("hllo");
    composer.move_home();
    composer.move_right();
    composer.insert_char('e');
    assert_eq!(composer.body(), "hello");
    assert_eq!(composer.cursor(), (0, 2));
}

#[test]
fn backspace_joins_lines_at_line_start() {
    let mut composer = composer_with("ab\ncd");
    composer.move_home();
    composer.backspace();
    assert_eq!(composer.body(), "abcd");
    assert_eq!(composer.cursor(), (0, 2));
}

#[test]
fn delete_joins_next_line_at_line_end() {
    let mut composer = composer_with("ab\ncd");
    composer.click(80, 0, 2);
    composer.delete();
    assert_eq!(composer.body(), "abcd");
    assert_eq!(composer.cursor(), (0, 2));
}

#[test]
fn backspace_removes_multibyte_chars_cleanly() {
    let mut composer = composer_with("héllo");
    composer.click(80, 0, 2);
    composer.backspace();
    assert_eq!(composer.body(), "hllo");
}

#[test]
fn horizontal_movement_crosses_line_boundaries() {
    let mut composer = composer_with("ab\ncd");
    composer.click(80, 0, 2);
    composer.move_right();
    assert_eq!(composer.cursor(), (1, 0));
    composer.move_left();
    assert_eq!(composer.cursor(), (0, 2));
}

#[test]
fn long_lines_wrap_at_width() {
    let composer = composer_with("abcdefghij");
    let rows = composer.visual_rows(4);
    assert_eq!(rows.len(), 3);
    assert_eq!((rows[0].start, rows[0].end), (0, 4));
    assert_eq!((rows[1].start, rows[1].end), (4, 8));
    assert_eq!((rows[2].start, rows[2].end), (8, 10));
}

#[test]
fn wide_chars_wrap_by_display_width() {
    let composer = composer_with("日本語です");
    let rows = composer.visual_rows(4);
    assert_eq!(rows.len(), 3);
    assert_eq!((rows[0].start, rows[0].end), (0, 2));
    assert_eq!((rows[1].start, rows[1].end), (2, 4));
}

#[test]
fn cursor_visual_lands_after_wrap_boundary() {
    let composer = composer_with("abcdefghij");
    assert_eq!(composer.cursor_visual(4), (2, 2));
}

#[test]
fn vertical_movement_travels_through_wrapped_rows() {
    let mut composer = composer_with("abcdefghij");
    composer.click(4, 0, 1);
    composer.move_vertical(4, 1);
    assert_eq!(composer.cursor(), (0, 5));
    composer.move_vertical(4, 1);
    assert_eq!(composer.cursor(), (0, 9));
    composer.move_vertical(4, -1);
    assert_eq!(composer.cursor(), (0, 5));
}

#[test]
fn click_past_line_end_clamps_to_line_end() {
    let mut composer = composer_with("ab\ncdef");
    composer.click(80, 0, 10);
    assert_eq!(composer.cursor(), (0, 2));
}

#[test]
fn click_on_wide_char_selects_that_char() {
    let mut composer = composer_with("日本語");
    composer.click(80, 0, 3);
    assert_eq!(composer.cursor(), (0, 1));
}

#[test]
fn scroll_follows_cursor() {
    let mut composer = composer_with("a\nb\nc\nd\ne\nf");
    composer.scroll_cursor_into_view(10, 3);
    assert_eq!(composer.scroll, 3);
    composer.click(10, 0, 0);
    composer.scroll_cursor_into_view(10, 3);
    assert_eq!(composer.scroll, 0);
}

#[test]
fn scroll_by_clamps_to_content() {
    let mut composer = composer_with("a\nb\nc\nd");
    composer.scroll_by(10, 2, 10);
    assert_eq!(composer.scroll, 2);
    composer.scroll_by(10, 2, -10);
    assert_eq!(composer.scroll, 0);
}

#[test]
fn backspace_at_the_origin_is_a_no_op() {
    let mut composer = composer_with("ab");
    composer.move_home();
    composer.backspace();
    assert_eq!(composer.body(), "ab");
    assert_eq!(composer.cursor(), (0, 0));
}

#[test]
fn delete_at_the_end_of_the_buffer_is_a_no_op() {
    let mut composer = composer_with("ab");
    composer.delete();
    assert_eq!(composer.body(), "ab");
    assert_eq!(composer.cursor(), (0, 2));
}

#[test]
fn delete_joins_exactly_the_next_line() {
    let mut composer = composer_with("aa\nbb\ncc");
    composer.click(80, 1, 2);
    composer.delete();
    assert_eq!(composer.body(), "aa\nbbcc");
    assert_eq!(composer.cursor(), (1, 2));
}

#[test]
fn move_left_at_the_origin_stays_put() {
    let mut composer = composer_with("ab");
    composer.move_home();
    composer.move_left();
    assert_eq!(composer.cursor(), (0, 0));
}

#[test]
fn move_left_steps_back_exactly_one_column() {
    let mut composer = composer_with("abc");
    composer.move_left();
    assert_eq!(composer.cursor(), (0, 2));
    composer.move_left();
    assert_eq!(composer.cursor(), (0, 1));
}

#[test]
fn move_right_at_the_end_of_the_buffer_stays_put() {
    let mut composer = composer_with("ab\ncd");
    composer.move_right();
    assert_eq!(composer.cursor(), (1, 2));
}

#[test]
fn move_home_and_end_hit_the_line_bounds() {
    let mut composer = composer_with("hello");
    composer.move_home();
    assert_eq!(composer.cursor(), (0, 0));
    composer.move_end();
    assert_eq!(composer.cursor(), (0, 5));
}

#[test]
fn move_vertical_clamps_below_the_last_row() {
    let mut composer = composer_with("a\nb");
    composer.click(10, 0, 1);
    composer.move_vertical(10, 15);
    assert_eq!(composer.cursor(), (1, 1));
}

#[test]
fn click_below_the_content_lands_on_the_last_row() {
    let mut composer = composer_with("abcdefgh");
    composer.click(4, 9, 1);
    assert_eq!(composer.cursor(), (0, 5));
}

#[test]
fn cursor_at_an_exact_wrap_boundary_belongs_to_the_next_row() {
    let mut composer = composer_with("abcdefgh");
    composer.click(4, 1, 0);
    assert_eq!(composer.cursor(), (0, 4));
    assert_eq!(composer.cursor_visual(4), (1, 0));
}

#[test]
fn cursor_on_a_full_final_row_clamps_to_the_last_cell() {
    let composer = {
        let mut composer = composer_with("abcd\nef");
        composer.click(4, 0, 4);
        composer
    };
    assert_eq!(composer.cursor(), (0, 4));
    assert_eq!(composer.cursor_visual(4), (0, 3));
}

#[test]
fn cursor_visual_tracks_a_short_line_end_exactly() {
    let composer = composer_with("ab");
    assert_eq!(composer.cursor_visual(4), (0, 2));
}

#[test]
fn scroll_moves_one_step_when_cursor_crosses_the_bottom_edge() {
    let mut composer = composer_with("a\nb\nc\nd");
    composer.scroll = 0;
    composer.scroll_cursor_into_view(10, 3);
    assert_eq!(composer.scroll, 1, "cursor on row 3 with height 3");
    composer.click(10, 1, 0);
    composer.scroll_cursor_into_view(10, 3);
    assert_eq!(composer.scroll, 1, "cursor already visible keeps scroll");
}

#[test]
fn wide_char_exactly_filling_the_width_does_not_wrap_early() {
    let composer = composer_with("aa日");
    assert_eq!(composer.visual_rows(4).len(), 1);
    assert_eq!(composer.visual_rows(3).len(), 2);
}

#[test]
fn edits_clear_the_discard_confirmation() {
    let mut composer = composer_with("draft");
    composer.confirm_discard = true;
    composer.insert_char('!');
    assert!(!composer.confirm_discard);
}

#[test]
fn row_texts_give_back_the_body() {
    let mut c = CommentComposer::new();
    c.insert_str("abcdefghij\n\nxyz");
    let rows = c.visual_rows(4);
    let mut lines: Vec<String> = vec![String::new(); 3];
    for (i, row) in rows.iter().enumerate() {
        if i > 0 && rows[i - 1].line == row.line {
            assert_eq!(rows[i - 1].end, row.start);
        }
        assert!(row.end - row.start <= 4);
        lines[row.line].push_str(&c.row_text(row));
    }
    assert_eq!(lines.join("\n"), c.body());
}

#[test]
fn blank_lines_only_count_as_empty() {
    let mut c = CommentComposer::new();
    c.insert_str("\n\n");
    assert_eq!(c.body(), "\n\n");
    assert!(c.is_empty());
    c.insert_char('x');
    assert!(!c.is_empty());
}

fn press(code: KeyCode) -> KeyPress {
    KeyPress { code, control: false, alt: false, shift: false }
}

#[test]
fn edit_keys_type_break_and_remove_text() {
    let mut composer = CommentComposer::new();
    for ch in "hi".chars() {
        assert!(!apply_composer_edit_key(&mut composer, press(KeyCode::Char(ch))));
    }
    assert!(!apply_composer_edit_key(&mut composer, press(KeyCode::Enter)));
    assert!(!apply_composer_edit_key(&mut composer, press(KeyCode::Tab)));
    assert!(!apply_composer_edit_key(&mut composer, press(KeyCode::Char('x'))));
    assert_eq!(composer.body(), "hi\n    x");
    assert!(!apply_composer_edit_key(&mut composer, press(KeyCode::Backspace)));
    assert_eq!(composer.body(), "hi\n    ");
    assert!(!apply_composer_edit_key(&mut composer, press(KeyCode::Home)));
    assert_eq!(composer.cursor(), (1, 0));
    assert!(!apply_composer_edit_key(&mut composer, press(KeyCode::Delete)));
    assert_eq!(composer.body(), "hi\n   ");
    assert!(!apply_composer_edit_key(&mut composer, press(KeyCode::End)));
    assert_eq!(composer.cursor(), (1, 3));
    assert!(!apply_composer_edit_key(&mut composer, press(KeyCode::Left)));
    assert_eq!(composer.cursor(), (1, 2));
}

#[test]
fn alt_chars_are_ignored_and_escape_asks_to_close() {
    let mut composer = composer_with("ok");
    let alt_x = KeyPress { code: KeyCode::Char('x'), control: false, alt: true, shift: false };
    assert!(!apply_composer_edit_key(&mut composer, alt_x));
    assert_eq!(composer.body(), "ok");
    assert!(apply_composer_edit_key(&mut composer, press(KeyCode::Esc)));
    assert_eq!(composer.body(), "ok");
    assert_eq!(composer.cursor(), (0, 2));
}
