use nlsh_rs::layout::{
    effective_width, erase_rows, strip_ansi, visual_rows, DisplayRegion, CLEAR_LINE, CURSOR_UP,
    DEFAULT_WIDTH,
};
use nlsh_rs::text::{chars_of, string_of};

fn strip(s: &str) -> String {
    string_of(&strip_ansi(&chars_of(s)))
}

#[test]
fn empty_text_takes_one_row() {
    for w in [1usize, 2, 80, 1000] {
        assert_eq!(visual_rows("", w), 1);
    }
}

#[test]
fn a_line_takes_its_width_divided_by_the_terminal_width_rounded_up() {
    assert_eq!(visual_rows("abcdef", 80), 1);
    assert_eq!(visual_rows("abcdef", 6), 1);
    assert_eq!(visual_rows("abcdef", 5), 2);
    assert_eq!(visual_rows("abcdef", 3), 2);
    assert_eq!(visual_rows("abcdef", 2), 3);
    assert_eq!(visual_rows("abcdef", 1), 6);
    assert_eq!(visual_rows("abcdefg", 3), 3);
}

#[test]
fn rows_add_up_over_lines() {
    assert_eq!(visual_rows("a\nb\nc", 80), 3);
    assert_eq!(visual_rows("a\n\nc", 80), 3);
    assert_eq!(visual_rows("a\n", 80), 2);
    assert_eq!(visual_rows("\n", 80), 2);
    assert_eq!(visual_rows("abcd\nab\nabcdefgh", 4), 1 + 1 + 2);
}

#[test]
fn wide_characters_count_twice() {
    // three wide characters fill six columns
    assert_eq!(visual_rows("日本語", 6), 1);
    assert_eq!(visual_rows("日本語", 4), 2);
    assert_eq!(visual_rows("日本語", 2), 3);
    // three characters of one column each would fit into three columns
    assert_eq!(visual_rows("abc", 3), 1);
    assert_eq!(visual_rows("日本語", 3), 2);
}

#[test]
fn escape_sequences_take_no_room() {
    assert_eq!(visual_rows("\x1b[1mabc\x1b[22m", 3), 1);
    assert_eq!(visual_rows("\x1b[38;2;128;128;128mabcd\x1b[0m", 2), 2);
    // a line of nothing but escape sequences is not empty, and shows nothing
    assert_eq!(visual_rows("\x1b[1m\x1b[0m", 80), 0);
}

#[test]
fn strip_ansi_removes_control_sequences() {
    assert_eq!(strip("plain"), "plain");
    assert_eq!(strip("\x1b[1mbold\x1b[22m"), "bold");
    assert_eq!(strip("a\x1b[36mb\x1b[0mc"), "abc");
    assert_eq!(strip("\x1b[38;2;1;2;3mx"), "x");
    assert_eq!(strip("\x1b[?25h"), "");
    assert_eq!(strip("\x1b[2Kx"), "x");
    assert_eq!(strip(""), "");
}

#[test]
fn strip_ansi_on_broken_sequences() {
    // the escape character alone goes, what follows it stays
    assert_eq!(strip("a\x1bb"), "ab");
    // an unfinished sequence goes
    assert_eq!(strip("a\x1b[12"), "a");
    assert_eq!(strip("a\x1b"), "a");
    // an escape character starts anew
    assert_eq!(strip("\x1b[1\x1b[0mx"), "x");
    assert_eq!(strip("\x1b\x1b[0mx"), "x");
    // a character that cannot stand in a sequence breaks it off and stays
    assert_eq!(strip("\x1b[1\nx"), "\nx");
    assert_eq!(strip("\x1b[1éx"), "éx");
}

#[test]
fn erase_rows_clears_upwards() {
    assert_eq!(erase_rows(0), "");
    assert_eq!(erase_rows(1), "\r\x1b[K");
    assert_eq!(erase_rows(2), "\r\x1b[K\x1b[1A\r\x1b[K");
    assert_eq!(erase_rows(3), "\r\x1b[K\x1b[1A\r\x1b[K\x1b[1A\r\x1b[K");
    let many = erase_rows(40);
    assert_eq!(many.matches(CURSOR_UP).count(), 39);
    assert_eq!(many.matches(CLEAR_LINE).count(), 40);
}

#[test]
fn effective_width_falls_back() {
    assert_eq!(effective_width(None), 80);
    assert_eq!(effective_width(Some(0)), 80);
    assert_eq!(effective_width(Some(1)), 1);
    assert_eq!(effective_width(Some(132)), 132);
    assert_eq!(DEFAULT_WIDTH, 80);
}

#[test]
fn what_was_rendered_is_what_is_erased() {
    let mut region = DisplayRegion::new();
    region.record("$ echo hi", 80);
    region.record("Run this? (Y/e/n)\n[Y/Enter] to execute", 80);
    assert_eq!(region.rows, 3);
    let out = region.erase();
    assert_eq!(out, erase_rows(3));
    assert_eq!(region.rows, 0);
    assert_eq!(region.erase(), "");
}

#[test]
fn a_region_erases_its_last_rows() {
    let mut region = DisplayRegion::new();
    region.extend(2);
    region.record("abcdefgh", 4);
    assert_eq!(region.rows, 4);
    assert_eq!(region.erase_last(3), erase_rows(3));
    assert_eq!(region.rows, 1);
    assert_eq!(region.erase_last(5), erase_rows(1));
    assert_eq!(region.rows, 0);
}

#[test]
fn row_counts_saturate() {
    let mut region = DisplayRegion::new();
    region.extend(usize::MAX);
    region.extend(5);
    assert_eq!(region.rows, usize::MAX);
    region.record("abc", 80);
    assert_eq!(region.rows, usize::MAX);
}
