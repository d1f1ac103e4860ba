use sql_query_builder::SelectBuilder;
use sql_query_builder::SelectClause;
use sql_query_builder::behavior::concat_raw_after;
use sql_query_builder::behavior::concat_raw_before;
use sql_query_builder::behavior::concat_raw_before_after;
use sql_query_builder::behavior::push_unique;
use sql_query_builder::behavior::raw_queries;
use sql_query_builder::fmt::Joiner;
use sql_query_builder::fmt::colorize;
use sql_query_builder::fmt::multiline;
use sql_query_builder::fmt::multiline_color;
use sql_query_builder::fmt::one_line;
use sql_query_builder::text::replace_str;
use sql_query_builder::text::str_eq;
use sql_query_builder::text::trim_end_str;
use sql_query_builder::text::trimmed;

#[test]
fn colorize_wraps_exactly_the_keywords() {
    let q = SelectBuilder::new().select("*").from("users").as_string();
    assert_eq!(q, "SELECT * FROM users");
    let colored = colorize(q);
    assert_eq!(
        colored,
        "\u{1b}[34;1mSELECT \u{1b}[0m* \u{1b}[34;1mFROM \u{1b}[0musers"
    );
}

#[test]
fn colorize_handles_lowercase_keywords() {
    let colored = colorize(String::from("select 1"));
    assert_eq!(colored, "\u{1b}[34;1mselect \u{1b}[0m1");
}

#[test]
fn colorize_emphasizes_numbered_placeholders() {
    let colored = colorize(String::from("login = $1"));
    assert_eq!(colored, "login = \u{1b}[0;1m$1\u{1b}[0m");
}

#[test]
fn colorize_leaves_plain_text_alone() {
    assert_eq!(colorize(String::from("users")), "users");
}

#[test]
fn write_blue_wraps_when_colorize_is_on() {
    let fmts = multiline_color();
    assert_eq!(fmts.write_blue("WHERE"), "\u{1b}[34mWHERE\u{1b}[0m");
}

#[test]
fn write_blue_is_identity_when_colorize_is_off() {
    let fmts = one_line();
    assert_eq!(fmts.write_blue("WHERE"), "WHERE");
}

#[test]
fn one_line_policy_tokens() {
    let f = one_line();
    assert_eq!(f.comma, ", ");
    assert_eq!(f.lb, "");
    assert_eq!(f.indent, "");
    assert!(!f.colorize);
}

#[test]
fn multiline_policy_tokens() {
    let f = multiline();
    assert_eq!(f.comma, ", ");
    assert_eq!(f.lb, "\n");
    assert_eq!(f.indent, "  ");
    assert!(!f.colorize);
}

#[test]
fn format_frames_and_colorizes() {
    let out = sql_query_builder::fmt::format(String::from("SELECT 1"), &one_line());
    assert_eq!(out, "\u{1b}[34;1mSELECT \u{1b}[0m1");
}

#[test]
fn joiner_separates_consecutive_entries_only() {
    let mut j = Joiner::new(", ");
    j.entry("a");
    j.entry("b");
    j.entry("c");
    assert_eq!(j.finish(), "a, b, c");
}

#[test]
fn joiner_with_no_entries_is_empty() {
    let j = Joiner::new(", ");
    assert_eq!(j.finish(), "");
}

#[test]
fn push_unique_drops_exact_duplicates_only() {
    let mut list: Vec<String> = Vec::new();
    push_unique(&mut list, String::from("a"));
    push_unique(&mut list, String::from("b"));
    push_unique(&mut list, String::from("a"));
    assert_eq!(list, vec![String::from("a"), String::from("b")]);
}

#[test]
fn raw_queries_filters_by_clause_in_order() {
    let list: Vec<(SelectClause, String)> = vec![
        (SelectClause::Where, String::from("a")),
        (SelectClause::From, String::from("b")),
        (SelectClause::Where, String::from("c")),
    ];
    let out = raw_queries(&list, &SelectClause::Where);
    assert_eq!(out, vec![String::from("a"), String::from("c")]);
}

#[test]
fn concat_raw_before_appends_group_and_space() {
    let list: Vec<(SelectClause, String)> = vec![
        (SelectClause::Where, String::from("A")),
        (SelectClause::Where, String::from("B")),
    ];
    let fmts = one_line();
    let out = concat_raw_before(&list, String::from("Q "), &fmts, &SelectClause::Where);
    assert_eq!(out, "Q A B ");
}

#[test]
fn concat_raw_after_without_match_appends_nothing() {
    let list: Vec<(SelectClause, String)> = vec![(SelectClause::Where, String::from("A"))];
    let fmts = one_line();
    let out = concat_raw_after(&list, String::from("Q"), &fmts, &SelectClause::From);
    assert_eq!(out, "Q");
}

#[test]
fn concat_raw_before_after_splices_around_clause_text() {
    let before: Vec<(SelectClause, String)> = vec![(SelectClause::Where, String::from("A"))];
    let after: Vec<(SelectClause, String)> = vec![(SelectClause::Where, String::from("Z"))];
    let fmts = one_line();
    let out = concat_raw_before_after(
        &before,
        &after,
        String::from(""),
        &fmts,
        SelectClause::Where,
        String::from("WHERE x = 1 "),
    );
    assert_eq!(out, "A WHERE x = 1 Z ");
}

#[test]
fn trimmed_removes_surrounding_whitespace_only() {
    assert_eq!(trimmed("  a b \t\n"), "a b");
    assert_eq!(trimmed(""), "");
    assert_eq!(trimmed("   "), "");
}

#[test]
fn trim_end_str_keeps_leading_whitespace() {
    assert_eq!(trim_end_str("  a  "), "  a");
}

#[test]
fn str_eq_compares_by_characters() {
    assert!(str_eq("abc", "abc"));
    assert!(!str_eq("abc", "abd"));
    assert!(!str_eq("abc", "ab"));
}

#[test]
fn replace_str_replaces_leftmost_without_rescanning() {
    assert_eq!(replace_str("aaa", "aa", "b"), "ba");
    assert_eq!(replace_str("x AND y AND z", "AND", "&"), "x & y & z");
    assert_eq!(replace_str("abc", "", "x"), "abc");
}
