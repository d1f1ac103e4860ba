use sql_query_builder::Format;
use sql_query_builder::SelectBuilder;
use sql_query_builder::SelectClause;
use sql_query_builder::fmt::multiline;
use sql_query_builder::fmt::multiline_color;

#[test]
fn select_empty_builder_renders_empty_string() {
    assert_eq!(SelectBuilder::new().as_string(), "");
}

#[test]
fn select_compact_select_from_where() {
    let q = SelectBuilder::new()
        .select("id")
        .from("users")
        .where_clause("active = true")
        .as_string();
    assert_eq!(q, "SELECT id FROM users WHERE active = true");
}

#[test]
fn select_where_twice_with_identical_text_is_idempotent() {
    let q = SelectBuilder::new()
        .select("id")
        .from("t")
        .where_clause("x = 1")
        .and("x = 1")
        .as_string();
    assert_eq!(q, "SELECT id FROM t WHERE x = 1");
}

#[test]
fn select_where_twice_with_whitespace_variants_is_idempotent() {
    let q = SelectBuilder::new()
        .select("id")
        .from("t")
        .where_clause("  x = 1  ")
        .and("x = 1")
        .as_string();
    assert_eq!(q, "SELECT id FROM t WHERE x = 1");
}

#[test]
fn select_distinct_conditions_joined_by_and() {
    let q = SelectBuilder::new()
        .select("id")
        .from("t")
        .where_clause("a = 1")
        .and("b = 2")
        .as_string();
    assert_eq!(q, "SELECT id FROM t WHERE a = 1 AND b = 2");
}

#[test]
fn select_raw_twice_is_deduplicated() {
    let q = SelectBuilder::new().raw("select 1").raw(" select 1 ").as_string();
    assert_eq!(q, "select 1");
}

#[test]
fn select_inputs_are_trimmed_before_storage() {
    let q = SelectBuilder::new().select("  id  ").from("  users ").as_string();
    assert_eq!(q, "SELECT id FROM users");
}

#[test]
fn select_columns_joined_by_comma() {
    let q = SelectBuilder::new().select("id").select("login").from("users").as_string();
    assert_eq!(q, "SELECT id, login FROM users");
}

#[test]
fn select_joins_keep_their_own_keywords() {
    let q = SelectBuilder::new()
        .select("x")
        .from("t")
        .inner_join("t2 ON t.id = t2.id")
        .as_string();
    assert_eq!(q, "SELECT x FROM t INNER JOIN t2 ON t.id = t2.id");
}

#[test]
fn select_all_join_variants() {
    let q = SelectBuilder::new()
        .select("x")
        .from("t")
        .cross_join("a")
        .inner_join("b ON 1=1")
        .left_join("c ON 2=2")
        .right_join("d ON 3=3")
        .as_string();
    assert_eq!(
        q,
        "SELECT x FROM t CROSS JOIN a INNER JOIN b ON 1=1 LEFT JOIN c ON 2=2 RIGHT JOIN d ON 3=3"
    );
}

#[test]
fn select_group_having_order_limit_offset() {
    let q = SelectBuilder::new()
        .select("*")
        .from("t")
        .group_by("a")
        .having("count(*) > 1")
        .order_by("a")
        .limit("10")
        .offset("5")
        .as_string();
    assert_eq!(q, "SELECT * FROM t GROUP BY a HAVING count(*) > 1 ORDER BY a LIMIT 10 OFFSET 5");
}

#[test]
fn select_limit_is_last_write_wins() {
    let q = SelectBuilder::new().select("x").from("t").limit("1000").limit("123").as_string();
    assert_eq!(q, "SELECT x FROM t LIMIT 123");
}

#[test]
fn select_raw_before_fragments_in_insertion_order() {
    let q = SelectBuilder::new()
        .select("*")
        .raw_before(SelectClause::Where, "A")
        .raw_before(SelectClause::Where, "B")
        .where_clause("x = 1")
        .as_string();
    assert_eq!(q, "SELECT * A B WHERE x = 1");
}

#[test]
fn select_raw_before_duplicates_are_preserved() {
    let q = SelectBuilder::new()
        .select("*")
        .raw_before(SelectClause::Where, "A")
        .raw_before(SelectClause::Where, "A")
        .where_clause("x = 1")
        .as_string();
    assert_eq!(q, "SELECT * A A WHERE x = 1");
}

#[test]
fn select_raw_after_a_clause() {
    let q = SelectBuilder::new()
        .select("*")
        .from("users u")
        .raw_after(SelectClause::From, "inner join address a on u.id = a.user_id")
        .as_string();
    assert_eq!(q, "SELECT * FROM users u inner join address a on u.id = a.user_id");
}

#[test]
fn select_rendering_twice_is_byte_identical() {
    let b = SelectBuilder::new().select("id").from("users").where_clause("x = 1");
    assert_eq!(b.as_string(), b.as_string());
}

#[test]
fn select_with_compact() {
    let sub = SelectBuilder::new().select("1");
    let q = SelectBuilder::new().with("cte", sub).select("x").as_string();
    assert_eq!(q, "WITH cte AS (SELECT 1) SELECT x");
}

#[test]
fn select_with_multiline_indents_sub_query_one_level() {
    let sub = SelectBuilder::new().select("1");
    let b = SelectBuilder::new().with("cte", sub).select("x");
    let fmts = multiline();
    assert_eq!(b.concat(&fmts), "WITH cte AS (\n  SELECT 1\n) \nSELECT x");
}

#[test]
fn select_with_two_entries_no_trailing_comma() {
    let a = SelectBuilder::new().select("1");
    let b = SelectBuilder::new().select("2");
    let q = SelectBuilder::new().with("a", a).with("b", b).select("x").as_string();
    assert_eq!(q, "WITH a AS (SELECT 1), b AS (SELECT 2) SELECT x");
}

#[test]
fn select_with_two_entries_multiline_joined_by_comma_and_line_break() {
    let a = SelectBuilder::new().select("1");
    let b = SelectBuilder::new().select("2");
    let builder = SelectBuilder::new().with("a", a).with("b", b).select("x");
    let fmts = multiline();
    assert_eq!(
        builder.concat(&fmts),
        "WITH a AS (\n  SELECT 1\n), \nb AS (\n  SELECT 2\n) \nSELECT x"
    );
}

#[test]
fn select_multiline_color_colorizes_keywords() {
    let b = SelectBuilder::new().select("id").from("users");
    let fmts = multiline_color();
    assert_eq!(
        b.concat(&fmts),
        "\u{1b}[34mSELECT \u{1b}[0mid \n\u{1b}[34mFROM \u{1b}[0musers"
    );
}

#[test]
fn select_colorized_with_colorizes_sub_query_keywords() {
    let fmts = Format {
        comma: String::from(", "),
        hr: String::new(),
        indent: String::new(),
        lb: String::new(),
        colorize: true,
    };
    let sub = SelectBuilder::new().select("1");
    let b = SelectBuilder::new().with("c", sub).select("x");
    assert_eq!(
        b.concat(&fmts),
        "\u{1b}[34mWITH \u{1b}[0mc AS (\u{1b}[34mSELECT \u{1b}[0m1) \u{1b}[34mSELECT \u{1b}[0mx"
    );
}

#[test]
fn select_union_wraps_both_sides() {
    let q = SelectBuilder::new().select("1").union(SelectBuilder::new().select("2")).as_string();
    assert_eq!(q, "(SELECT 1) UNION (SELECT 2)");
}

#[test]
fn select_combinators_render_in_pipeline_order() {
    let q = SelectBuilder::new()
        .select("1")
        .union(SelectBuilder::new().select("4"))
        .except(SelectBuilder::new().select("2"))
        .intersect(SelectBuilder::new().select("3"))
        .as_string();
    assert_eq!(
        q,
        "(((SELECT 1) EXCEPT (SELECT 2)) INTERSECT (SELECT 3)) UNION (SELECT 4)"
    );
}

#[test]
fn select_clause_omission_leaves_no_stray_text() {
    let q = SelectBuilder::new().select("id").as_string();
    assert_eq!(q, "SELECT id");
}

#[test]
fn select_multiline_puts_one_clause_per_line() {
    let b = SelectBuilder::new().select("*").from("users").where_clause("a = 1");
    let fmts = multiline();
    assert_eq!(b.concat(&fmts), "SELECT * \nFROM users \nWHERE a = 1");
}

#[test]
fn select_unassociated_raw_opens_the_statement() {
    let q = SelectBuilder::new()
        .raw("select * from users u")
        .where_clause("u.login = 'foo'")
        .as_string();
    assert_eq!(q, "select * from users u WHERE u.login = 'foo'");
}
