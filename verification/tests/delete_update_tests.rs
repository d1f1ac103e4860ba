use sql_query_builder::DeleteBuilder;
use sql_query_builder::DeleteClause;
use sql_query_builder::Format;
use sql_query_builder::SelectBuilder;
use sql_query_builder::Update;
use sql_query_builder::UpdateClause;

#[test]
fn delete_empty_builder_renders_empty_string() {
    assert_eq!(DeleteBuilder::new().as_string(), "");
}

#[test]
fn delete_with_chained_conditions() {
    let q = DeleteBuilder::new()
        .delete_from("users")
        .where_clause("login = 'foo'")
        .and("active = false")
        .as_string();
    assert_eq!(q, "DELETE FROM users WHERE login = 'foo' AND active = false");
}

#[test]
fn delete_raw_after_keeps_user_casing() {
    let q = DeleteBuilder::new()
        .delete_from("users")
        .raw_after(DeleteClause::DeleteFrom, "where name = 'Foo'")
        .as_string();
    assert_eq!(q, "DELETE FROM users where name = 'Foo'");
}

#[test]
fn delete_raw_before_a_clause() {
    let q = DeleteBuilder::new()
        .raw_before(DeleteClause::Where, "delete from users")
        .where_clause("name = 'Bar'")
        .as_string();
    assert_eq!(q, "delete from users WHERE name = 'Bar'");
}

#[test]
fn delete_where_twice_with_identical_text_is_idempotent() {
    let q = DeleteBuilder::new()
        .delete_from("users")
        .where_clause("x = 1")
        .and("  x = 1 ")
        .as_string();
    assert_eq!(q, "DELETE FROM users WHERE x = 1");
}

#[test]
fn delete_from_is_last_write_wins() {
    let q = DeleteBuilder::new().delete_from("address").delete_from("orders").as_string();
    assert_eq!(q, "DELETE FROM orders");
}

#[test]
fn delete_returning_columns() {
    let q = DeleteBuilder::new()
        .delete_from("users")
        .where_clause("id = 1")
        .returning("id")
        .returning("login")
        .as_string();
    assert_eq!(q, "DELETE FROM users WHERE id = 1 RETURNING id, login");
}

#[test]
fn delete_with_named_sub_query() {
    let sub = SelectBuilder::new().select("id").from("users");
    let q = DeleteBuilder::new()
        .with("u", sub)
        .delete_from("sessions")
        .where_clause("user_id IN (SELECT id FROM u)")
        .as_string();
    assert_eq!(
        q,
        "WITH u AS (SELECT id FROM users) DELETE FROM sessions WHERE user_id IN (SELECT id FROM u)"
    );
}

#[test]
fn delete_rendering_twice_is_byte_identical() {
    let b = DeleteBuilder::new().delete_from("users").where_clause("x = 1");
    assert_eq!(b.as_string(), b.as_string());
}

#[test]
fn update_empty_builder_renders_empty_string() {
    assert_eq!(Update::new().as_string(), "");
}

#[test]
fn update_set_where() {
    let q = Update::new()
        .update("users")
        .set("name = 'Foo'")
        .where_clause("id = 1")
        .as_string();
    assert_eq!(q, "UPDATE users SET name = 'Foo' WHERE id = 1");
}

#[test]
fn update_assignments_joined_by_comma() {
    let q = Update::new().update("t").set("a = 1").set("b = 2").as_string();
    assert_eq!(q, "UPDATE t SET a = 1, b = 2");
}

#[test]
fn update_from_and_returning() {
    let q = Update::new()
        .update("t")
        .set("a = s.a")
        .from("s")
        .where_clause("t.id = s.id")
        .returning("t.a")
        .as_string();
    assert_eq!(q, "UPDATE t SET a = s.a FROM s WHERE t.id = s.id RETURNING t.a");
}

#[test]
fn update_where_twice_with_identical_text_is_idempotent() {
    let q = Update::new().update("t").set("a = 1").where_clause("x = 1").and("x = 1").as_string();
    assert_eq!(q, "UPDATE t SET a = 1 WHERE x = 1");
}

#[test]
fn update_raw_before_set_clause() {
    let q = Update::new()
        .raw_before(UpdateClause::Sets, "update users")
        .set("name = 'x'")
        .as_string();
    assert_eq!(q, "update users SET name = 'x'");
}

#[test]
fn delete_colorized_render_wraps_keywords() {
    let fmts = Format {
        comma: String::from(", "),
        hr: String::new(),
        indent: String::new(),
        lb: String::new(),
        colorize: true,
    };
    let b = DeleteBuilder::new().delete_from("users").where_clause("x = 1");
    assert_eq!(
        b.concat(&fmts),
        "\u{1b}[34mDELETE FROM \u{1b}[0musers \u{1b}[34mWHERE \u{1b}[0mx = 1"
    );
}

#[test]
fn update_colorized_render_wraps_keywords() {
    let fmts = Format {
        comma: String::from(", "),
        hr: String::new(),
        indent: String::new(),
        lb: String::new(),
        colorize: true,
    };
    let b = Update::new().update("t").set("a = 1");
    assert_eq!(
        b.concat(&fmts),
        "\u{1b}[34mUPDATE \u{1b}[0mt \u{1b}[34mSET \u{1b}[0ma = 1"
    );
}

#[test]
fn update_rendering_twice_is_byte_identical() {
    let b = Update::new().update("t").set("a = 1");
    assert_eq!(b.as_string(), b.as_string());
}
