use sql_query_builder::Format;
use sql_query_builder::Insert;
use sql_query_builder::InsertClause;
use sql_query_builder::SelectBuilder;
use sql_query_builder::Values;
use sql_query_builder::ValuesClause;

#[test]
fn insert_empty_builder_renders_empty_string() {
    assert_eq!(Insert::new().as_string(), "");
}

#[test]
fn insert_into_with_value_tuples() {
    let q = Insert::new()
        .insert_into("users (login, name)")
        .values("('foo', 'Foo')")
        .values("('bar', 'Bar')")
        .as_string();
    assert_eq!(q, "INSERT INTO users (login, name) VALUES ('foo', 'Foo'), ('bar', 'Bar')");
}

#[test]
fn insert_with_nested_select() {
    let sub = SelectBuilder::new().select("login").from("staging");
    let q = Insert::new().insert_into("users (login)").select(sub).as_string();
    assert_eq!(q, "INSERT INTO users (login) SELECT login FROM staging");
}

#[test]
fn insert_values_then_select_pipeline_order() {
    let sub = SelectBuilder::new().select("x").from("s");
    let q = Insert::new()
        .insert_into("t")
        .select(sub)
        .values("(1)")
        .as_string();
    assert_eq!(q, "INSERT INTO t VALUES (1) SELECT x FROM s");
}

#[test]
fn insert_overriding_and_on_conflict() {
    let q = Insert::new()
        .insert_into("t (a)")
        .overriding("SYSTEM VALUE")
        .values("(1)")
        .on_conflict("DO NOTHING")
        .as_string();
    assert_eq!(q, "INSERT INTO t (a) OVERRIDING SYSTEM VALUE VALUES (1) ON CONFLICT DO NOTHING");
}

#[test]
fn insert_returning_columns() {
    let q = Insert::new().insert_into("t (a)").values("(1)").returning("id").as_string();
    assert_eq!(q, "INSERT INTO t (a) VALUES (1) RETURNING id");
}

#[test]
fn insert_raw_fragments() {
    let q = Insert::new()
        .raw("insert into t (a)")
        .raw_after(InsertClause::Values, "on conflict do nothing")
        .values("(1)")
        .as_string();
    assert_eq!(q, "insert into t (a) VALUES (1) on conflict do nothing");
}

#[test]
fn insert_colorized_render_wraps_keywords() {
    let fmts = Format {
        comma: String::from(", "),
        hr: String::new(),
        indent: String::new(),
        lb: String::new(),
        colorize: true,
    };
    let b = Insert::new().insert_into("t").values("(1)");
    assert_eq!(
        b.concat(&fmts),
        "\u{1b}[34mINSERT INTO \u{1b}[0mt \u{1b}[34mVALUES \u{1b}[0m(1)"
    );
}

#[test]
fn insert_rendering_twice_is_byte_identical() {
    let b = Insert::new().insert_into("t").values("(1)");
    assert_eq!(b.as_string(), b.as_string());
}

#[test]
fn values_empty_builder_renders_empty_string() {
    assert_eq!(Values::new().as_string(), "");
}

#[test]
fn values_tuples_joined_by_comma() {
    let q = Values::new().values("(1, 'a')").values("(2, 'b')").as_string();
    assert_eq!(q, "VALUES (1, 'a'), (2, 'b')");
}

#[test]
fn values_raw_twice_is_deduplicated() {
    let q = Values::new().raw("values (1)").raw("values (1)").as_string();
    assert_eq!(q, "values (1)");
}

#[test]
fn values_raw_before_and_after() {
    let q = Values::new()
        .raw_before(ValuesClause::Values, "insert into t (a)")
        .raw_after(ValuesClause::Values, "returning a")
        .values("(1)")
        .as_string();
    assert_eq!(q, "insert into t (a) VALUES (1) returning a");
}

#[test]
fn values_rendering_twice_is_byte_identical() {
    let b = Values::new().values("(1)");
    assert_eq!(b.as_string(), b.as_string());
}
