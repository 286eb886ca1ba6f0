use sqltree::{
    collect_delimited, to_sql, AnyNode, BinaryExt, Collectable, Collector, InsertQuery, Param, Raw,
    Sink, SinkError, Table, TableRef, UnaryExt,
};

#[derive(Clone, Copy, Debug, PartialEq)]
enum Users {
    A,
    B,
    Id,
}

// The two functions that return a `Seq` are the names the contracts use for
// what `name` and `table` return. Nothing runs them.
impl Table for Users {
    fn name_text(&self) -> vstd::seq::Seq<char> {
        unreachable!()
    }

    fn table_text() -> vstd::seq::Seq<char> {
        unreachable!()
    }

    fn name(&self) -> &str {
        match self {
            Users::A => "a",
            Users::B => "b",
            Users::Id => "id",
        }
    }

    fn table() -> &'static str {
        "\"users\""
    }
}

fn raw(text: &str) -> AnyNode {
    AnyNode::Raw(Raw::new(text))
}

fn insert() -> InsertQuery<Users> {
    InsertQuery::<()>::default().into::<Users>()
}

fn sql<C: Collectable>(node: &C) -> String {
    to_sql(node).unwrap().0
}

#[test]
fn insert_without_columns_and_values() {
    assert_eq!(sql(&insert()), "INSERT INTO \"users\" DEFAULT VALUES");
}

#[test]
fn insert_two_columns_two_values() {
    let q = insert().cols(&[Users::A, Users::B]).values(vec![raw("1"), raw("2")]);
    assert_eq!(sql(&q), "INSERT INTO \"users\" (\"a\", \"b\") VALUES (1, 2)");
}

#[test]
fn insert_one_column_one_value() {
    let q = insert().cols(&[Users::Id]).value(raw("7"));
    assert_eq!(sql(&q), "INSERT INTO \"users\" (\"id\") VALUES (7)");
}

#[test]
fn insert_three_columns() {
    let q = insert()
        .cols(&[Users::Id, Users::A, Users::B])
        .value(raw("1"))
        .value(raw("2"))
        .value(raw("3"));
    assert_eq!(sql(&q), "INSERT INTO \"users\" (\"id\", \"a\", \"b\") VALUES (1, 2, 3)");
}

#[test]
fn insert_columns_are_added_behind_those_there() {
    let q = insert().cols(&[Users::A]).cols(&[]).cols(&[Users::B]).values(vec![raw("1"), raw("2")]);
    assert_eq!(sql(&q), "INSERT INTO \"users\" (\"a\", \"b\") VALUES (1, 2)");
}

#[test]
fn insert_values_are_added_behind_those_there() {
    let q = insert().value(raw("1")).values(vec![raw("2"), raw("3")]).values(vec![]).value(raw("4"));
    assert_eq!(sql(&q), "INSERT INTO \"users\" VALUES (1, 2, 3, 4)");
}

#[test]
fn insert_values_without_columns_are_not_counted() {
    let q = insert().values(vec![raw("1"), raw("2"), raw("3")]);
    assert_eq!(sql(&q), "INSERT INTO \"users\" VALUES (1, 2, 3)");
}

#[test]
fn insert_columns_without_values_take_defaults() {
    let q = insert().cols(&[Users::A, Users::B]);
    assert_eq!(sql(&q), "INSERT INTO \"users\" (\"a\", \"b\") DEFAULT VALUES");
}

#[test]
fn insert_with_more_columns_than_values_is_not_well_formed() {
    let q = insert().cols(&[Users::A, Users::B]).value(raw("1"));
    assert!(!q.is_well_formed());
    assert!(to_sql(&q).is_none());
}

#[test]
fn insert_with_more_values_than_columns_is_not_well_formed() {
    let q = insert().cols(&[Users::A]).values(vec![raw("1"), raw("2"), raw("3")]);
    assert!(!q.is_well_formed());
    assert!(to_sql(&q).is_none());
}

#[test]
fn insert_misshapen_with_returning_is_not_well_formed() {
    let q = insert().cols(&[Users::A, Users::B]).value(raw("1")).returning(raw("id"));
    assert!(!q.is_well_formed());
    assert!(to_sql(&q).is_none());
}

#[test]
fn insert_is_well_formed_where_the_lists_fit() {
    assert!(insert().is_well_formed());
    assert!(insert().cols(&[Users::A, Users::B]).is_well_formed());
    assert!(insert().values(vec![raw("1"), raw("2"), raw("3")]).is_well_formed());
    assert!(insert().cols(&[Users::A]).value(raw("1")).is_well_formed());
    assert!(insert().cols(&[Users::A, Users::B]).values(vec![raw("1"), raw("2")]).is_well_formed());
    assert!(insert().cols(&[Users::A]).value(raw("1")).returning(raw("id")).is_well_formed());
}

#[test]
fn misshapen_insert_is_mended_by_the_value_that_was_missing() {
    let q = insert().cols(&[Users::A, Users::B]).value(raw("1"));
    assert!(!q.is_well_formed());
    let q = q.value(raw("2"));
    assert!(q.is_well_formed());
    assert_eq!(sql(&q), "INSERT INTO \"users\" (\"a\", \"b\") VALUES (1, 2)");
}

#[test]
fn node_that_holds_a_misshapen_insert_is_not_well_formed() {
    let bad = || insert().cols(&[Users::A]).values(vec![raw("1"), raw("2")]);
    assert!(!AnyNode::Boxed(Box::new(bad())).is_well_formed());
    assert!(!AnyNode::Boxed(Box::new(bad())).not().is_well_formed());
    assert!(!Raw::new("a").add(AnyNode::Boxed(Box::new(bad()))).is_well_formed());
    assert!(!AnyNode::Boxed(Box::new(bad())).add(Raw::new("a")).is_well_formed());
    assert!(!insert().with_prefix(AnyNode::Boxed(Box::new(bad()))).is_well_formed());
    assert!(!insert().value(raw("1")).value(AnyNode::Boxed(Box::new(bad()))).is_well_formed());
    assert!(!insert().returning(AnyNode::Boxed(Box::new(bad()))).is_well_formed());
    assert!(to_sql(&insert().returning(AnyNode::Boxed(Box::new(bad())))).is_none());
}

#[test]
fn insert_returning_after_values() {
    let q = insert().cols(&[Users::A, Users::B]).values(vec![raw("1"), raw("2")]).returning(raw("id"));
    assert_eq!(sql(&q), "INSERT INTO \"users\" (\"a\", \"b\") VALUES (1, 2) RETURNING id");
}

#[test]
fn insert_returning_without_columns() {
    let q = insert().values(vec![raw("1"), raw("2")]).returning(raw("id"));
    assert_eq!(sql(&q), "INSERT INTO \"users\" VALUES (1, 2) RETURNING id");
}

#[test]
fn insert_returning_after_default_values() {
    let q = insert().returning(raw("id"));
    assert_eq!(sql(&q), "INSERT INTO \"users\" DEFAULT VALUES RETURNING id");
}

#[test]
fn insert_returning_adds_exactly_the_clause() {
    let without = sql(&insert().cols(&[Users::A]).value(raw("1")));
    let with = sql(&insert().cols(&[Users::A]).value(raw("1")).returning(raw("id")));
    assert_eq!(with, format!("{} RETURNING id", without));
}

#[test]
fn insert_returning_is_replaced_by_a_later_one() {
    let q = insert().returning(raw("id")).returning(raw("a"));
    assert_eq!(sql(&q), "INSERT INTO \"users\" DEFAULT VALUES RETURNING a");
}

#[test]
fn insert_returning_composite_is_wrapped() {
    let q = insert().returning(AnyNode::Boxed(Box::new(Raw::new("a").add(Raw::new("b")))));
    assert_eq!(sql(&q), "INSERT INTO \"users\" DEFAULT VALUES RETURNING (a + b)");
}

#[test]
fn insert_composite_values_are_wrapped() {
    let q = insert().cols(&[Users::A, Users::B]).values(vec![
        AnyNode::Boxed(Box::new(Raw::new("1").add(Raw::new("2")))),
        AnyNode::Boxed(Box::new(Raw::new("3").neg())),
    ]);
    assert_eq!(sql(&q), "INSERT INTO \"users\" (\"a\", \"b\") VALUES ((1 + 2), (0 - 3))");
}

#[test]
fn insert_params_are_numbered_across_values_and_returning() {
    let q = insert()
        .cols(&[Users::A, Users::B])
        .value(AnyNode::Param(Param::of(23)))
        .value(AnyNode::Param(Param::of(25)))
        .returning(AnyNode::Boxed(Box::new(Raw::new("id").add(Param::of(20)))));
    let (text, t) = to_sql(&q).unwrap();
    assert_eq!(text, "INSERT INTO \"users\" (\"a\", \"b\") VALUES ($1, $2) RETURNING (id + $3)");
    assert_eq!(t.len(), 3);
    assert_eq!(t.type_of(3), Some(20));
}

#[test]
fn insert_with_prefix() {
    let q = InsertQuery::<()>::default()
        .with_prefix(raw("WITH t AS (SELECT 1)"))
        .into::<Users>()
        .value(raw("1"));
    assert_eq!(sql(&q), "WITH t AS (SELECT 1) INSERT INTO \"users\" VALUES (1)");
}

#[test]
fn insert_prefix_that_is_a_statement_is_wrapped() {
    let q = insert().with_prefix(AnyNode::Boxed(Box::new(insert()))).returning(raw("id"));
    assert_eq!(
        sql(&q),
        "(INSERT INTO \"users\" DEFAULT VALUES) INSERT INTO \"users\" DEFAULT VALUES RETURNING id"
    );
}

#[test]
fn into_resets_the_columns_only() {
    let q = insert()
        .with_prefix(raw("WITH x"))
        .cols(&[Users::A])
        .value(raw("1"))
        .returning(raw("id"))
        .into::<Users>();
    assert_eq!(sql(&q), "WITH x INSERT INTO \"users\" VALUES (1) RETURNING id");
}

#[test]
fn into_makes_room_for_other_columns() {
    let q = insert().cols(&[Users::A]).value(raw("1")).into::<Users>().cols(&[Users::Id]);
    assert_eq!(sql(&q), "INSERT INTO \"users\" (\"id\") VALUES (1)");
}

#[test]
fn insert_needs_wrapping() {
    assert!(insert().needs_wrapping());
    let mut w = Sink::new();
    let mut t = Collector::new();
    insert()._collect(&mut w, &mut t).unwrap();
    assert_eq!(w.as_str(), "(INSERT INTO \"users\" DEFAULT VALUES)");
}

#[test]
fn insert_as_a_value_is_wrapped() {
    let q = insert().value(AnyNode::Boxed(Box::new(insert().returning(raw("id")))));
    assert_eq!(
        sql(&q),
        "INSERT INTO \"users\" VALUES ((INSERT INTO \"users\" DEFAULT VALUES RETURNING id))"
    );
}

#[test]
fn insert_rendered_twice_is_the_same() {
    let q = insert()
        .cols(&[Users::A, Users::B])
        .value(AnyNode::Param(Param::of(23)))
        .value(raw("2"))
        .returning(raw("id"));
    let first = to_sql(&q).unwrap();
    let second = to_sql(&q).unwrap();
    assert_eq!(first.0, "INSERT INTO \"users\" (\"a\", \"b\") VALUES ($1, 2) RETURNING id");
    assert_eq!(first.0, second.0);
    assert_eq!(first.1.len(), second.1.len());
}

#[test]
fn insert_fails_when_the_sink_is_full() {
    let q = insert().cols(&[Users::A, Users::B]).values(vec![raw("1"), raw("2")]);
    let whole = "INSERT INTO \"users\" (\"a\", \"b\") VALUES (1, 2)";
    let mut limit: usize = 0;
    while limit < whole.len() {
        let mut w = Sink::with_limit(limit);
        let mut t = Collector::new();
        assert_eq!(q.collect(&mut w, &mut t), Err(SinkError));
        assert!(whole.starts_with(w.as_str()));
        limit += 1;
    }
    let mut w = Sink::with_limit(whole.len());
    let mut t = Collector::new();
    assert_eq!(q.collect(&mut w, &mut t), Ok(()));
    assert_eq!(w.as_str(), whole);
}

#[test]
fn insert_into_a_sink_without_room_writes_nothing() {
    let q = insert().cols(&[Users::A]).value(raw("1")).returning(raw("id"));
    let mut w = Sink::with_limit(0);
    let mut t = Collector::new();
    assert_eq!(q.collect(&mut w, &mut t), Err(SinkError));
    assert_eq!(w.as_str(), "");
}

#[test]
fn insert_stops_at_the_write_that_is_refused() {
    let q = insert().value(AnyNode::Param(Param::of(23))).returning(AnyNode::Param(Param::of(25)));
    let mut w = Sink::with_limit(23);
    let mut t = Collector::new();
    assert_eq!(q.collect(&mut w, &mut t), Err(SinkError));
    assert_eq!(w.as_str(), "INSERT INTO \"users\"");
    assert_eq!(t.len(), 0);
}

#[test]
fn table_reference_renders_the_table() {
    let r = TableRef::<Users>::new();
    assert!(!r.needs_wrapping());
    assert_eq!(sql(&r), "\"users\"");
}

#[test]
fn delimited_list_of_nothing_is_empty() {
    let mut w = Sink::new();
    let mut t = Collector::new();
    let none: Vec<Raw> = Vec::new();
    collect_delimited(&none, true, ", ", &mut w, &mut t).unwrap();
    assert_eq!(w.as_str(), "");
    collect_delimited(&none, false, ", ", &mut w, &mut t).unwrap();
    assert_eq!(w.as_str(), "");
}

#[test]
fn delimited_list_with_and_without_parentheses() {
    let items = vec![Raw::new("a"), Raw::new("b"), Raw::new("c")];
    let mut w = Sink::new();
    let mut t = Collector::new();
    collect_delimited(&items, true, ", ", &mut w, &mut t).unwrap();
    assert_eq!(w.as_str(), "(a, b, c)");
    let mut w = Sink::new();
    collect_delimited(&items, false, " AND ", &mut w, &mut t).unwrap();
    assert_eq!(w.as_str(), "a AND b AND c");
}

#[test]
fn delimited_list_of_one() {
    let items = vec![Raw::new("a").not()];
    let mut w = Sink::new();
    let mut t = Collector::new();
    collect_delimited(&items, true, ", ", &mut w, &mut t).unwrap();
    assert_eq!(w.as_str(), "((!a))");
    let mut w = Sink::new();
    collect_delimited(&items, false, ", ", &mut w, &mut t).unwrap();
    assert_eq!(w.as_str(), "(!a)");
}
