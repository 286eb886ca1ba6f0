use sqltree::expr::param::decimal_string;
use sqltree::{
    to_sql, AnyNode, BinaryExt, BinaryOp, Collectable, Collector, Param, Raw, Sink, SinkError,
    UnaryExt, UnaryOp,
};

fn sql<C: Collectable>(node: &C) -> String {
    to_sql(node).unwrap().0
}

fn a() -> Raw {
    Raw::new("a")
}

fn b() -> Raw {
    Raw::new("b")
}

#[test]
fn binary_tokens_arithmetic() {
    assert_eq!(sql(&a().add(b())), "a + b");
    assert_eq!(sql(&a().sub(b())), "a - b");
    assert_eq!(sql(&a().mul(b())), "a * b");
    assert_eq!(sql(&a().div(b())), "a / b");
    assert_eq!(sql(&a().rem(b())), "a % b");
    assert_eq!(sql(&a().power(b())), "a ^ b");
}

#[test]
fn binary_tokens_bitwise() {
    assert_eq!(sql(&a().bit_and(b())), "a & b");
    assert_eq!(sql(&a().bit_or(b())), "a | b");
    assert_eq!(sql(&a().bit_xor(b())), "a # b");
    assert_eq!(sql(&a().bitshift_left(b())), "a << b");
    assert_eq!(sql(&a().bitshift_right(b())), "a >> b");
}

#[test]
fn binary_tokens_comparison_and_logic() {
    assert_eq!(sql(&a().is_distinct_from(b())), "a IS DISTINCT FROM b");
    assert_eq!(sql(&a().is_not_distinct_from(b())), "a IS NOT DISTINCT FROM b");
    assert_eq!(sql(&a().concat(b())), "a || b");
    assert_eq!(sql(&a().and(b())), "a AND b");
    assert_eq!(sql(&a().or(b())), "a OR b");
}

#[test]
fn unary_tokens() {
    assert_eq!(sql(&a().not()), "!a");
    assert_eq!(sql(&a().neg()), "0 - a");
    assert_eq!(sql(&a().bit_not()), "~a");
    assert_eq!(sql(&a().abs()), "@a");
    assert_eq!(sql(&a().square_root()), "|/a");
    assert_eq!(sql(&a().cube_root()), "||/a");
}

#[test]
fn operator_token_tables() {
    assert_eq!(BinaryOp::Add.token(), "+");
    assert_eq!(BinaryOp::BitXor.token(), "#");
    assert_eq!(BinaryOp::IsNotDistinctFrom.token(), "IS NOT DISTINCT FROM");
    assert_eq!(BinaryOp::Concat.token(), "||");
    assert_eq!(UnaryOp::Neg.token(), "0 - ");
    assert_eq!(UnaryOp::Cbrt.token(), "||/");
}

#[test]
fn nested_left_operand_is_wrapped() {
    assert_eq!(sql(&a().add(b()).mul(Raw::new("c"))), "(a + b) * c");
}

#[test]
fn nested_right_operand_is_wrapped() {
    assert_eq!(sql(&a().add(b().mul(Raw::new("c")))), "a + (b * c)");
}

#[test]
fn triple_nesting_wraps_each_level_once() {
    let e = a().add(b()).mul(Raw::new("c")).sub(Raw::new("d"));
    assert_eq!(sql(&e), "((a + b) * c) - d");
}

#[test]
fn precedence_is_never_used_to_drop_parentheses() {
    let e = a().mul(b()).add(Raw::new("c"));
    assert_eq!(sql(&e), "(a * b) + c");
}

#[test]
fn unary_over_composite_wraps_operand() {
    assert_eq!(sql(&a().and(b()).not()), "!(a AND b)");
    assert_eq!(sql(&a().neg().neg()), "0 - (0 - a)");
    assert_eq!(sql(&a().abs().add(b().square_root())), "(@a) + (|/b)");
}

#[test]
fn needs_wrapping_of_each_kind() {
    assert!(!a().needs_wrapping());
    assert!(!Param::of(23).needs_wrapping());
    assert!(a().add(b()).needs_wrapping());
    assert!(a().not().needs_wrapping());
    assert!(!AnyNode::Boxed(Box::new(a())).needs_wrapping());
    assert!(AnyNode::Boxed(Box::new(a().add(b()))).needs_wrapping());
}

#[test]
fn any_node_renders_as_what_it_holds() {
    let node = AnyNode::Boxed(Box::new(a().add(b())));
    assert_eq!(sql(&node), "a + b");
    assert_eq!(sql(&node.mul(Raw::new("c"))), "(a + b) * c");
}

#[test]
fn any_node_holds_leaves_as_they_are() {
    assert!(!AnyNode::Raw(a()).needs_wrapping());
    assert!(!AnyNode::Param(Param::of(23)).needs_wrapping());
    let e = AnyNode::Raw(a()).add(AnyNode::Param(Param::of(23)));
    let (text, t) = to_sql(&e).unwrap();
    assert_eq!(text, "a + $1");
    assert_eq!(t.type_of(1), Some(23));
}

#[test]
fn wrapping_dispatch() {
    let mut w = Sink::new();
    let mut t = Collector::new();
    a()._collect(&mut w, &mut t).unwrap();
    assert_eq!(w.as_str(), "a");
    a().add(b())._collect(&mut w, &mut t).unwrap();
    assert_eq!(w.as_str(), "a(a + b)");
}

#[test]
fn params_are_numbered_in_the_order_of_the_walk() {
    let e = Param::of(23).add(Param::of(25)).mul(Param::of(16));
    let (text, t) = to_sql(&e).unwrap();
    assert_eq!(text, "($1 + $2) * $3");
    assert_eq!(t.len(), 3);
    assert_eq!(t.type_of(1), Some(23));
    assert_eq!(t.type_of(2), Some(25));
    assert_eq!(t.type_of(3), Some(16));
    assert_eq!(t.type_of(0), None);
    assert_eq!(t.type_of(4), None);
}

#[test]
fn params_go_on_from_the_context_given() {
    let mut w = Sink::new();
    let mut t = Collector::new();
    for _ in 0..9 {
        t.push(20);
    }
    Param::of(23).add(Param::of(25)).collect(&mut w, &mut t).unwrap();
    assert_eq!(w.as_str(), "$10 + $11");
    assert_eq!(t.len(), 11);
}

#[test]
fn collector_counts_from_one() {
    let mut t = Collector::default();
    assert_eq!(t.len(), 0);
    assert_eq!(t.push(7), 1);
    assert_eq!(t.push(8), 2);
    assert_eq!(t.type_of(2), Some(8));
}

#[test]
fn decimal_strings() {
    assert_eq!(decimal_string(0), "0");
    assert_eq!(decimal_string(7), "7");
    assert_eq!(decimal_string(9), "9");
    assert_eq!(decimal_string(10), "10");
    assert_eq!(decimal_string(109), "109");
    assert_eq!(decimal_string(12345), "12345");
    assert_eq!(decimal_string(usize::MAX), usize::MAX.to_string());
}

#[test]
fn rendering_twice_gives_the_same_text() {
    let e = Param::of(1).add(a()).neg().or(b().cube_root());
    let first = to_sql(&e).unwrap();
    let second = to_sql(&e).unwrap();
    assert_eq!(first.0, "(0 - ($1 + a)) OR (||/b)");
    assert_eq!(first.0, second.0);
    assert_eq!(first.1.len(), second.1.len());
}

#[test]
fn sink_without_bound_takes_everything() {
    let mut w = Sink::new();
    assert_eq!(w.remaining(), None);
    assert_eq!(w.write_str("hello"), Ok(()));
    assert_eq!(w.write_str(""), Ok(()));
    assert_eq!(w.write_str(" world"), Ok(()));
    assert_eq!(w.as_str(), "hello world");
    assert_eq!(w.remaining(), None);
    assert_eq!(w.into_string(), "hello world");
}

#[test]
fn sink_with_limit_refuses_what_does_not_fit() {
    let mut w = Sink::with_limit(5);
    assert_eq!(w.remaining(), Some(5));
    assert_eq!(w.write_str("abc"), Ok(()));
    assert_eq!(w.remaining(), Some(2));
    assert_eq!(w.write_str("def"), Err(SinkError));
    assert_eq!(w.as_str(), "abc");
    assert_eq!(w.remaining(), Some(2));
    assert_eq!(w.write_str("de"), Ok(()));
    assert_eq!(w.remaining(), Some(0));
    assert_eq!(w.write_str(""), Ok(()));
    assert_eq!(w.write_str("f"), Err(SinkError));
    assert_eq!(w.as_str(), "abcde");
}

#[test]
fn sink_counts_characters() {
    let mut w = Sink::with_limit(2);
    assert_eq!(w.write_str("éß"), Ok(()));
    assert_eq!(w.remaining(), Some(0));
    assert_eq!(w.as_str(), "éß");
}

#[test]
fn render_fails_when_the_sink_is_full() {
    let e = a().add(b());
    let mut w = Sink::with_limit(4);
    let mut t = Collector::new();
    assert_eq!(e.collect(&mut w, &mut t), Err(SinkError));
    assert!("a + b".starts_with(w.as_str()));
}

#[test]
fn render_succeeds_when_the_text_just_fits() {
    let e = a().add(b());
    let mut w = Sink::with_limit(5);
    let mut t = Collector::new();
    assert_eq!(e.collect(&mut w, &mut t), Ok(()));
    assert_eq!(w.as_str(), "a + b");
    assert_eq!(w.remaining(), Some(0));
}

#[test]
fn wrapped_render_counts_its_parentheses() {
    let e = a().add(b());
    let mut w = Sink::with_limit(6);
    let mut t = Collector::new();
    assert_eq!(e._collect(&mut w, &mut t), Err(SinkError));
    let mut w = Sink::with_limit(7);
    assert_eq!(e._collect(&mut w, &mut t), Ok(()));
    assert_eq!(w.as_str(), "(a + b)");
}

#[test]
fn render_appends_to_what_the_sink_holds() {
    let mut w = Sink::new();
    let mut t = Collector::new();
    w.write_str("SELECT ").unwrap();
    a().not().collect(&mut w, &mut t).unwrap();
    assert_eq!(w.as_str(), "SELECT !a");
}

#[test]
fn expressions_over_leaves_are_well_formed() {
    assert!(a().is_well_formed());
    assert!(Param::of(23).is_well_formed());
    assert!(a().add(b()).is_well_formed());
    assert!(a().add(b()).neg().is_well_formed());
    assert!(AnyNode::Raw(a()).is_well_formed());
    assert!(AnyNode::Param(Param::of(23)).is_well_formed());
    assert!(AnyNode::Boxed(Box::new(a().or(b()))).is_well_formed());
}

#[test]
fn render_into_a_sink_without_room_writes_nothing() {
    let e = a().add(b());
    let mut w = Sink::with_limit(0);
    let mut t = Collector::new();
    assert_eq!(e.collect(&mut w, &mut t), Err(SinkError));
    assert_eq!(w.as_str(), "");
    assert_eq!(w.remaining(), Some(0));
}

#[test]
fn unary_whose_prefix_is_refused_renders_no_operand() {
    let e = Param::of(23).cube_root();
    let mut w = Sink::with_limit(2);
    let mut t = Collector::new();
    assert_eq!(e.collect(&mut w, &mut t), Err(SinkError));
    assert_eq!(w.as_str(), "");
    assert_eq!(w.remaining(), Some(2));
    assert_eq!(t.len(), 0);
}

#[test]
fn failed_render_never_holds_more_than_the_sink_had_room_for() {
    let e = a().is_not_distinct_from(b()).not();
    let whole = "!(a IS NOT DISTINCT FROM b)";
    let mut limit: usize = 0;
    while limit < whole.len() {
        let mut w = Sink::with_limit(limit);
        let mut t = Collector::new();
        assert_eq!(e.collect(&mut w, &mut t), Err(SinkError));
        assert!(w.as_str().len() <= limit);
        assert!(whole.starts_with(w.as_str()));
        assert_eq!(w.remaining(), Some(limit - w.as_str().len()));
        limit += 1;
    }
}
