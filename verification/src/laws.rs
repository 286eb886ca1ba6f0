//! What holds of every render, stated over the plans of the nodes.

use crate::collect::{placed, rendered, Collectable, Collector, Rendering};
use crate::expr::binary::BinaryExpr;
use crate::expr::unary::{UnaryExpr, UnaryOp};
use crate::expr::util::{all_well_formed, listed};
use crate::expr::{AnyNode, Expr};
use crate::query::insert::{column_clause, names, InsertQuery};
use crate::sink::{Sink, SinkError};
use crate::table::Table;
use vstd::prelude::*;

verus! {

/// A binary node over two operands that ask for no parentheses renders as
/// the left operand, a space, the token of its operator, a space, and the
/// right operand, which is rendered in the context the left one leaves.
pub proof fn lemma_binary_of_leaves<L: Expr, R: Expr>(e: BinaryExpr<L, R>, ctx: Seq<u32>)
    requires
        !e.left().wraps(),
        !e.right().wraps(),
    ensures
        e.plan(ctx).text == e.left().plan(ctx).text + " "@ + e.operator().symbol() + " "@
            + e.right().plan(e.left().plan(ctx).ctx).text,
        e.plan(ctx).ctx == e.right().plan(e.left().plan(ctx).ctx).ctx,
{
}

/// A unary node over an operand that asks for no parentheses renders as the
/// prefix of its operator and, right behind it, the operand.
pub proof fn lemma_unary_of_leaf<V: Expr>(e: UnaryExpr<V>, ctx: Seq<u32>)
    requires
        !e.operand().wraps(),
    ensures
        e.plan(ctx).text == e.operator().symbol() + e.operand().plan(ctx).text,
        e.plan(ctx).ctx == e.operand().plan(ctx).ctx,
        e.operator() == UnaryOp::Neg ==> e.plan(ctx).text == "0 - "@ + e.operand().plan(ctx).text,
{
}

/// A binary node whose left operand is a binary node puts that operand in
/// parentheses, once. The operand's own text says the same of its operands,
/// so every level of a deeper nesting is wrapped once.
pub proof fn lemma_binary_nested_left<A: Expr, B: Expr, R: Expr>(
    e: BinaryExpr<BinaryExpr<A, B>, R>,
    ctx: Seq<u32>,
)
    ensures
        e.plan(ctx).text == "("@ + e.left().plan(ctx).text + ")"@ + " "@ + e.operator().symbol()
            + " "@ + placed(&e.right(), e.left().plan(ctx).ctx).text,
        e.plan(ctx).ctx == placed(&e.right(), e.left().plan(ctx).ctx).ctx,
{
}

/// A binary node can be rendered wherever its operands can: it has nothing
/// of its own that could be wrong.
pub proof fn lemma_binary_well_formed<L: Expr, R: Expr>(e: BinaryExpr<L, R>)
    ensures
        e.well_formed() <==> e.left().well_formed() && e.right().well_formed(),
{
}

/// A unary node can be rendered wherever its operand can.
pub proof fn lemma_unary_well_formed<V: Expr>(e: UnaryExpr<V>)
    ensures
        e.well_formed() <==> e.operand().well_formed(),
{
}

/// An INSERT without columns, values, returned expression or clause before
/// it is well formed, and renders as `INSERT INTO `, the table and
/// ` DEFAULT VALUES`.
pub proof fn lemma_insert_default_values<T: Table>(q: InsertQuery<T>, ctx: Seq<u32>)
    requires
        q.prefix() is None,
        q.columns().len() == 0,
        q.row().len() == 0,
        q.returned() is None,
    ensures
        q.well_formed(),
        q.plan(ctx).text == "INSERT INTO "@ + T::table_text() + " DEFAULT VALUES"@,
        q.plan(ctx).ctx == ctx,
{
}

/// An INSERT of two values into two columns, with nothing else to it, is
/// well formed if the values are, and renders as `INSERT INTO `, the table,
/// the two quoted names between parentheses, ` VALUES ` and the two values
/// between parentheses.
pub proof fn lemma_insert_two_columns<T: Table>(q: InsertQuery<T>, ctx: Seq<u32>)
    requires
        q.prefix() is None,
        q.columns().len() == 2,
        q.row().len() == 2,
        q.returned() is None,
    ensures
        q.well_formed() <==> q.row()[0].well_formed() && q.row()[1].well_formed(),
        q.plan(ctx).text == "INSERT INTO "@ + T::table_text() + " (\""@
            + q.columns()[0].name_text() + "\", \""@ + q.columns()[1].name_text() + "\")"@
            + " VALUES "@ + "("@ + placed(&q.row()[0], ctx).text + ", "@ + placed(
            &q.row()[1],
            placed(&q.row()[0], ctx).ctx,
        ).text + ")"@,
        q.plan(ctx).ctx == placed(&q.row()[1], placed(&q.row()[0], ctx).ctx).ctx,
{
    reveal_with_fuel(names, 3);
    reveal_with_fuel(listed, 3);
}

/// An INSERT is misshapen exactly where it names columns and gives values,
/// but not as many of one as of the other. A misshapen INSERT is not well
/// formed, so no render takes it and nothing of it is ever emitted. Where
/// all that the statement holds is well formed, it is well formed itself if
/// and only if it is not misshapen.
pub proof fn lemma_insert_misshapen<T: Table>(q: InsertQuery<T>)
    ensures
        q.misshapen() <==> q.columns().len() != 0 && q.row().len() != 0 && q.columns().len()
            != q.row().len(),
        q.misshapen() ==> !q.well_formed(),
        ({
            &&& q.prefix() matches Some(prefix) ==> prefix.well_formed()
            &&& all_well_formed(q.row())
            &&& q.returned() matches Some(expr) ==> expr.well_formed()
        }) ==> (q.well_formed() <==> !q.misshapen()),
{
}

/// A returned expression adds ` RETURNING ` and the expression behind what
/// the statement renders without it, whatever the columns and values are.
pub proof fn lemma_insert_returning<T: Table>(
    with: InsertQuery<T>,
    without: InsertQuery<T>,
    expr: AnyNode,
    ctx: Seq<u32>,
)
    requires
        with.returned() == Some(expr),
        without.returned() is None,
        with.prefix() == without.prefix(),
        with.columns() == without.columns(),
        with.row() == without.row(),
    ensures
        with.plan(ctx).text == without.plan(ctx).text + " RETURNING "@ + placed(
            &expr,
            without.plan(ctx).ctx,
        ).text,
        with.plan(ctx).ctx == placed(&expr, without.plan(ctx).ctx).ctx,
        with.well_formed() <==> without.well_formed() && expr.well_formed(),
{
}

/// A render only adds to the sink, whether it succeeds or fails: what the
/// sink held stays, what is added is how the text of the plan begins, and no
/// more is added than the sink had room for. A render that succeeds has added
/// the whole text.
pub proof fn lemma_render_appends(
    plan: Rendering,
    before: Sink,
    r: Result<(), SinkError>,
    after: Sink,
    ctx: Collector,
)
    requires
        rendered(plan, before, r, after, ctx),
    ensures
        before@.is_prefix_of(after@),
        after@.subrange(before@.len() as int, after@.len() as int).is_prefix_of(plan.text),
        before.takes((after@.len() - before@.len()) as nat),
        r is Ok <==> before.takes(plan.text.len()),
        r is Ok ==> after@ == before@ + plan.text,
{
}

/// A render into a sink that has no room left fails and adds nothing, unless
/// it has nothing to write.
pub proof fn lemma_render_into_full_sink(
    plan: Rendering,
    before: Sink,
    r: Result<(), SinkError>,
    after: Sink,
    ctx: Collector,
)
    requires
        rendered(plan, before, r, after, ctx),
        before.room() == Some(0nat),
    ensures
        after@ == before@,
        r is Err <==> plan.text.len() > 0,
{
}

/// Two renders of one node, from contexts that hold the same and into sinks
/// that hold the same and have the same room, succeed alike or fail alike.
/// Where the sink has room for the text they leave the same text and
/// contexts that hold the same.
///
/// Each render is given as the sink and the context it began with, its
/// result, and the sink and the context it left.
pub proof fn lemma_render_repeats<C: Collectable + ?Sized>(
    node: &C,
    first: (Sink, Collector, Result<(), SinkError>, Sink, Collector),
    second: (Sink, Collector, Result<(), SinkError>, Sink, Collector),
)
    requires
        rendered(node.plan(first.1@), first.0, first.2, first.3, first.4),
        rendered(node.plan(second.1@), second.0, second.2, second.3, second.4),
        first.0@ == second.0@,
        first.0.room() == second.0.room(),
        first.1@ == second.1@,
    ensures
        first.2 is Ok <==> second.2 is Ok,
        first.2 is Ok ==> first.3@ == second.3@ && first.4@ == second.4@,
{
}

} // verus!
