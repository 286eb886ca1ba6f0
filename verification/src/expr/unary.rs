//! Operators with one operand.

use crate::collect::{placed, Collectable, Collector, Rendering};
use crate::expr::Expr;
use crate::sink::{Sink, SinkError};
use crate::walk::{begin, collect_next, write_next};
use vstd::prelude::*;

verus! {

broadcast use crate::walk::group_extends;

/// The operators that stand before their one operand.
#[derive(Debug, Clone, Copy, PartialEq, Eq, Hash)]
pub enum UnaryOp {
    Not,
    Neg,
    BitNot,
    Abs,
    Sqrt,
    Cbrt,
}

impl UnaryOp {
    /// The text the operator puts before its operand. Negation is written
    /// `0 - `, with the spaces; no other prefix holds a space.
    pub open spec fn symbol(self) -> Seq<char> {
        match self {
            UnaryOp::Not => "!"@,
            UnaryOp::Neg => "0 - "@,
            UnaryOp::BitNot => "~"@,
            UnaryOp::Abs => "@"@,
            UnaryOp::Sqrt => "|/"@,
            UnaryOp::Cbrt => "||/"@,
        }
    }

    /// The text the operator puts before its operand.
    pub fn token(self) -> (s: &'static str)
        ensures
            s@ == self.symbol(),
    {
        match self {
            UnaryOp::Not => "!",
            UnaryOp::Neg => "0 - ",
            UnaryOp::BitNot => "~",
            UnaryOp::Abs => "@",
            UnaryOp::Sqrt => "|/",
            UnaryOp::Cbrt => "||/",
        }
    }
}

/// No two operators are written alike.
pub proof fn lemma_tokens_differ(a: UnaryOp, b: UnaryOp)
    requires
        a != b,
    ensures
        a.symbol() != b.symbol(),
{
    reveal_strlit("!");
    reveal_strlit("0 - ");
    reveal_strlit("~");
    reveal_strlit("@");
    reveal_strlit("|/");
    reveal_strlit("||/");
    assert(a.symbol().len() != b.symbol().len() || a.symbol()[0] != b.symbol()[0]
        || a.symbol()[1] != b.symbol()[1]);
}

/// The builders for unary expressions, on every expression.
pub trait UnaryExt: Expr + Sized {
    /// `!self`: logical negation.
    fn not(self) -> (e: UnaryExpr<Self>)
        ensures
            e.operand() == self,
            e.operator() == UnaryOp::Not,
    {
        UnaryExpr { value: self, op: UnaryOp::Not }
    }

    /// `0 - self`: numeric negation, written as a subtraction from zero.
    fn neg(self) -> (e: UnaryExpr<Self>)
        ensures
            e.operand() == self,
            e.operator() == UnaryOp::Neg,
    {
        UnaryExpr { value: self, op: UnaryOp::Neg }
    }

    /// `~self`: bitwise complement.
    fn bit_not(self) -> (e: UnaryExpr<Self>)
        ensures
            e.operand() == self,
            e.operator() == UnaryOp::BitNot,
    {
        UnaryExpr { value: self, op: UnaryOp::BitNot }
    }

    /// `@self`: absolute value.
    fn abs(self) -> (e: UnaryExpr<Self>)
        ensures
            e.operand() == self,
            e.operator() == UnaryOp::Abs,
    {
        UnaryExpr { value: self, op: UnaryOp::Abs }
    }

    /// `|/self`: square root.
    fn square_root(self) -> (e: UnaryExpr<Self>)
        ensures
            e.operand() == self,
            e.operator() == UnaryOp::Sqrt,
    {
        UnaryExpr { value: self, op: UnaryOp::Sqrt }
    }

    /// `||/self`: cube root.
    fn cube_root(self) -> (e: UnaryExpr<Self>)
        ensures
            e.operand() == self,
            e.operator() == UnaryOp::Cbrt,
    {
        UnaryExpr { value: self, op: UnaryOp::Cbrt }
    }
}

impl<T> UnaryExt for T where T: Expr {

}

/// An operand and the operator before it.
pub struct UnaryExpr<V> {
    value: V,
    op: UnaryOp,
}

impl<V> UnaryExpr<V> {
    /// The operand.
    pub closed spec fn operand(&self) -> V {
        self.value
    }

    /// The operator.
    pub closed spec fn operator(&self) -> UnaryOp {
        self.op
    }
}

impl<V> Expr for UnaryExpr<V> where V: Expr {

}

impl<V> Collectable for UnaryExpr<V> where V: Expr {
    open spec fn wraps(&self) -> bool {
        true
    }

    /// The node has nothing of its own that could be wrong.
    open spec fn well_formed(&self) -> bool {
        self.operand().well_formed()
    }

    /// The prefix, and right behind it the operand, in parentheses if it
    /// asks for them.
    open spec fn plan(&self, ctx: Seq<u32>) -> Rendering {
        Rendering::start(ctx).write(self.operator().symbol()).run(
            |c: Seq<u32>| placed(&self.operand(), c),
        )
    }

    fn collect(&self, w: &mut Sink, t: &mut Collector) -> (r: Result<(), SinkError>) {
        let walk = begin(w, t, Ghost(self.plan(t@)));
        let walk = write_next(w, t, self.op.token(), walk)?;
        collect_next(&self.value, w, t, walk)?;
        Ok(())
    }

    fn needs_wrapping(&self) -> (b: bool) {
        true
    }

    fn is_well_formed(&self) -> (b: bool) {
        self.value.is_well_formed()
    }
}

} // verus!
