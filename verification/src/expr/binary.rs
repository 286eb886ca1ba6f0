//! Operators with two operands.

use crate::collect::{placed, Collectable, Collector, Rendering};
use crate::expr::Expr;
use crate::sink::{Sink, SinkError};
use crate::walk::{begin, collect_next, write_next};
use vstd::prelude::*;

verus! {

broadcast use crate::walk::group_extends;

/// The operators that stand between two operands.
#[derive(Debug, Clone, Copy, PartialEq, Eq, Hash)]
pub enum BinaryOp {
    Add,
    Sub,
    Mul,
    Div,
    Rem,
    Power,
    BitAnd,
    BitOr,
    BitXor,
    BitshiftLeft,
    BitshiftRight,
    IsDistinctFrom,
    IsNotDistinctFrom,
    Concat,
    LogicalAnd,
    LogicalOr,
}

impl BinaryOp {
    /// The token the operator is written with.
    pub open spec fn symbol(self) -> Seq<char> {
        match self {
            BinaryOp::Add => "+"@,
            BinaryOp::Sub => "-"@,
            BinaryOp::Mul => "*"@,
            BinaryOp::Div => "/"@,
            BinaryOp::Rem => "%"@,
            BinaryOp::Power => "^"@,
            BinaryOp::BitAnd => "&"@,
            BinaryOp::BitOr => "|"@,
            BinaryOp::BitXor => "#"@,
            BinaryOp::BitshiftLeft => "<<"@,
            BinaryOp::BitshiftRight => ">>"@,
            BinaryOp::IsDistinctFrom => "IS DISTINCT FROM"@,
            BinaryOp::IsNotDistinctFrom => "IS NOT DISTINCT FROM"@,
            BinaryOp::Concat => "||"@,
            BinaryOp::LogicalAnd => "AND"@,
            BinaryOp::LogicalOr => "OR"@,
        }
    }

    /// The token the operator is written with.
    pub fn token(self) -> (s: &'static str)
        ensures
            s@ == self.symbol(),
    {
        match self {
            BinaryOp::Add => "+",
            BinaryOp::Sub => "-",
            BinaryOp::Mul => "*",
            BinaryOp::Div => "/",
            BinaryOp::Rem => "%",
            BinaryOp::Power => "^",
            BinaryOp::BitAnd => "&",
            BinaryOp::BitOr => "|",
            BinaryOp::BitXor => "#",
            BinaryOp::BitshiftLeft => "<<",
            BinaryOp::BitshiftRight => ">>",
            BinaryOp::IsDistinctFrom => "IS DISTINCT FROM",
            BinaryOp::IsNotDistinctFrom => "IS NOT DISTINCT FROM",
            BinaryOp::Concat => "||",
            BinaryOp::LogicalAnd => "AND",
            BinaryOp::LogicalOr => "OR",
        }
    }
}

/// No two operators are written alike.
pub proof fn lemma_tokens_differ(a: BinaryOp, b: BinaryOp)
    requires
        a != b,
    ensures
        a.symbol() != b.symbol(),
{
    reveal_strlit("+");
    reveal_strlit("-");
    reveal_strlit("*");
    reveal_strlit("/");
    reveal_strlit("%");
    reveal_strlit("^");
    reveal_strlit("&");
    reveal_strlit("|");
    reveal_strlit("#");
    reveal_strlit("<<");
    reveal_strlit(">>");
    reveal_strlit("IS DISTINCT FROM");
    reveal_strlit("IS NOT DISTINCT FROM");
    reveal_strlit("||");
    reveal_strlit("AND");
    reveal_strlit("OR");
    assert(a.symbol().len() != b.symbol().len() || a.symbol()[0] != b.symbol()[0]
        || a.symbol()[1] != b.symbol()[1]);
}

/// The builders for binary expressions, on every expression.
pub trait BinaryExt: Expr + Sized {
    /// `self + rhs`: addition.
    #[inline]
    fn add<Rhs>(self, rhs: Rhs) -> (e: BinaryExpr<Self, Rhs>)
        ensures
            e.left() == self,
            e.right() == rhs,
            e.operator() == BinaryOp::Add,
    {
        BinaryExpr { lhs: self, rhs, op: BinaryOp::Add }
    }

    /// `self - rhs`: subtraction.
    #[inline]
    fn sub<Rhs>(self, rhs: Rhs) -> (e: BinaryExpr<Self, Rhs>)
        ensures
            e.left() == self,
            e.right() == rhs,
            e.operator() == BinaryOp::Sub,
    {
        BinaryExpr { lhs: self, rhs, op: BinaryOp::Sub }
    }

    /// `self * rhs`: multiplication.
    #[inline]
    fn mul<Rhs>(self, rhs: Rhs) -> (e: BinaryExpr<Self, Rhs>)
        ensures
            e.left() == self,
            e.right() == rhs,
            e.operator() == BinaryOp::Mul,
    {
        BinaryExpr { lhs: self, rhs, op: BinaryOp::Mul }
    }

    /// `self / rhs`: division.
    #[inline]
    fn div<Rhs>(self, rhs: Rhs) -> (e: BinaryExpr<Self, Rhs>)
        ensures
            e.left() == self,
            e.right() == rhs,
            e.operator() == BinaryOp::Div,
    {
        BinaryExpr { lhs: self, rhs, op: BinaryOp::Div }
    }

    /// `self % rhs`: remainder.
    #[inline]
    fn rem<Rhs>(self, rhs: Rhs) -> (e: BinaryExpr<Self, Rhs>)
        ensures
            e.left() == self,
            e.right() == rhs,
            e.operator() == BinaryOp::Rem,
    {
        BinaryExpr { lhs: self, rhs, op: BinaryOp::Rem }
    }

    /// `self ^ rhs`: exponentiation.
    #[inline]
    fn power<Rhs>(self, rhs: Rhs) -> (e: BinaryExpr<Self, Rhs>)
        ensures
            e.left() == self,
            e.right() == rhs,
            e.operator() == BinaryOp::Power,
    {
        BinaryExpr { lhs: self, rhs, op: BinaryOp::Power }
    }

    /// `self & rhs`: bitwise and.
    #[inline]
    fn bit_and<Rhs>(self, rhs: Rhs) -> (e: BinaryExpr<Self, Rhs>)
        ensures
            e.left() == self,
            e.right() == rhs,
            e.operator() == BinaryOp::BitAnd,
    {
        BinaryExpr { lhs: self, rhs, op: BinaryOp::BitAnd }
    }

    /// `self | rhs`: bitwise or.
    #[inline]
    fn bit_or<Rhs>(self, rhs: Rhs) -> (e: BinaryExpr<Self, Rhs>)
        ensures
            e.left() == self,
            e.right() == rhs,
            e.operator() == BinaryOp::BitOr,
    {
        BinaryExpr { lhs: self, rhs, op: BinaryOp::BitOr }
    }

    /// `self # rhs`: bitwise exclusive or.
    #[inline]
    fn bit_xor<Rhs>(self, rhs: Rhs) -> (e: BinaryExpr<Self, Rhs>)
        ensures
            e.left() == self,
            e.right() == rhs,
            e.operator() == BinaryOp::BitXor,
    {
        BinaryExpr { lhs: self, rhs, op: BinaryOp::BitXor }
    }

    /// `self << rhs`: shift to the left.
    #[inline]
    fn bitshift_left<Rhs>(self, rhs: Rhs) -> (e: BinaryExpr<Self, Rhs>)
        ensures
            e.left() == self,
            e.right() == rhs,
            e.operator() == BinaryOp::BitshiftLeft,
    {
        BinaryExpr { lhs: self, rhs, op: BinaryOp::BitshiftLeft }
    }

    /// `self >> rhs`: shift to the right.
    #[inline]
    fn bitshift_right<Rhs>(self, rhs: Rhs) -> (e: BinaryExpr<Self, Rhs>)
        ensures
            e.left() == self,
            e.right() == rhs,
            e.operator() == BinaryOp::BitshiftRight,
    {
        BinaryExpr { lhs: self, rhs, op: BinaryOp::BitshiftRight }
    }

    /// `self IS DISTINCT FROM rhs`: comparison that takes NULL as a value.
    #[inline]
    fn is_distinct_from<Rhs>(self, rhs: Rhs) -> (e: BinaryExpr<Self, Rhs>)
        ensures
            e.left() == self,
            e.right() == rhs,
            e.operator() == BinaryOp::IsDistinctFrom,
    {
        BinaryExpr { lhs: self, rhs, op: BinaryOp::IsDistinctFrom }
    }

    /// `self IS NOT DISTINCT FROM rhs`: negated comparison that takes NULL as a value.
    #[inline]
    fn is_not_distinct_from<Rhs>(self, rhs: Rhs) -> (e: BinaryExpr<Self, Rhs>)
        ensures
            e.left() == self,
            e.right() == rhs,
            e.operator() == BinaryOp::IsNotDistinctFrom,
    {
        BinaryExpr { lhs: self, rhs, op: BinaryOp::IsNotDistinctFrom }
    }

    /// `self || rhs`: concatenation.
    #[inline]
    fn concat<Rhs>(self, rhs: Rhs) -> (e: BinaryExpr<Self, Rhs>)
        ensures
            e.left() == self,
            e.right() == rhs,
            e.operator() == BinaryOp::Concat,
    {
        BinaryExpr { lhs: self, rhs, op: BinaryOp::Concat }
    }

    /// `self AND rhs`: conjunction.
    #[inline]
    fn and<Rhs>(self, rhs: Rhs) -> (e: BinaryExpr<Self, Rhs>)
        ensures
            e.left() == self,
            e.right() == rhs,
            e.operator() == BinaryOp::LogicalAnd,
    {
        BinaryExpr { lhs: self, rhs, op: BinaryOp::LogicalAnd }
    }

    /// `self OR rhs`: disjunction.
    #[inline]
    fn or<Rhs>(self, rhs: Rhs) -> (e: BinaryExpr<Self, Rhs>)
        ensures
            e.left() == self,
            e.right() == rhs,
            e.operator() == BinaryOp::LogicalOr,
    {
        BinaryExpr { lhs: self, rhs, op: BinaryOp::LogicalOr }
    }
}

impl<T> BinaryExt for T where T: Expr {

}

/// Two operands and the operator between them.
pub struct BinaryExpr<Lhs, Rhs> {
    lhs: Lhs,
    rhs: Rhs,
    op: BinaryOp,
}

impl<Lhs, Rhs> BinaryExpr<Lhs, Rhs> {
    /// The operand on the left.
    pub closed spec fn left(&self) -> Lhs {
        self.lhs
    }

    /// The operand on the right.
    pub closed spec fn right(&self) -> Rhs {
        self.rhs
    }

    /// The operator.
    pub closed spec fn operator(&self) -> BinaryOp {
        self.op
    }
}

impl<Lhs: Expr, Rhs: Expr> Expr for BinaryExpr<Lhs, Rhs> {

}

impl<Lhs: Expr, Rhs: Expr> Collectable for BinaryExpr<Lhs, Rhs> {
    open spec fn wraps(&self) -> bool {
        true
    }

    /// The node has nothing of its own that could be wrong.
    open spec fn well_formed(&self) -> bool {
        self.left().well_formed() && self.right().well_formed()
    }

    /// The left operand, a space, the token, a space, the right operand.
    /// Each operand stands in parentheses if it asks for them, and the right
    /// one is rendered in the context the left one leaves.
    open spec fn plan(&self, ctx: Seq<u32>) -> Rendering {
        Rendering::start(ctx).run(|c: Seq<u32>| placed(&self.left(), c)).write(" "@).write(
            self.operator().symbol(),
        ).write(" "@).run(|c: Seq<u32>| placed(&self.right(), c))
    }

    fn needs_wrapping(&self) -> (b: bool) {
        true
    }

    fn is_well_formed(&self) -> (b: bool) {
        self.lhs.is_well_formed() && self.rhs.is_well_formed()
    }

    fn collect(&self, w: &mut Sink, t: &mut Collector) -> (r: Result<(), SinkError>) {
        let walk = begin(w, t, Ghost(self.plan(t@)));
        let walk = collect_next(&self.lhs, w, t, walk)?;
        let walk = write_next(w, t, " ", walk)?;
        let walk = write_next(w, t, self.op.token(), walk)?;
        let walk = write_next(w, t, " ", walk)?;
        collect_next(&self.rhs, w, t, walk)?;
        Ok(())
    }
}

} // verus!
