//! Expressions: the nodes that stand where SQL expects a value.

pub mod binary;
pub mod param;
pub mod unary;
pub mod util;

use crate::collect::{emit, Collectable, Collector, Rendering};
use crate::expr::param::Param;
use crate::sink::{Sink, SinkError};
use vstd::prelude::*;

verus! {

/// A node that can stand where SQL expects an expression.
pub trait Expr: Collectable {

}

/// An expression that can stand in a list of values.
pub trait ValueExpr: Expr {

}

/// A piece of SQL taken as it is written: a column, a number, a keyword.
pub struct Raw {
    sql: String,
}

impl Raw {
    /// The text of the leaf.
    pub closed spec fn sql(&self) -> Seq<char> {
        self.sql@
    }

    /// A leaf that renders as `sql`.
    pub fn new(sql: &str) -> (leaf: Raw)
        ensures
            leaf.sql() == sql@,
    {
        Raw { sql: String::from_str(sql) }
    }
}

impl Collectable for Raw {
    open spec fn wraps(&self) -> bool {
        false
    }

    open spec fn well_formed(&self) -> bool {
        true
    }

    open spec fn plan(&self, ctx: Seq<u32>) -> Rendering {
        Rendering::start(ctx).write(self.sql())
    }

    fn needs_wrapping(&self) -> (b: bool) {
        false
    }

    fn is_well_formed(&self) -> (b: bool) {
        true
    }

    fn collect(&self, w: &mut Sink, t: &mut Collector) -> (r: Result<(), SinkError>) {
        emit(w, t, self.sql.as_str())
    }
}

impl Expr for Raw {

}

impl ValueExpr for Raw {

}

/// An owned node of any kind, for the places where a statement holds nodes
/// of several types side by side.
///
/// A leaf is held as it is, and what is known of the leaf is known of the
/// handle. Any other node is held in a box, made where the node is at hand:
/// `AnyNode::Boxed(Box::new(node))`. The handle renders as the node does and
/// asks for parentheses where the node does, but of a box by itself nothing
/// is known but what holds of every node.
pub enum AnyNode {
    /// A piece of SQL.
    Raw(Raw),
    /// A parameter.
    Param(Param),
    /// A node of any other kind.
    Boxed(Box<dyn Collectable>),
}

impl Collectable for AnyNode {
    open spec fn wraps(&self) -> bool {
        match self {
            AnyNode::Raw(node) => node.wraps(),
            AnyNode::Param(node) => node.wraps(),
            AnyNode::Boxed(node) => node.wraps(),
        }
    }

    open spec fn well_formed(&self) -> bool {
        match self {
            AnyNode::Raw(node) => node.well_formed(),
            AnyNode::Param(node) => node.well_formed(),
            AnyNode::Boxed(node) => node.well_formed(),
        }
    }

    open spec fn plan(&self, ctx: Seq<u32>) -> Rendering {
        match self {
            AnyNode::Raw(node) => node.plan(ctx),
            AnyNode::Param(node) => node.plan(ctx),
            AnyNode::Boxed(node) => node.plan(ctx),
        }
    }

    fn needs_wrapping(&self) -> (b: bool) {
        match self {
            AnyNode::Raw(node) => node.needs_wrapping(),
            AnyNode::Param(node) => node.needs_wrapping(),
            AnyNode::Boxed(node) => node.needs_wrapping(),
        }
    }

    fn is_well_formed(&self) -> (b: bool) {
        match self {
            AnyNode::Raw(node) => node.is_well_formed(),
            AnyNode::Param(node) => node.is_well_formed(),
            AnyNode::Boxed(node) => node.is_well_formed(),
        }
    }

    fn collect(&self, w: &mut Sink, t: &mut Collector) -> (r: Result<(), SinkError>) {
        match self {
            AnyNode::Raw(node) => node.collect(w, t),
            AnyNode::Param(node) => node.collect(w, t),
            AnyNode::Boxed(node) => node.collect(w, t),
        }
    }
}

impl Expr for AnyNode {

}

impl ValueExpr for AnyNode {

}

} // verus!
