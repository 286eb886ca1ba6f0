//! Typed SQL expression trees and statements that render themselves as text.
//!
//! A query is assembled from small nodes. Every node implements
//! [`Collectable`]: it writes its SQL into a [`Sink`] while a [`Collector`]
//! is threaded through the whole walk, and it tells its parent whether it has
//! to be put in parentheses. What a node writes is fixed by its `plan`, a
//! specification function from the context the walk arrives with to the text
//! it emits and the context it leaves with.
//!
//! A render fails only where the sink refuses a write. A statement that is
//! put together wrongly is not well formed; that is asked of a node before it
//! is rendered, and a render takes well-formed nodes only.
//!
//! No node knows the precedence of an operator. A node that is made of other
//! nodes asks for parentheses wherever it stands inside another node, so the
//! text always groups as the tree does.

pub mod collect;
pub mod expr;
pub mod laws;
pub mod query;
pub mod sink;
pub mod table;
pub mod walk;

pub use collect::{to_sql, Collectable, Collector, Rendering};
pub use expr::binary::{BinaryExpr, BinaryExt, BinaryOp};
pub use expr::param::Param;
pub use expr::unary::{UnaryExpr, UnaryExt, UnaryOp};
pub use expr::util::collect_delimited;
pub use expr::{AnyNode, Expr, Raw, ValueExpr};
pub use query::insert::InsertQuery;
pub use sink::{Sink, SinkError};
pub use table::{Table, TableRef};
