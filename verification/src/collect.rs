//! The contract every node of a query satisfies, and the state a render
//! carries along.

use crate::sink::{Sink, SinkError};
use crate::walk::{begin, lemma_enclosed, step_next, write_next};
use vstd::prelude::*;

verus! {

/// The state threaded through one walk over a query: the types of the
/// parameters bound so far, in the order in which the walk met them.
pub struct Collector {
    types: Vec<u32>,
}

impl View for Collector {
    type V = Seq<u32>;

    closed spec fn view(&self) -> Seq<u32> {
        self.types@
    }
}

impl Collector {
    /// A context in which no parameter is bound yet.
    pub fn new() -> (t: Collector)
        ensures
            t@ == Seq::<u32>::empty(),
    {
        Collector { types: Vec::new() }
    }

    /// Binds one more parameter of type `ty` and returns its position,
    /// counted from one.
    pub fn push(&mut self, ty: u32) -> (position: usize)
        ensures
            final(self)@ == old(self)@.push(ty),
            position == old(self)@.len() + 1,
    {
        self.types.push(ty);
        self.types.len()
    }

    /// The number of parameters bound so far.
    pub fn len(&self) -> (n: usize)
        ensures
            n == self@.len(),
    {
        self.types.len()
    }

    /// The type of the parameter at `position`, counted from one.
    pub fn type_of(&self, position: usize) -> (ty: Option<u32>)
        ensures
            ty == if 1 <= position <= self@.len() {
                Some(self@[position - 1])
            } else {
                None
            },
    {
        if 1 <= position && position <= self.types.len() {
            Some(self.types[position - 1])
        } else {
            None
        }
    }
}

impl Default for Collector {
    fn default() -> (t: Collector)
        ensures
            t@ == Seq::<u32>::empty(),
    {
        Collector::new()
    }
}

/// What a render does when the sink takes every write: the text it emits
/// and the context it leaves behind.
pub struct Rendering {
    pub text: Seq<char>,
    pub ctx: Seq<u32>,
}

impl Rendering {
    /// Nothing emitted yet, in context `ctx`.
    pub open spec fn start(ctx: Seq<u32>) -> Rendering {
        Rendering { text: Seq::empty(), ctx }
    }

    /// Then emit `s`.
    pub open spec fn write(self, s: Seq<char>) -> Rendering {
        Rendering { text: self.text + s, ctx: self.ctx }
    }

    /// Then do what `next` does in the context reached.
    pub open spec fn run(self, next: spec_fn(Seq<u32>) -> Rendering) -> Rendering {
        Rendering { text: self.text + next(self.ctx).text, ctx: next(self.ctx).ctx }
    }

    /// The same between parentheses.
    pub open spec fn enclosed(self) -> Rendering {
        Rendering { text: "("@ + self.text + ")"@, ctx: self.ctx }
    }

    /// The same as part of a larger render: between parentheses if `wraps`.
    pub open spec fn dressed(self, wraps: bool) -> Rendering {
        if wraps {
            self.enclosed()
        } else {
            self
        }
    }
}

/// `after` holds what `before` held and the first characters of `text`, no
/// more of them than `before` had room for, and has that much less room.
pub open spec fn stalled(before: Sink, after: Sink, text: Seq<char>) -> bool {
    let n = after@.len() - before@.len();
    &&& 0 <= n <= text.len()
    &&& before.takes(n as nat)
    &&& after@ == before@ + text.take(n)
    &&& after.room() == before.room_after(n as nat)
}

/// A render that was to do `plan` took the sink from `before` to `after`,
/// returned `r`, and left the context `ctx`.
///
/// Where the sink has room for the whole text of the plan, the render
/// succeeded: that text was appended, and the context is the one the plan
/// ends with. Where it has not, the render failed with the error of the
/// sink, having appended some first part of the text.
pub open spec fn rendered(
    plan: Rendering,
    before: Sink,
    r: Result<(), SinkError>,
    after: Sink,
    ctx: Collector,
) -> bool {
    if before.takes(plan.text.len()) {
        &&& r is Ok
        &&& after@ == before@ + plan.text
        &&& after.room() == before.room_after(plan.text.len())
        &&& ctx@ == plan.ctx
    } else {
        &&& r is Err
        &&& stalled(before, after, plan.text)
    }
}

/// A value that renders itself as SQL.
///
/// A render fails only where the sink fails. A node that cannot be rendered
/// at all, because a statement in it is put together wrongly, is not well
/// formed, and is to be found with [`Collectable::is_well_formed`] before it
/// is rendered.
pub trait Collectable {
    /// True if the node has to stand in parentheses inside another node.
    spec fn wraps(&self) -> bool;

    /// True if the node can be rendered: every statement in it is put
    /// together rightly.
    spec fn well_formed(&self) -> bool;

    /// What rendering the node does in context `ctx`.
    spec fn plan(&self, ctx: Seq<u32>) -> Rendering;

    /// Whether a parent has to put this node in parentheses.
    fn needs_wrapping(&self) -> (b: bool)
        ensures
            b == self.wraps(),
    ;

    /// Whether the node can be rendered.
    fn is_well_formed(&self) -> (b: bool)
        ensures
            b == self.well_formed(),
    ;

    /// Writes the node to `w`, without parentheses of its own.
    fn collect(&self, w: &mut Sink, t: &mut Collector) -> (r: Result<(), SinkError>)
        requires
            self.well_formed(),
        ensures
            rendered(self.plan(old(t)@), *old(w), r, *final(w), *final(t)),
    ;

    /// Writes the node to `w` as part of another node: in parentheses if it
    /// needs them.
    fn _collect(&self, w: &mut Sink, t: &mut Collector) -> (r: Result<(), SinkError>)
        requires
            self.well_formed(),
        ensures
            rendered(self.plan(old(t)@).dressed(self.wraps()), *old(w), r, *final(w), *final(t)),
    {
        if !self.needs_wrapping() {
            return self.collect(w, t);
        }
        let ghost inner = self.plan(t@);
        proof {
            broadcast use crate::walk::group_extends;

            lemma_enclosed(inner, t@);
        }
        let walk = begin(w, t, Ghost(inner.enclosed()));
        let walk = write_next(w, t, "(", walk)?;

        let ghost before = (*w, *t);
        let r = self.collect(w, t);
        let walk = step_next(r, w, t, walk, Ghost(|c: Seq<u32>| inner), Ghost(before))?;
        write_next(w, t, ")", walk)?;
        Ok(())
    }
}

/// What rendering a node does as part of another node: the node's own plan,
/// between parentheses if the node asks for them.
pub open spec fn placed<C: Collectable + ?Sized>(node: &C, ctx: Seq<u32>) -> Rendering {
    node.plan(ctx).dressed(node.wraps())
}

/// Writes `s` to `w`.
pub fn emit(w: &mut Sink, t: &Collector, s: &str) -> (r: Result<(), SinkError>)
    ensures
        rendered(Rendering::start(t@).write(s@), *old(w), r, *final(w), *t),
{
    w.write_str(s)
}

/// Renders `node` from a fresh context into a sink without a bound, and
/// returns the text with the context the render left. Returns nothing for a
/// node that is not well formed, and renders nothing of it.
pub fn to_sql<C: Collectable + ?Sized>(node: &C) -> (r: Option<(String, Collector)>)
    ensures
        match r {
            Some((sql, t)) => {
                &&& node.well_formed()
                &&& sql@ == node.plan(Seq::empty()).text
                &&& t@ == node.plan(Seq::empty()).ctx
            },
            None => !node.well_formed(),
        },
{
    if !node.is_well_formed() {
        return None;
    }
    let mut w = Sink::new();
    let mut t = Collector::new();
    match node.collect(&mut w, &mut t) {
        Ok(()) => Some((w.into_string(), t)),
        Err(_) => None,
    }
}

} // verus!
