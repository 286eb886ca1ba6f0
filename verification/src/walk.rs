//! Carrying a render out step by step.
//!
//! A node proves that it renders as its plan says by walking the plan: it
//! begins a [`Walk`] for the whole plan and hands it from step to step. Each
//! step accounts for one write or one node, and a step that fails has failed
//! the render as a whole, so that `?` may follow it.
//!
//! A step asks that what is done with it still leads to the whole plan. With
//! `group_extends` in scope that is found by taking the plan apart, write by
//! write.

use crate::collect::{emit, placed, rendered, Collectable, Collector, Rendering};
use crate::sink::{Sink, SinkError};
use vstd::prelude::*;

verus! {

/// `later` goes on where `earlier` is: its text begins with the text of
/// `earlier`.
pub closed spec fn extends(earlier: Rendering, later: Rendering) -> bool {
    earlier.text.is_prefix_of(later.text)
}

/// Every render goes on where it is.
pub broadcast proof fn lemma_extends_self(a: Rendering)
    ensures
        #[trigger] extends(a, a),
{
}

/// What goes on with a write goes on.
pub broadcast proof fn lemma_extends_write(a: Rendering, b: Rendering, s: Seq<char>)
    requires
        extends(a, b),
    ensures
        #[trigger] extends(a, b.write(s)),
{
}

/// What goes on with a render of its own goes on.
pub broadcast proof fn lemma_extends_run(
    a: Rendering,
    b: Rendering,
    next: spec_fn(Seq<u32>) -> Rendering,
)
    requires
        extends(a, b),
    ensures
        #[trigger] extends(a, b.run(next)),
{
}

/// A render goes on in every render whose text begins with its text.
pub proof fn lemma_extends_text(a: Rendering, b: Rendering)
    requires
        a.text.is_prefix_of(b.text),
    ensures
        extends(a, b),
{
}

/// Where `b` goes on from `a` and `c` from `b`, `c` goes on from `a`.
pub proof fn lemma_extends_both(a: Rendering, b: Rendering, c: Rendering)
    requires
        extends(a, b),
        extends(b, c),
    ensures
        extends(a, c),
{
}

/// How a plan is taken apart to see that it goes on from a part of itself.
pub broadcast group group_extends {
    lemma_extends_self,
    lemma_extends_write,
    lemma_extends_run,
}

/// Where a render stands: the sink it began with, what it is to do in all,
/// and what it has done of that.
pub struct Walk {
    pub from: Sink,
    pub whole: Rendering,
    pub done: Rendering,
}

impl Walk {
    /// The render has brought the sink to `w` and the context to `t`, and
    /// no step has failed.
    pub open spec fn at(self, w: Sink, t: Collector) -> bool {
        rendered(self.done, self.from, Ok(()), w, t)
    }

    /// The state once `s` is written.
    pub open spec fn wrote(self, s: Seq<char>) -> Walk {
        Walk { from: self.from, whole: self.whole, done: self.done.write(s) }
    }

    /// The state once `next` has run.
    pub open spec fn ran(self, next: spec_fn(Seq<u32>) -> Rendering) -> Walk {
        Walk { from: self.from, whole: self.whole, done: self.done.run(next) }
    }
}

/// Begins a render that is to do `whole`.
pub fn begin(w: &Sink, t: &Collector, Ghost(whole): Ghost<Rendering>) -> (walk: Ghost<Walk>)
    ensures
        walk@ == (Walk { from: *w, whole, done: Rendering::start(t@) }),
        walk@.at(*w, *t),
{
    proof {
        lemma_start(*w, *t);
    }
    Ghost(Walk { from: *w, whole, done: Rendering::start(t@) })
}

/// Writes `s` as the next step of a render. Where the write fails, the
/// render as a whole has failed.
pub fn write_next(w: &mut Sink, t: &Collector, s: &str, Ghost(walk): Ghost<Walk>) -> (r: Result<
    Ghost<Walk>,
    SinkError,
>)
    requires
        walk.at(*old(w), *t),
        extends(walk.done.write(s@), walk.whole),
    ensures
        match r {
            Ok(next) => next@ == walk.wrote(s@) && next@.at(*final(w), *t),
            Err(e) => rendered(walk.whole, walk.from, Err(e), *final(w), *t),
        },
{
    let ghost before = *w;
    let r = emit(w, t, s);
    proof {
        lemma_write(walk.done, s@, walk.from, before, *t, r, *w, *t);
    }
    match r {
        Ok(()) => Ok(Ghost(walk.wrote(s@))),
        Err(e) => {
            proof {
                lemma_stopped(walk.done.write(s@), walk.whole, walk.from, e, *w, *t);
            }
            Err(e)
        },
    }
}

/// Takes a render of its own, which went from the sink and the context
/// `before` to `w` and `t` with the result `r`, as the next step of a render.
/// Where that render failed, the render as a whole has failed.
pub fn step_next(
    r: Result<(), SinkError>,
    w: &Sink,
    t: &Collector,
    Ghost(walk): Ghost<Walk>,
    Ghost(next): Ghost<spec_fn(Seq<u32>) -> Rendering>,
    Ghost(before): Ghost<(Sink, Collector)>,
) -> (out: Result<Ghost<Walk>, SinkError>)
    requires
        walk.at(before.0, before.1),
        rendered(next(before.1@), before.0, r, *w, *t),
        extends(walk.done.run(next), walk.whole),
    ensures
        match out {
            Ok(after) => r is Ok && after@ == walk.ran(next) && after@.at(*w, *t),
            Err(e) => r == Err::<(), SinkError>(e) && rendered(
                walk.whole,
                walk.from,
                Err(e),
                *w,
                *t,
            ),
        },
{
    proof {
        lemma_walk_run(walk, next, before.0, before.1, r, *w, *t);
    }
    r?;
    Ok(Ghost(walk.ran(next)))
}

/// Writes `node`, in parentheses if it asks for them, as the next step of a
/// render. Where the node fails, the render as a whole has failed.
pub fn collect_next<C: Collectable + ?Sized>(
    node: &C,
    w: &mut Sink,
    t: &mut Collector,
    Ghost(walk): Ghost<Walk>,
) -> (r: Result<Ghost<Walk>, SinkError>)
    requires
        node.well_formed(),
        walk.at(*old(w), *old(t)),
        extends(walk.done.run(|c: Seq<u32>| placed(node, c)), walk.whole),
    ensures
        match r {
            Ok(next) => next@ == walk.ran(|c: Seq<u32>| placed(node, c)) && next@.at(
                *final(w),
                *final(t),
            ),
            Err(e) => rendered(walk.whole, walk.from, Err(e), *final(w), *final(t)),
        },
{
    let ghost before = (*w, *t);
    let r = node._collect(w, t);
    step_next(r, w, t, Ghost(walk), Ghost(|c: Seq<u32>| placed(node, c)), Ghost(before))
}

/// To open a parenthesis, do `inner` and close the parenthesis is to do
/// `inner.enclosed()`.
pub proof fn lemma_enclosed(inner: Rendering, ctx: Seq<u32>)
    ensures
        Rendering::start(ctx).write("("@).run(|c: Seq<u32>| inner).write(")"@) == inner.enclosed(),
{
}

/// A render that has done nothing yet has done `Rendering::start`.
pub proof fn lemma_start(w: Sink, t: Collector)
    ensures
        rendered(Rendering::start(t@), w, Ok(()), w, t),
{
}

/// A render that did `done` and went on with `next`, to whatever result, has
/// done `done.run(next)`.
pub proof fn lemma_run(
    done: Rendering,
    next: spec_fn(Seq<u32>) -> Rendering,
    first: Sink,
    mid: Sink,
    ctx: Collector,
    r: Result<(), SinkError>,
    last: Sink,
    end: Collector,
)
    requires
        rendered(done, first, Ok(()), mid, ctx),
        rendered(next(ctx@), mid, r, last, end),
    ensures
        rendered(done.run(next), first, r, last, end),
{
    let step = next(ctx@);
    let all = done.run(next);
    if mid.takes(step.text.len()) {
        assert(last@ =~= first@ + all.text);
    } else {
        let n = last@.len() - mid@.len();
        assert(last@ =~= first@ + all.text.take(done.text.len() + n));
    }
}

/// A render that did `done` and went on to write `s`, to whatever result, has
/// done `done.write(s)`.
pub proof fn lemma_write(
    done: Rendering,
    s: Seq<char>,
    first: Sink,
    mid: Sink,
    ctx: Collector,
    r: Result<(), SinkError>,
    last: Sink,
    end: Collector,
)
    requires
        rendered(done, first, Ok(()), mid, ctx),
        rendered(Rendering::start(ctx@).write(s), mid, r, last, end),
    ensures
        rendered(done.write(s), first, r, last, end),
{
    lemma_run(done, |c: Seq<u32>| Rendering::start(c).write(s), first, mid, ctx, r, last, end);
}

/// A render that failed while it did `done` has failed while doing anything
/// that goes on where `done` is.
pub proof fn lemma_stopped(
    done: Rendering,
    whole: Rendering,
    first: Sink,
    e: SinkError,
    mid: Sink,
    ctx: Collector,
)
    requires
        rendered(done, first, Err(e), mid, ctx),
        extends(done, whole),
    ensures
        rendered(whole, first, Err(e), mid, ctx),
{
    if !first.takes(done.text.len()) {
        let n = mid@.len() - first@.len();
        assert(whole.text.take(n) =~= done.text.take(n));
    }
}

/// A render that stood at `walk` and went on with a render of its own that
/// did `next` stands behind `next` if that succeeded, and has failed as a
/// whole if that failed.
pub proof fn lemma_walk_run(
    walk: Walk,
    next: spec_fn(Seq<u32>) -> Rendering,
    before: Sink,
    ctx: Collector,
    r: Result<(), SinkError>,
    w: Sink,
    t: Collector,
)
    requires
        walk.at(before, ctx),
        rendered(next(ctx@), before, r, w, t),
        extends(walk.done.run(next), walk.whole),
    ensures
        match r {
            Ok(_) => walk.ran(next).at(w, t),
            Err(e) => rendered(walk.whole, walk.from, Err(e), w, t),
        },
{
    lemma_run(walk.done, next, walk.from, before, ctx, r, w, t);
    if let Err(e) = r {
        lemma_stopped(walk.done.run(next), walk.whole, walk.from, e, w, t);
    }
}

} // verus!
