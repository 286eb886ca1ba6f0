//! Lists of nodes.

use crate::collect::{placed, rendered, Collectable, Collector, Rendering};
use crate::sink::{Sink, SinkError};
use crate::walk::{begin, collect_next, step_next, write_next};
use crate::walk::{extends, lemma_enclosed, lemma_extends_both, lemma_start};
use vstd::prelude::*;

verus! {

broadcast use crate::walk::group_extends;

/// True if every node of `items` is well formed.
pub open spec fn all_well_formed<E: Collectable>(items: Seq<E>) -> bool {
    forall|i: int| 0 <= i < items.len() ==> (#[trigger] items[i]).well_formed()
}

/// Whether every node of `exprs` is well formed.
pub fn are_well_formed<E: Collectable>(exprs: &Vec<E>) -> (b: bool)
    ensures
        b == all_well_formed(exprs@),
{
    let mut i: usize = 0;
    while i < exprs.len()
        invariant
            i <= exprs.len(),
            forall|j: int| 0 <= j < i ==> (#[trigger] exprs@[j]).well_formed(),
        decreases exprs.len() - i,
    {
        if !exprs[i].is_well_formed() {
            return false;
        }
        i += 1;
    }
    true
}

/// The nodes of `items` one after another, with `sep` between each two. Each
/// node stands in parentheses if it asks for them, and is rendered in the
/// context that the node before it left.
pub open spec fn listed<E: Collectable>(items: Seq<E>, sep: Seq<char>, ctx: Seq<u32>) -> Rendering
    decreases items.len(),
{
    if items.len() == 0 {
        Rendering::start(ctx)
    } else if items.len() == 1 {
        Rendering::start(ctx).run(|c: Seq<u32>| placed(&items[0], c))
    } else {
        listed(items.drop_last(), sep, ctx).write(sep).run(|c: Seq<u32>| placed(&items.last(), c))
    }
}

/// What [`collect_delimited`] does: nothing for no node; otherwise the list
/// of the nodes, between parentheses if `paren`.
pub open spec fn delimited<E: Collectable>(
    items: Seq<E>,
    paren: bool,
    sep: Seq<char>,
    ctx: Seq<u32>,
) -> Rendering {
    if items.len() == 0 {
        Rendering::start(ctx)
    } else if paren {
        listed(items, sep, ctx).enclosed()
    } else {
        listed(items, sep, ctx)
    }
}

/// A list goes on where the list of its first `n` nodes is.
proof fn lemma_listed_extends<E: Collectable>(items: Seq<E>, sep: Seq<char>, ctx: Seq<u32>, n: int)
    requires
        0 <= n <= items.len(),
    ensures
        extends(listed(items.take(n), sep, ctx), listed(items, sep, ctx)),
    decreases items.len() - n,
{
    if n == items.len() {
        assert(items.take(n) =~= items);
    } else {
        lemma_listed_extends(items, sep, ctx, n + 1);
        assert(items.take(n + 1).drop_last() =~= items.take(n));
        lemma_extends_both(
            listed(items.take(n), sep, ctx),
            listed(items.take(n + 1), sep, ctx),
            listed(items, sep, ctx),
        );
    }
}

/// The list of the first `n + 1` nodes is the list of the first `n`, the
/// separator if `n` is not zero, and the node behind them; and the whole list
/// goes on from there.
proof fn lemma_listed_step<E: Collectable>(items: Seq<E>, sep: Seq<char>, ctx: Seq<u32>, n: int)
    requires
        0 <= n < items.len(),
    ensures
        n == 0 ==> listed(items.take(1), sep, ctx) == Rendering::start(ctx).run(
            |c: Seq<u32>| placed(&items[0], c),
        ),
        n > 0 ==> listed(items.take(n + 1), sep, ctx) == listed(items.take(n), sep, ctx).write(
            sep,
        ).run(|c: Seq<u32>| placed(&items[n], c)),
        n > 0 ==> extends(listed(items.take(n), sep, ctx).write(sep), listed(items, sep, ctx)),
        extends(listed(items.take(n + 1), sep, ctx), listed(items, sep, ctx)),
{
    lemma_listed_extends(items, sep, ctx, n + 1);
    if n > 0 {
        assert(items.take(n + 1).drop_last() =~= items.take(n));
        lemma_extends_both(
            listed(items.take(n), sep, ctx).write(sep),
            listed(items.take(n + 1), sep, ctx),
            listed(items, sep, ctx),
        );
    }
}

/// Writes the nodes of `exprs` one after another, with `delimiter` between
/// each two.
fn collect_list<E: Collectable>(
    exprs: &Vec<E>,
    delimiter: &str,
    w: &mut Sink,
    t: &mut Collector,
) -> (r: Result<(), SinkError>)
    requires
        all_well_formed(exprs@),
    ensures
        rendered(listed(exprs@, delimiter@, old(t)@), *old(w), r, *final(w), *final(t)),
{
    let ghost sep = delimiter@;
    let ghost ctx = t@;
    let mut walk = begin(w, t, Ghost(listed(exprs@, sep, ctx)));
    let mut i: usize = 0;
    while i < exprs.len()
        invariant
            i <= exprs.len(),
            sep == delimiter@,
            all_well_formed(exprs@),
            walk@.from == *old(w),
            walk@.whole == listed(exprs@, sep, old(t)@),
            walk@.done == listed(exprs@.take(i as int), sep, old(t)@),
            walk@.at(*w, *t),
        decreases exprs.len() - i,
    {
        proof {
            lemma_listed_step(exprs@, sep, old(t)@, i as int);
        }
        if i > 0 {
            walk = write_next(w, t, delimiter, walk)?;
        }
        walk = collect_next(&exprs[i], w, t, walk)?;
        i += 1;
    }
    proof {
        assert(exprs@.take(i as int) =~= exprs@);
    }
    Ok(())
}

/// Writes the nodes of `exprs` one after another, with `delimiter` between
/// each two, and the whole between parentheses if `paren`. Writes nothing
/// where there is no node.
pub fn collect_delimited<E: Collectable>(
    exprs: &Vec<E>,
    paren: bool,
    delimiter: &str,
    w: &mut Sink,
    t: &mut Collector,
) -> (r: Result<(), SinkError>)
    requires
        all_well_formed(exprs@),
    ensures
        rendered(delimited(exprs@, paren, delimiter@, old(t)@), *old(w), r, *final(w), *final(t)),
{
    if exprs.len() == 0 {
        proof {
            lemma_start(*w, *t);
        }
        return Ok(());
    }
    if !paren {
        return collect_list(exprs, delimiter, w, t);
    }
    let ghost list = listed(exprs@, delimiter@, t@);
    proof {
        lemma_enclosed(list, t@);
    }
    let walk = begin(w, t, Ghost(list.enclosed()));
    let walk = write_next(w, t, "(", walk)?;

    let ghost before = (*w, *t);
    let r = collect_list(exprs, delimiter, w, t);
    let walk = step_next(r, w, t, walk, Ghost(|c: Seq<u32>| list), Ghost(before))?;
    write_next(w, t, ")", walk)?;
    Ok(())
}

} // verus!
