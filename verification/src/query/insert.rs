//! The INSERT statement.

use crate::collect::{placed, rendered, Collectable, Collector, Rendering};
use crate::expr::util::{all_well_formed, are_well_formed, collect_delimited, delimited};
use crate::expr::AnyNode;
use crate::sink::{Sink, SinkError};
use crate::table::{Table, TableRef};
use crate::walk::{begin, collect_next, lemma_extends_text, step_next, write_next};
use vstd::prelude::*;

verus! {

broadcast use crate::walk::group_extends;

/// An INSERT into table `T`: an optional clause that stands before the
/// statement, the columns that are given values, the values, and an optional
/// expression that the statement returns.
///
/// Every builder succeeds, whatever it leaves the statement as. A statement
/// that names columns and gives values, but not as many of one as of the
/// other, is not well formed and cannot be rendered; whether it is such a
/// statement is asked when it is to be rendered, and not before.
pub struct InsertQuery<T> {
    with: Option<AnyNode>,
    cols: Vec<T>,
    values: Vec<AnyNode>,
    returning: Option<AnyNode>,
}

/// The bare names of `cols`, with `", "` between each two.
pub open spec fn names<T: Table>(cols: Seq<T>) -> Seq<char>
    decreases cols.len(),
{
    if cols.len() == 0 {
        Seq::empty()
    } else if cols.len() == 1 {
        cols[0].name_text()
    } else {
        names(cols.drop_last()) + "\", \""@ + cols.last().name_text()
    }
}

/// The column list of the statement: nothing for no column, and otherwise
/// the quoted names between parentheses, with a space before.
pub open spec fn column_clause<T: Table>(cols: Seq<T>) -> Seq<char> {
    if cols.len() == 0 {
        Seq::empty()
    } else {
        " (\""@ + names(cols) + "\")"@
    }
}

/// The names of the first `n` columns are how the names of all begin.
proof fn lemma_names_prefix<T: Table>(cols: Seq<T>, n: int)
    requires
        1 <= n <= cols.len(),
    ensures
        names(cols.take(n)).is_prefix_of(names(cols)),
    decreases cols.len() - n,
{
    if n == cols.len() {
        assert(cols.take(n) =~= cols);
    } else {
        lemma_names_prefix(cols, n + 1);
        assert(cols.take(n + 1).drop_last() =~= cols.take(n));
    }
}

impl<T> Default for InsertQuery<T> {
    /// The statement with nothing in it.
    fn default() -> (q: Self)
        ensures
            q.prefix() is None,
            q.columns() == Seq::<T>::empty(),
            q.row() == Seq::<AnyNode>::empty(),
            q.returned() is None,
    {
        InsertQuery { with: None, cols: Vec::new(), values: Vec::new(), returning: None }
    }
}

impl<X> InsertQuery<X> {
    /// The clause that stands before the statement.
    pub closed spec fn prefix(&self) -> Option<AnyNode> {
        self.with
    }

    /// The columns that are given values.
    pub closed spec fn columns(&self) -> Seq<X> {
        self.cols@
    }

    /// The values, in the order of the columns.
    pub closed spec fn row(&self) -> Seq<AnyNode> {
        self.values@
    }

    /// The expression that the statement returns.
    pub closed spec fn returned(&self) -> Option<AnyNode> {
        self.returning
    }

    /// Puts `prefix` before the statement.
    pub fn with_prefix(self, prefix: AnyNode) -> (q: Self)
        ensures
            q.prefix() == Some(prefix),
            q.columns() == self.columns(),
            q.row() == self.row(),
            q.returned() == self.returned(),
    {
        InsertQuery {
            with: Some(prefix),
            cols: self.cols,
            values: self.values,
            returning: self.returning,
        }
    }

    /// Names the table. The columns start anew, since they were columns of
    /// the table named before. The clause before the statement, the values
    /// and the returned expression stay.
    pub fn into<T: Table>(self) -> (q: InsertQuery<T>)
        ensures
            q.prefix() == self.prefix(),
            q.columns() == Seq::<T>::empty(),
            q.row() == self.row(),
            q.returned() == self.returned(),
    {
        InsertQuery {
            with: self.with,
            cols: Vec::new(),
            values: self.values,
            returning: self.returning,
        }
    }
}

impl<T: Table> InsertQuery<T> {
    /// Adds `cols` behind the columns there are.
    pub fn cols(self, cols: &[T]) -> (q: Self)
        ensures
            q.columns() == self.columns() + cols@,
            q.prefix() == self.prefix(),
            q.row() == self.row(),
            q.returned() == self.returned(),
    {
        let mut q = self;
        let mut i: usize = 0;
        while i < cols.len()
            invariant
                i <= cols.len(),
                q.cols@ == self.cols@ + cols@.take(i as int),
                q.with == self.with,
                q.values == self.values,
                q.returning == self.returning,
            decreases cols.len() - i,
        {
            q.cols.push(cols[i]);
            i += 1;
        }
        q
    }

    /// Adds `exprs` behind the values there are.
    pub fn values(self, exprs: Vec<AnyNode>) -> (q: Self)
        ensures
            q.row() == self.row() + exprs@,
            q.prefix() == self.prefix(),
            q.columns() == self.columns(),
            q.returned() == self.returned(),
    {
        let mut q = self;
        let mut exprs = exprs;
        q.values.append(&mut exprs);
        q
    }

    /// Adds `expr` behind the values there are.
    pub fn value(self, expr: AnyNode) -> (q: Self)
        ensures
            q.row() == self.row().push(expr),
            q.prefix() == self.prefix(),
            q.columns() == self.columns(),
            q.returned() == self.returned(),
    {
        let mut q = self;
        q.values.push(expr);
        q
    }

    /// Makes the statement return `expr`, in place of what it returned
    /// before.
    pub fn returning(self, expr: AnyNode) -> (q: Self)
        ensures
            q.returned() == Some(expr),
            q.prefix() == self.prefix(),
            q.columns() == self.columns(),
            q.row() == self.row(),
    {
        let mut q = self;
        q.returning = Some(expr);
        q
    }
}

impl<T: Table> InsertQuery<T> {
    /// True if the statement names columns and gives values, but not as many
    /// of one as of the other.
    pub open spec fn misshapen(&self) -> bool {
        self.row().len() > 0 && self.columns().len() > 0 && self.row().len()
            != self.columns().len()
    }

    /// The render up to the column list: the clause before the statement and
    /// a space, if there is such a clause; `INSERT INTO ` and the table; the
    /// column list.
    pub open spec fn headed(&self, ctx: Seq<u32>) -> Rendering {
        let before = match self.prefix() {
            Some(prefix) => Rendering::start(ctx).run(|c: Seq<u32>| placed(&prefix, c)).write(
                " "@,
            ),
            None => Rendering::start(ctx),
        };
        before.write("INSERT INTO "@).write(T::table_text()).write(column_clause(self.columns()))
    }

    /// The render up to the values: ` DEFAULT VALUES` where there is no
    /// value, and otherwise ` VALUES ` and the values between parentheses,
    /// with `, ` between each two.
    pub open spec fn filled(&self, ctx: Seq<u32>) -> Rendering {
        let head = self.headed(ctx);
        if self.row().len() == 0 {
            head.write(" DEFAULT VALUES"@)
        } else {
            head.write(" VALUES "@).run(|c: Seq<u32>| delimited(self.row(), true, ", "@, c))
        }
    }

    /// Writes the column list.
    fn collect_columns(&self, w: &mut Sink, t: &Collector) -> (r: Result<(), SinkError>)
        ensures
            rendered(
                Rendering::start(t@).write(column_clause(self.columns())),
                *old(w),
                r,
                *final(w),
                *t,
            ),
    {
        let ghost start = Rendering::start(t@);
        let ghost whole = start.write(column_clause(self.cols@));
        let mut walk = begin(w, t, Ghost(whole));
        if self.cols.len() == 0 {
            return Ok(());
        }
        let mut i: usize = 0;
        while i < self.cols.len()
            invariant
                i <= self.cols.len(),
                start == Rendering::start(t@),
                whole == start.write(column_clause(self.cols@)),
                walk@.from == *old(w),
                walk@.whole == whole,
                walk@.done == start.write(opened(self.cols@.take(i as int))),
                walk@.at(*w, *t),
            decreases self.cols.len() - i,
        {
            proof {
                let before = opened(self.cols@.take(i as int));
                lemma_opened_step(self.cols@, i as int);
                lemma_extends_text(start.write(before).write(lead(i as int)), whole);
                lemma_extends_text(start.write(opened(self.cols@.take(i + 1))), whole);
            }
            walk = write_next(w, t, if i == 0 { " (\"" } else { "\", \"" }, walk)?;
            walk = write_next(w, t, self.cols[i].name(), walk)?;
            i += 1;
        }
        proof {
            assert(self.cols@.take(i as int) =~= self.cols@);
        }
        write_next(w, t, "\")", walk)?;
        Ok(())
    }
}

/// What stands before the name of the column at `i`.
spec fn lead(i: int) -> Seq<char> {
    if i == 0 {
        " (\""@
    } else {
        "\", \""@
    }
}

/// The column list of `cols` up to the last name, without what closes it.
spec fn opened<T: Table>(cols: Seq<T>) -> Seq<char> {
    if cols.len() == 0 {
        Seq::empty()
    } else {
        " (\""@ + names(cols)
    }
}

/// The column list up to the name at `i` is the list up to the name before,
/// what leads to the name at `i`, and that name; and it is how the column
/// list of all columns begins.
proof fn lemma_opened_step<T: Table>(cols: Seq<T>, i: int)
    requires
        0 <= i < cols.len(),
    ensures
        opened(cols.take(i + 1)) == opened(cols.take(i)) + lead(i) + cols[i].name_text(),
        (opened(cols.take(i)) + lead(i)).is_prefix_of(column_clause(cols)),
        opened(cols.take(i + 1)).is_prefix_of(column_clause(cols)),
{
    lemma_names_prefix(cols, i + 1);
    if i > 0 {
        assert(cols.take(i + 1).drop_last() =~= cols.take(i));
    }
    assert(opened(cols.take(i + 1)).is_prefix_of(column_clause(cols)));
}

impl<T: Table> Collectable for InsertQuery<T> {
    open spec fn wraps(&self) -> bool {
        true
    }

    /// The statement is not misshapen, and every node it holds is well
    /// formed: the clause before it, each value, the returned expression.
    open spec fn well_formed(&self) -> bool {
        &&& match self.prefix() {
            Some(prefix) => prefix.well_formed(),
            None => true,
        }
        &&& !self.misshapen()
        &&& all_well_formed(self.row())
        &&& match self.returned() {
            Some(expr) => expr.well_formed(),
            None => true,
        }
    }

    /// The render up to the values, and then ` RETURNING ` and the returned
    /// expression, if there is one.
    open spec fn plan(&self, ctx: Seq<u32>) -> Rendering {
        match self.returned() {
            Some(expr) => self.filled(ctx).write(" RETURNING "@).run(
                |c: Seq<u32>| placed(&expr, c),
            ),
            None => self.filled(ctx),
        }
    }

    fn needs_wrapping(&self) -> (b: bool) {
        true
    }

    fn is_well_formed(&self) -> (b: bool) {
        if let Some(ref with) = self.with {
            if !with.is_well_formed() {
                return false;
            }
        }
        if !self.values.is_empty() && !self.cols.is_empty() && self.values.len()
            != self.cols.len() {
            return false;
        }
        if !are_well_formed(&self.values) {
            return false;
        }
        match &self.returning {
            Some(returning) => returning.is_well_formed(),
            None => true,
        }
    }

    fn collect(&self, w: &mut Sink, t: &mut Collector) -> (r: Result<(), SinkError>) {
        let ghost ctx = t@;
        let ghost clause = column_clause(self.cols@);
        let mut walk = begin(w, t, Ghost(self.plan(ctx)));

        if let Some(ref with) = self.with {
            walk = collect_next(with, w, t, walk)?;
            walk = write_next(w, t, " ", walk)?;  // space before INSERT
        }
        walk = write_next(w, t, "INSERT INTO ", walk)?;

        walk = collect_next(&TableRef::<T>::new(), w, t, walk)?;

        // column names without the table before them
        let ghost columns = |c: Seq<u32>| Rendering::start(c).write(clause);
        let ghost before = (*w, *t);
        let r = self.collect_columns(w, t);
        walk = step_next(r, w, t, walk, Ghost(columns), Ghost(before))?;

        if self.values.is_empty() {
            walk = write_next(w, t, " DEFAULT VALUES", walk)?;
        } else {
            // as many values as columns, or no column: the statement is well formed
            walk = write_next(w, t, " VALUES ", walk)?;

            let ghost list = |c: Seq<u32>| delimited(self.values@, true, ", "@, c);
            let ghost before = (*w, *t);
            let r = collect_delimited(&self.values, true, ", ", w, t);
            walk = step_next(r, w, t, walk, Ghost(list), Ghost(before))?;
        }
        if let Some(ref returning) = self.returning {
            walk = write_next(w, t, " RETURNING ", walk)?;
            walk = collect_next(returning, w, t, walk)?;
        }
        Ok(())
    }
}

} // verus!
