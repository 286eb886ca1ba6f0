//! What a statement needs to know of the table it names.

use crate::collect::{emit, Collectable, Collector, Rendering};
use crate::sink::{Sink, SinkError};
use std::marker::PhantomData;
use vstd::prelude::*;

verus! {

/// The columns of one table. A value of the type is a column; the type
/// itself stands for the table.
pub trait Table: Copy + Sized {
    /// The bare name of the column, without the table before it.
    spec fn name_text(&self) -> Seq<char>;

    /// The table as it is written where a statement names it.
    spec fn table_text() -> Seq<char>;

    /// The bare name of the column.
    fn name(&self) -> (s: &str)
        ensures
            s@ == self.name_text(),
    ;

    /// The table as it is written where a statement names it.
    fn table() -> (s: &'static str)
        ensures
            s@ == Self::table_text(),
    ;
}

/// The reference to table `T` inside a statement.
pub struct TableRef<T>(PhantomData<T>);

impl<T: Table> TableRef<T> {
    /// The reference to `T`. It holds nothing: the table is in the type.
    pub fn new() -> (r: Self) {
        TableRef(PhantomData)
    }
}

impl<T: Table> Collectable for TableRef<T> {
    open spec fn wraps(&self) -> bool {
        false
    }

    open spec fn well_formed(&self) -> bool {
        true
    }

    open spec fn plan(&self, ctx: Seq<u32>) -> Rendering {
        Rendering::start(ctx).write(T::table_text())
    }

    fn needs_wrapping(&self) -> (b: bool) {
        false
    }

    fn is_well_formed(&self) -> (b: bool) {
        true
    }

    fn collect(&self, w: &mut Sink, t: &mut Collector) -> (r: Result<(), SinkError>) {
        emit(w, t, T::table())
    }
}

} // verus!
