//! Positional parameters.

use crate::collect::{Collectable, Collector, Rendering};
use crate::expr::{Expr, ValueExpr};
use crate::sink::{Sink, SinkError};
use crate::walk::{begin, write_next};
use vstd::prelude::*;

verus! {

broadcast use crate::walk::group_extends;

/// The decimal digit for `d`, a number below ten.
pub open spec fn digit(d: nat) -> Seq<char> {
    if d == 0 {
        "0"@
    } else if d == 1 {
        "1"@
    } else if d == 2 {
        "2"@
    } else if d == 3 {
        "3"@
    } else if d == 4 {
        "4"@
    } else if d == 5 {
        "5"@
    } else if d == 6 {
        "6"@
    } else if d == 7 {
        "7"@
    } else if d == 8 {
        "8"@
    } else {
        "9"@
    }
}

/// `n` in decimal, without leading zeros.
pub open spec fn decimal(n: nat) -> Seq<char>
    decreases n,
{
    if n < 10 {
        digit(n)
    } else {
        decimal(n / 10) + digit(n % 10)
    }
}

/// The decimal digit for `d`.
fn digit_str(d: usize) -> (s: &'static str)
    requires
        d < 10,
    ensures
        s@ == digit(d as nat),
{
    if d == 0 {
        "0"
    } else if d == 1 {
        "1"
    } else if d == 2 {
        "2"
    } else if d == 3 {
        "3"
    } else if d == 4 {
        "4"
    } else if d == 5 {
        "5"
    } else if d == 6 {
        "6"
    } else if d == 7 {
        "7"
    } else if d == 8 {
        "8"
    } else {
        "9"
    }
}

/// `n` in decimal.
pub fn decimal_string(n: usize) -> (s: String)
    ensures
        s@ == decimal(n as nat),
    decreases n,
{
    if n < 10 {
        String::from_str(digit_str(n))
    } else {
        let head = decimal_string(n / 10);
        head.concat(digit_str(n % 10))
    }
}

/// A placeholder for a value that is sent beside the statement. It renders
/// as `$` and its position among the parameters of the statement.
pub struct Param {
    ty: u32,
}

impl Param {
    /// The type of the value, as the database numbers its types.
    pub closed spec fn ty(&self) -> u32 {
        self.ty
    }

    /// A parameter of type `ty`.
    pub fn of(ty: u32) -> (p: Param)
        ensures
            p.ty() == ty,
    {
        Param { ty }
    }
}

impl Collectable for Param {
    open spec fn wraps(&self) -> bool {
        false
    }

    open spec fn well_formed(&self) -> bool {
        true
    }

    open spec fn plan(&self, ctx: Seq<u32>) -> Rendering {
        Rendering { text: "$"@ + decimal(ctx.len() + 1), ctx: ctx.push(self.ty()) }
    }

    fn needs_wrapping(&self) -> (b: bool) {
        false
    }

    fn is_well_formed(&self) -> (b: bool) {
        true
    }

    fn collect(&self, w: &mut Sink, t: &mut Collector) -> (r: Result<(), SinkError>) {
        let ghost whole = Rendering::start(t@.push(self.ty)).write("$"@).write(
            decimal(t@.len() + 1),
        );
        let position = t.push(self.ty);
        let digits = decimal_string(position);
        let walk = begin(w, t, Ghost(whole));
        let walk = write_next(w, t, "$", walk)?;
        write_next(w, t, digits.as_str(), walk)?;
        Ok(())
    }
}

impl Expr for Param {

}

impl ValueExpr for Param {

}

} // verus!
