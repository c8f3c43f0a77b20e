use vstd::prelude::*;

use crate::text::push_char;
use crate::time::Timestamp;

verus! {

/// A value bound to a numbered parameter of a statement.
pub enum SqlValue {
    Uuid(u128),
    Text(String),
    OptionalText(Option<String>),
    Bool(bool),
    OptionalBool(Option<bool>),
    BigInt(i64),
    Time(Timestamp),
}

/// What a bound value stands for, strings taken by their characters.
pub enum SqlArg {
    Uuid(u128),
    Text(Seq<char>),
    OptionalText(Option<Seq<char>>),
    Bool(bool),
    OptionalBool(Option<bool>),
    BigInt(i64),
    Time(Timestamp),
}

impl View for SqlValue {
    type V = SqlArg;

    open spec fn view(&self) -> SqlArg {
        match self {
            SqlValue::Uuid(u) => SqlArg::Uuid(*u),
            SqlValue::Text(t) => SqlArg::Text(t@),
            SqlValue::OptionalText(t) => SqlArg::OptionalText(
                match t {
                    Some(s) => Some(s@),
                    None => None,
                },
            ),
            SqlValue::Bool(b) => SqlArg::Bool(*b),
            SqlValue::OptionalBool(b) => SqlArg::OptionalBool(*b),
            SqlValue::BigInt(i) => SqlArg::BigInt(*i),
            SqlValue::Time(t) => SqlArg::Time(*t),
        }
    }
}

/// A statement text with `$n` parameters and the values bound to them, in order.
pub struct SqlStatement {
    pub sql: String,
    pub binds: Vec<SqlValue>,
}

/// The values of a list of bound values.
pub open spec fn args_of(binds: Seq<SqlValue>) -> Seq<SqlArg> {
    binds.map_values(|v: SqlValue| v@)
}

impl SqlStatement {
    /// The text of the statement.
    pub open spec fn text(&self) -> Seq<char> {
        self.sql@
    }

    /// What the bound values stand for, in order.
    pub open spec fn args(&self) -> Seq<SqlArg> {
        args_of(self.binds@)
    }
}

/// The decimal digit for `d` (0..=9).
pub open spec fn digit_char(d: nat) -> char {
    if d == 0 {
        '0'
    } else if d == 1 {
        '1'
    } else if d == 2 {
        '2'
    } else if d == 3 {
        '3'
    } else if d == 4 {
        '4'
    } else if d == 5 {
        '5'
    } else if d == 6 {
        '6'
    } else if d == 7 {
        '7'
    } else if d == 8 {
        '8'
    } else {
        '9'
    }
}

/// The decimal writing of `n`, without leading zeros.
pub open spec fn decimal(n: nat) -> Seq<char>
    decreases n,
{
    if n < 10 {
        seq![digit_char(n)]
    } else {
        decimal(n / 10).push(digit_char(n % 10))
    }
}

/// The text of the `n`-th statement parameter: `$n`.
pub open spec fn placeholder(n: nat) -> Seq<char> {
    seq!['$'] + decimal(n)
}

fn digit_of(d: u64) -> (c: char)
    requires
        d < 10,
    ensures
        c == digit_char(d as nat),
{
    if d == 0 {
        '0'
    } else if d == 1 {
        '1'
    } else if d == 2 {
        '2'
    } else if d == 3 {
        '3'
    } else if d == 4 {
        '4'
    } else if d == 5 {
        '5'
    } else if d == 6 {
        '6'
    } else if d == 7 {
        '7'
    } else if d == 8 {
        '8'
    } else {
        '9'
    }
}

/// Appends the decimal writing of `n`.
pub fn push_decimal(s: &mut String, n: u64)
    ensures
        final(s)@ == old(s)@ + decimal(n as nat),
    decreases n,
{
    if n >= 10 {
        push_decimal(s, n / 10);
        push_char(s, digit_of(n % 10));
        assert(final(s)@ =~= old(s)@ + decimal(n as nat));
    } else {
        push_char(s, digit_of(n));
        assert(final(s)@ =~= old(s)@ + decimal(n as nat));
    }
}

/// Appends the placeholder of the `n`-th parameter.
pub fn push_placeholder(s: &mut String, n: u64)
    ensures
        final(s)@ == old(s)@ + placeholder(n as nat),
{
    push_char(s, '$');
    push_decimal(s, n);
    assert(final(s)@ =~= old(s)@ + placeholder(n as nat));
}

} // verus!
