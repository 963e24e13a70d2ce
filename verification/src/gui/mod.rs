//! The state of the dashboard's widgets, and how amounts of money are written.
//!
//! Drawing is not done here: each widget keeps what is to be drawn, and the
//! terminal front end reads it.

pub mod account;
pub mod formbutton;
pub mod keys;
pub mod ledger;
pub mod login;
pub mod waiting;

use vstd::prelude::*;

verus! {

/// The tick at which the animations start over.
pub const TICK_PERIOD: usize = 1000;

/// One tick later.
pub open spec fn next_tick(tick: usize) -> usize {
    if tick + 1 == TICK_PERIOD {
        0
    } else {
        (tick + 1) as usize
    }
}

/// One tick later.
pub fn tick_after(tick: usize) -> (next: usize)
    requires
        tick < usize::MAX,
    ensures
        next == next_tick(tick),
{
    if tick + 1 == TICK_PERIOD {
        0
    } else {
        tick + 1
    }
}

/// The character of one decimal digit.
pub open spec fn digit(d: int) -> char
    recommends
        0 <= d < 10,
{
    if d == 0 {
        '0'
    } else if d == 1 {
        '1'
    } else if d == 2 {
        '2'
    } else if d == 3 {
        '3'
    } else if d == 4 {
        '4'
    } else if d == 5 {
        '5'
    } else if d == 6 {
        '6'
    } else if d == 7 {
        '7'
    } else if d == 8 {
        '8'
    } else {
        '9'
    }
}

/// A number in decimal, without leading zeros.
pub open spec fn digits(n: nat) -> Seq<char>
    decreases n,
{
    if n < 10 {
        seq![digit(n as int)]
    } else {
        digits(n / 10).push(digit((n % 10) as int))
    }
}

/// A number in decimal with a comma before every group of three digits,
/// counted from the right.
pub open spec fn grouped(n: nat) -> Seq<char>
    decreases n,
{
    if n < 1000 {
        digits(n)
    } else {
        grouped(n / 1000) + seq![
            ',',
            digit((n % 1000 / 100) as int),
            digit((n % 100 / 10) as int),
            digit((n % 10) as int),
        ]
    }
}

/// An amount of money as text: a dollar sign and the grouped number.
pub open spec fn money_text(n: nat) -> Seq<char> {
    seq!['$'] + grouped(n)
}

/// An amount as it stands in the books: a negative amount in parentheses,
/// without a sign.
pub open spec fn accounting_text(amount: int) -> Seq<char> {
    if amount < 0 {
        seq!['('] + money_text((-amount) as nat) + seq![')']
    } else {
        money_text(amount as nat)
    }
}

/// `String::from_iter` on a vector of characters: the text made of exactly
/// these characters, in this order.
#[verifier::external_body]
pub(crate) fn text_of(chars: Vec<char>) -> (text: String)
    ensures
        text@ == chars@,
{
    String::from_iter(chars)
}

/// The character of one decimal digit.
fn digit_of(d: usize) -> (c: char)
    requires
        d < 10,
    ensures
        c == digit(d as int),
{
    if d == 0 {
        '0'
    } else if d == 1 {
        '1'
    } else if d == 2 {
        '2'
    } else if d == 3 {
        '3'
    } else if d == 4 {
        '4'
    } else if d == 5 {
        '5'
    } else if d == 6 {
        '6'
    } else if d == 7 {
        '7'
    } else if d == 8 {
        '8'
    } else {
        '9'
    }
}

/// Appends `n` in decimal.
fn push_digits(out: &mut Vec<char>, n: usize)
    ensures
        final(out)@ == old(out)@ + digits(n as nat),
    decreases n,
{
    let ghost before = out@;
    if n < 10 {
        out.push(digit_of(n));
    } else {
        push_digits(out, n / 10);
        out.push(digit_of(n % 10));
    }
    assert(out@ =~= before + digits(n as nat));
}

/// Appends `n` in decimal, grouped by thousands.
fn push_grouped(out: &mut Vec<char>, n: usize)
    ensures
        final(out)@ == old(out)@ + grouped(n as nat),
    decreases n,
{
    let ghost before = out@;
    if n < 1000 {
        push_digits(out, n);
    } else {
        push_grouped(out, n / 1000);
        out.push(',');
        out.push(digit_of(n % 1000 / 100));
        out.push(digit_of(n % 100 / 10));
        out.push(digit_of(n % 10));
        assert(out@ =~= before + grouped(n as nat));
    }
}

/// Writes an amount of money: a dollar sign, then the number with a comma
/// before every group of three digits.
pub fn format_money(money: usize) -> (text: String)
    ensures
        text@ == money_text(money as nat),
{
    let mut chars: Vec<char> = Vec::new();
    chars.push('$');
    push_grouped(&mut chars, money);
    assert(chars@ =~= money_text(money as nat));
    text_of(chars)
}

/// Writes an amount as it stands in the books: a negative amount in
/// parentheses, anything else like `format_money`.
pub fn format_money_accounting(money: isize) -> (text: String)
    ensures
        text@ == accounting_text(money as int),
{
    let mut chars: Vec<char> = Vec::new();
    if money < 0 {
        let size: usize = (-(money as i128)) as usize;
        chars.push('(');
        chars.push('$');
        push_grouped(&mut chars, size);
        chars.push(')');
        assert(chars@ =~= accounting_text(money as int));
    } else {
        chars.push('$');
        push_grouped(&mut chars, money as usize);
        assert(chars@ =~= accounting_text(money as int));
    }
    text_of(chars)
}

} // verus!
