//! Pty device paths: the fixed master control device path, and the
//! numbered slave path under the pty-slave directory.

use vstd::prelude::*;
use vstd::string::StrSliceExecFns;
use vstd::string::StringExecFns;

verus! {

/// The character spelling a single decimal digit.
pub open spec fn digit_char(d: int) -> char {
    if d == 0 {
        '0'
    } else if d == 1 {
        '1'
    } else if d == 2 {
        '2'
    } else if d == 3 {
        '3'
    } else if d == 4 {
        '4'
    } else if d == 5 {
        '5'
    } else if d == 6 {
        '6'
    } else if d == 7 {
        '7'
    } else if d == 8 {
        '8'
    } else {
        '9'
    }
}

/// The decimal spelling of a nonnegative number, most significant digit
/// first, without leading zeros (zero itself spelled "0").
pub open spec fn dec_digits(n: int) -> Seq<char>
    decreases n,
{
    if n < 10 {
        seq![digit_char(n)]
    } else {
        dec_digits(n / 10).push(digit_char(n % 10))
    }
}

/// The slave device path for a pty of the given index: the pty-slave
/// directory followed by the index in decimal.
pub open spec fn pts_path_spec(index: u32) -> Seq<char> {
    "/dev/pts/"@ + dec_digits(index as int)
}

fn digit_str(d: u32) -> (s: &'static str)
    requires
        d < 10,
    ensures
        s@ == seq![digit_char(d as int)],
{
    proof {
        reveal_strlit("0");
        reveal_strlit("1");
        reveal_strlit("2");
        reveal_strlit("3");
        reveal_strlit("4");
        reveal_strlit("5");
        reveal_strlit("6");
        reveal_strlit("7");
        reveal_strlit("8");
        reveal_strlit("9");
    }
    match d {
        0 => "0",
        1 => "1",
        2 => "2",
        3 => "3",
        4 => "4",
        5 => "5",
        6 => "6",
        7 => "7",
        8 => "8",
        _ => "9",
    }
}

fn push_dec(s: &mut String, n: u32)
    ensures
        final(s)@ == old(s)@ + dec_digits(n as int),
    decreases n,
{
    if n >= 10 {
        push_dec(s, n / 10);
    }
    s.append(digit_str(n % 10));
    proof {
        assert(final(s)@ =~= old(s)@ + dec_digits(n as int));
    }
}

/// The master control device path.
pub fn ptmx_path() -> (s: &'static str)
    ensures
        s@ == "/dev/ptmx"@,
{
    "/dev/ptmx"
}

/// The slave device path for a pty of the given index.
pub fn pts_path(index: u32) -> (s: String)
    ensures
        s@ == pts_path_spec(index),
{
    let mut s = String::from_str("/dev/pts/");
    push_dec(&mut s, index);
    s
}

} // verus!
