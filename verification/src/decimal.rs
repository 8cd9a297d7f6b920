//! Decimal text for the scalar values that the walkthrough reports.

use vstd::prelude::*;

verus! {

/// The decimal digit character for `d`.
pub open spec fn dec_digit(d: nat) -> char
    recommends
        d < 10,
{
    if d == 0 {
        '0'
    } else if d == 1 {
        '1'
    } else if d == 2 {
        '2'
    } else if d == 3 {
        '3'
    } else if d == 4 {
        '4'
    } else if d == 5 {
        '5'
    } else if d == 6 {
        '6'
    } else if d == 7 {
        '7'
    } else if d == 8 {
        '8'
    } else {
        '9'
    }
}

/// The decimal text of the natural number `n`: most significant digit
/// first, with no sign and no leading zero.
pub open spec fn dec_str(n: nat) -> Seq<char>
    decreases n,
{
    if n < 10 {
        seq![dec_digit(n)]
    } else {
        dec_str(n / 10) + seq![dec_digit(n % 10)]
    }
}

/// The decimal text of the integer `n`, with a leading minus sign when `n`
/// is negative.
pub open spec fn dec_str_int(n: int) -> Seq<char> {
    if n < 0 {
        seq!['-'] + dec_str((-n) as nat)
    } else {
        dec_str(n as nat)
    }
}

/// The one-character text of the decimal digit `d`.
fn digit_str(d: u64) -> (r: &'static str)
    requires
        d < 10,
    ensures
        r@ == seq![dec_digit(d as nat)],
{
    let r: &'static str = match d {
        0 => "0",
        1 => "1",
        2 => "2",
        3 => "3",
        4 => "4",
        5 => "5",
        6 => "6",
        7 => "7",
        8 => "8",
        _ => "9",
    };
    proof {
        reveal_strlit("0");
        reveal_strlit("1");
        reveal_strlit("2");
        reveal_strlit("3");
        reveal_strlit("4");
        reveal_strlit("5");
        reveal_strlit("6");
        reveal_strlit("7");
        reveal_strlit("8");
        reveal_strlit("9");
        assert(r@ =~= seq![dec_digit(d as nat)]);
    }
    r
}

/// Appends the decimal text of `n` to `s`.
fn push_dec(s: &mut String, n: u64)
    ensures
        final(s)@ == old(s)@ + dec_str(n as nat),
    decreases n,
{
    if n >= 10 {
        push_dec(s, n / 10);
        let d = digit_str(n % 10);
        s.append(d);
        proof {
            assert((old(s)@ + dec_str((n / 10) as nat)) + seq![dec_digit((n % 10) as nat)]
                =~= old(s)@ + dec_str(n as nat));
        }
    } else {
        let d = digit_str(n);
        s.append(d);
        proof {
            assert(old(s)@ + seq![dec_digit(n as nat)] =~= old(s)@ + dec_str(n as nat));
        }
    }
}

/// Returns the decimal text of `n`.
pub fn format_u64(n: u64) -> (r: String)
    ensures
        r@ == dec_str(n as nat),
{
    let mut r = String::new();
    push_dec(&mut r, n);
    proof {
        assert(Seq::<char>::empty() + dec_str(n as nat) =~= dec_str(n as nat));
    }
    r
}

/// Returns the decimal text of `n`, with its sign.
pub fn format_i32(n: i32) -> (r: String)
    ensures
        r@ == dec_str_int(n as int),
{
    if n < 0 {
        let m: u64 = (-(n as i64)) as u64;
        let mut r = String::from_str("-");
        push_dec(&mut r, m);
        proof {
            reveal_strlit("-");
            assert("-"@ =~= seq!['-']);
            assert(seq!['-'] + dec_str(m as nat) =~= dec_str_int(n as int));
        }
        r
    } else {
        let r = format_u64(n as u64);
        r
    }
}

} // verus!
