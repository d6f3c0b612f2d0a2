//! Decimal and boolean text, as std's formatting writes them.

use vstd::prelude::*;

verus! {

/// The decimal digit character for a value below ten.
pub open spec fn digit_char(d: nat) -> char {
    if d == 0 {
        '0'
    } else if d == 1 {
        '1'
    } else if d == 2 {
        '2'
    } else if d == 3 {
        '3'
    } else if d == 4 {
        '4'
    } else if d == 5 {
        '5'
    } else if d == 6 {
        '6'
    } else if d == 7 {
        '7'
    } else if d == 8 {
        '8'
    } else {
        '9'
    }
}

/// Decimal text of a natural number, most significant digit first, no sign
/// and no leading zero except for zero itself.
pub open spec fn dec_text(n: nat) -> Seq<char>
    decreases n,
{
    if n < 10 {
        seq![digit_char(n)]
    } else {
        dec_text(n / 10) + seq![digit_char(n % 10)]
    }
}

/// Decimal text of an integer: a leading minus sign for negative values.
pub open spec fn int_text(i: int) -> Seq<char> {
    if i < 0 {
        "-"@ + dec_text((-i) as nat)
    } else {
        dec_text(i as nat)
    }
}

/// Text of a boolean, as std's formatting writes it.
pub open spec fn bool_text(b: bool) -> Seq<char> {
    if b {
        "true"@
    } else {
        "false"@
    }
}

/// Decimal text of an unsigned value.
pub fn fmt_u64(n: u64) -> (r: String)
    ensures
        r@ == dec_text(n as nat),
    decreases n,
{
    let digits: &str = "0123456789";
    proof {
        reveal_strlit("0123456789");
    }
    if n < 10 {
        let d: &str = digits.substring_char(n as usize, n as usize + 1);
        let r = d.to_owned();
        assert(r@ =~= dec_text(n as nat));
        r
    } else {
        let mut r = fmt_u64(n / 10);
        let m: usize = (n % 10) as usize;
        let d: &str = digits.substring_char(m, m + 1);
        r.append(d);
        assert(r@ =~= dec_text(n as nat));
        r
    }
}

/// Decimal text of a signed value, with its sign.
pub fn fmt_i64(i: i64) -> (r: String)
    ensures
        r@ == int_text(i as int),
{
    if i < 0 {
        let mut r = "-".to_owned();
        let mag: u64 = if i == i64::MIN {
            9223372036854775808u64
        } else {
            (-i) as u64
        };
        let m = fmt_u64(mag);
        r.append(m.as_str());
        assert(r@ =~= int_text(i as int));
        r
    } else {
        fmt_u64(i as u64)
    }
}

/// Text of a boolean.
pub fn fmt_bool(b: bool) -> (r: String)
    ensures
        r@ == bool_text(b),
{
    if b {
        "true".to_owned()
    } else {
        "false".to_owned()
    }
}

} // verus!
