//! Decimal rendering of the fixed-point numbers that layouts carry.
//!
//! Every length, gap and flex factor in a layout is a count of tenths
//! (`805` stands for `80.5`). The functions here write such numbers the way
//! the code generators print them: with one decimal (`80.5`), rounded to a
//! whole number (`80`), or scaled by one hundredth for viewport units.
//! Each exec function appends to a buffer and is specified by a spec function
//! that gives the characters it appends.

use vstd::prelude::*;

verus! {

/// The text of one decimal digit.
pub open spec fn digit_text(d: nat) -> Seq<char> {
    if d == 0 {
        "0"@
    } else if d == 1 {
        "1"@
    } else if d == 2 {
        "2"@
    } else if d == 3 {
        "3"@
    } else if d == 4 {
        "4"@
    } else if d == 5 {
        "5"@
    } else if d == 6 {
        "6"@
    } else if d == 7 {
        "7"@
    } else if d == 8 {
        "8"@
    } else {
        "9"@
    }
}

/// The decimal digits of a natural number, most significant first, without
/// leading zeros (zero is written `0`).
pub open spec fn nat_text(n: nat) -> Seq<char>
    decreases n,
{
    if n < 10 {
        digit_text(n)
    } else {
        nat_text(n / 10) + digit_text(n % 10)
    }
}

/// A minus sign when `neg` holds, nothing otherwise.
pub open spec fn sign_text(neg: bool) -> Seq<char> {
    if neg {
        "-"@
    } else {
        Seq::empty()
    }
}

/// The absolute value of an integer.
pub open spec fn abs(n: int) -> nat {
    if n < 0 {
        (-n) as nat
    } else {
        n as nat
    }
}

/// An integer as `{}` prints it.
pub open spec fn int_text(n: int) -> Seq<char> {
    sign_text(n < 0) + nat_text(abs(n))
}

/// A count of tenths printed with one decimal, as `{:.1}` prints `t / 10`.
pub open spec fn tenths_text(t: int) -> Seq<char> {
    sign_text(t < 0) + nat_text(abs(t) / 10) + "."@ + digit_text(abs(t) % 10)
}

/// Rounds `a / 10` to the nearest whole number, ties to even.
pub open spec fn round_tenths_half_even(a: nat) -> nat {
    let q = a / 10;
    let r = a % 10;
    if r > 5 || (r == 5 && q % 2 == 1) {
        q + 1
    } else {
        q
    }
}

/// A count of tenths rounded to a whole number, as `{:.0}` prints `t / 10`.
pub open spec fn tenths_whole_text(t: int) -> Seq<char> {
    sign_text(t < 0) + nat_text(round_tenths_half_even(abs(t)))
}

/// A count of tenths in its shortest form: a whole number when the tenths
/// digit is zero, one decimal otherwise.
pub open spec fn tenths_short_text(t: int) -> Seq<char> {
    if t % 10 == 0 {
        int_text(t / 10)
    } else {
        tenths_text(t)
    }
}

/// The three digits of `n % 1000`, zero padded.
pub open spec fn three_digits(n: nat) -> Seq<char> {
    digit_text(((n / 100) % 10) as nat) + digit_text(((n / 10) % 10) as nat) + digit_text(n % 10)
}

/// One hundredth of a count of tenths (a count of thousandths), printed with
/// three decimals, as `{:.3}` prints `(t / 10) / 100`.
pub open spec fn hundredth_of_tenths_text(t: int) -> Seq<char> {
    sign_text(t < 0) + nat_text(abs(t) / 1000) + "."@ + three_digits(abs(t) % 1000)
}

/// One hundredth of a count of tenths rounded to two decimals (ties to even),
/// as `{:.2}` prints `(t / 10) / 100`.
pub open spec fn hundredth_of_tenths_2_text(t: int) -> Seq<char> {
    let h = round_tenths_half_even(abs(t));
    sign_text(t < 0) + nat_text(h / 100) + "."@ + digit_text(((h / 10) % 10) as nat)
        + digit_text((h % 10) as nat)
}

/// A colour channel `c` over 255, rounded to two decimals, as `{:.2}` prints
/// `c as f32 / 255.0`.
pub open spec fn channel_unit_text(c: u8) -> Seq<char> {
    let h = ((200 * c + 255) / 510) as nat;
    nat_text(h / 100) + "."@ + digit_text(((h / 10) % 10) as nat) + digit_text((h % 10) as nat)
}

/// Appends one decimal digit.
pub fn push_digit(buf: &mut String, d: u64)
    requires
        d < 10,
    ensures
        final(buf)@ == old(buf)@ + digit_text(d as nat),
{
    if d == 0 {
        buf.append("0");
    } else if d == 1 {
        buf.append("1");
    } else if d == 2 {
        buf.append("2");
    } else if d == 3 {
        buf.append("3");
    } else if d == 4 {
        buf.append("4");
    } else if d == 5 {
        buf.append("5");
    } else if d == 6 {
        buf.append("6");
    } else if d == 7 {
        buf.append("7");
    } else if d == 8 {
        buf.append("8");
    } else {
        buf.append("9");
    }
}

/// Appends the decimal digits of a natural number.
pub fn push_nat(buf: &mut String, n: u64)
    ensures
        final(buf)@ == old(buf)@ + nat_text(n as nat),
    decreases n,
{
    if n < 10 {
        push_digit(buf, n);
    } else {
        push_nat(buf, n / 10);
        push_digit(buf, n % 10);
        assert(final(buf)@ =~= old(buf)@ + nat_text(n as nat));
    }
}

/// Appends a minus sign when `neg` holds.
pub fn push_sign(buf: &mut String, neg: bool)
    ensures
        final(buf)@ == old(buf)@ + sign_text(neg),
{
    if neg {
        buf.append("-");
    } else {
        assert(old(buf)@ + sign_text(neg) =~= old(buf)@);
    }
}

/// The absolute value of an `i32` as a `u64`.
pub fn abs_u64(n: i32) -> (r: u64)
    ensures
        r as int == abs(n as int),
{
    if n < 0 {
        (-(n as i64)) as u64
    } else {
        n as u64
    }
}

/// Appends an integer as `{}` prints it.
pub fn push_int(buf: &mut String, n: i32)
    ensures
        final(buf)@ == old(buf)@ + int_text(n as int),
{
    push_sign(buf, n < 0);
    push_nat(buf, abs_u64(n));
    assert(final(buf)@ =~= old(buf)@ + int_text(n as int));
}

/// Appends a count of tenths with one decimal (`805` gives `80.5`).
pub fn push_tenths(buf: &mut String, t: i32)
    ensures
        final(buf)@ == old(buf)@ + tenths_text(t as int),
{
    let a = abs_u64(t);
    push_sign(buf, t < 0);
    push_nat(buf, a / 10);
    buf.append(".");
    push_digit(buf, a % 10);
    assert(final(buf)@ =~= old(buf)@ + tenths_text(t as int));
}

/// Appends a count of tenths rounded to a whole number, ties to even.
pub fn push_tenths_whole(buf: &mut String, t: i32)
    ensures
        final(buf)@ == old(buf)@ + tenths_whole_text(t as int),
{
    let a = abs_u64(t);
    let q = a / 10;
    let r = a % 10;
    let w = if r > 5 || (r == 5 && q % 2 == 1) {
        q + 1
    } else {
        q
    };
    push_sign(buf, t < 0);
    push_nat(buf, w);
    assert(final(buf)@ =~= old(buf)@ + tenths_whole_text(t as int));
}

/// Appends a count of tenths in its shortest form (`800` gives `80`, `805`
/// gives `80.5`).
pub fn push_tenths_short(buf: &mut String, t: i32)
    ensures
        final(buf)@ == old(buf)@ + tenths_short_text(t as int),
{
    if t % 10 == 0 {
        push_int(buf, t / 10);
    } else {
        push_tenths(buf, t);
    }
}

/// Appends one hundredth of a count of tenths with three decimals (`500`
/// gives `0.500`).
pub fn push_hundredth_3(buf: &mut String, t: i32)
    ensures
        final(buf)@ == old(buf)@ + hundredth_of_tenths_text(t as int),
{
    let a = abs_u64(t);
    let f = a % 1000;
    push_sign(buf, t < 0);
    push_nat(buf, a / 1000);
    buf.append(".");
    push_digit(buf, (f / 100) % 10);
    push_digit(buf, (f / 10) % 10);
    push_digit(buf, f % 10);
    assert(final(buf)@ =~= old(buf)@ + hundredth_of_tenths_text(t as int));
}

/// Appends one hundredth of a count of tenths rounded to two decimals
/// (`500` gives `0.50`).
pub fn push_hundredth_2(buf: &mut String, t: i32)
    ensures
        final(buf)@ == old(buf)@ + hundredth_of_tenths_2_text(t as int),
{
    let a = abs_u64(t);
    let q = a / 10;
    let r = a % 10;
    let h = if r > 5 || (r == 5 && q % 2 == 1) {
        q + 1
    } else {
        q
    };
    push_sign(buf, t < 0);
    push_nat(buf, h / 100);
    buf.append(".");
    push_digit(buf, (h / 10) % 10);
    push_digit(buf, h % 10);
    assert(final(buf)@ =~= old(buf)@ + hundredth_of_tenths_2_text(t as int));
}

/// Appends a colour channel over 255 with two decimals (`255` gives
/// `1.00`).
pub fn push_channel_unit(buf: &mut String, c: u8)
    ensures
        final(buf)@ == old(buf)@ + channel_unit_text(c),
{
    let h: u64 = (200 * (c as u64) + 255) / 510;
    push_nat(buf, h / 100);
    buf.append(".");
    push_digit(buf, (h / 10) % 10);
    push_digit(buf, h % 10);
    assert(final(buf)@ =~= old(buf)@ + channel_unit_text(c));
}

/// Appends a count, as `{}` prints a `usize`.
pub fn push_usize(buf: &mut String, n: usize)
    ensures
        final(buf)@ == old(buf)@ + nat_text(n as nat),
{
    push_nat(buf, n as u64);
}

/// `n` copies of `unit`, one after another.
pub open spec fn repeat_text(unit: Seq<char>, n: nat) -> Seq<char>
    decreases n,
{
    if n == 0 {
        Seq::empty()
    } else {
        repeat_text(unit, (n - 1) as nat) + unit
    }
}

/// A string of `n` copies of `unit`, as `unit.repeat(n)` builds it.
pub fn repeat_str(unit: &str, n: usize) -> (r: String)
    ensures
        r@ == repeat_text(unit@, n as nat),
{
    let mut r = String::new();
    let mut i: usize = 0;
    while i < n
        invariant
            i <= n,
            r@ == repeat_text(unit@, i as nat),
        decreases n - i,
    {
        r.append(unit);
        i = i + 1;
    }
    r
}

} // verus!
