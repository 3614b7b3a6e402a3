//! Decimal text of integers.

use vstd::prelude::*;
use vstd::string::*;

verus! {

/// The ten decimal digits, in order of value.
pub open spec fn digits() -> Seq<char> {
    seq!['0', '1', '2', '3', '4', '5', '6', '7', '8', '9']
}

/// The shortest decimal text of `n`: no sign, and no leading zero except for
/// zero itself.
pub open spec fn decimal(n: nat) -> Seq<char>
    decreases n,
{
    if n < 10 {
        seq![digits()[n as int]]
    } else {
        decimal(n / 10).push(digits()[(n % 10) as int])
    }
}

/// The decimal text of `v`, with a leading `-` exactly when `v` is negative.
pub open spec fn signed_decimal(v: int) -> Seq<char> {
    if v < 0 {
        "-"@ + decimal((-v) as nat)
    } else {
        decimal(v as nat)
    }
}

/// The one-character text of the digit `d`.
fn digit_str(d: u8) -> (s: &'static str)
    requires
        d < 10,
    ensures
        s@ == seq![digits()[d as int]],
{
    let all: &'static str = "0123456789";
    proof {
        reveal_strlit("0123456789");
    }
    all.substring_ascii(d as usize, d as usize + 1)
}

/// Appends the decimal text of `n` to `out`.
pub fn push_decimal(out: &mut String, n: u128)
    ensures
        final(out)@ == old(out)@ + decimal(n as nat),
    decreases n,
{
    if n >= 10 {
        push_decimal(out, n / 10);
    }
    out.append(digit_str((n % 10) as u8));
}

/// Appends the decimal text of `v` to `out`, behind a `-` where `v` is
/// negative.
pub fn push_signed_decimal(out: &mut String, v: i128)
    ensures
        final(out)@ == old(out)@ + signed_decimal(v as int),
{
    if v < 0 {
        out.append("-");
        // -(v + 1) fits in i128 even for the least value of v.
        let magnitude: u128 = (-(v + 1)) as u128 + 1;
        push_decimal(out, magnitude);
        assert(final(out)@ =~= old(out)@ + ("-"@ + decimal((-v) as nat)));
    } else {
        push_decimal(out, v as u128);
    }
}

} // verus!
