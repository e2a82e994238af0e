//! Human-readable elapsed times.
use crate::text::{decimal, push_decimal, push_str};
use vstd::prelude::*;

verus! {

/// A number written with at least two digits.
pub open spec fn two_digits(n: nat) -> Seq<char> {
    if n < 10 {
        "0"@ + decimal(n)
    } else {
        decimal(n)
    }
}

/// A duration in seconds as hours, minutes and seconds, `HH:MM:SS`.
pub open spec fn clock_text(seconds: nat) -> Seq<char> {
    two_digits(seconds / 3600) + ":"@ + two_digits((seconds % 3600) / 60) + ":"@ + two_digits(
        seconds % 60,
    )
}

fn push_two_digits(s: &mut String, n: u64)
    ensures
        final(s)@ == old(s)@ + two_digits(n as nat),
{
    if n < 10 {
        push_str(s, "0");
    }
    push_decimal(s, n);
    assert(s@ =~= old(s)@ + two_digits(n as nat));
}

/// A duration in seconds as hours, minutes and seconds, each of at least two digits.
pub fn pretty_ellapsed_time(seconds: u64) -> (r: String)
    ensures
        r@ == clock_text(seconds as nat),
{
    let hrs = seconds / 3600;
    let remainder = seconds - hrs * 3600;
    let mins = remainder / 60;
    let secs = remainder - mins * 60;
    assert(remainder == seconds % 3600);
    assert(secs == seconds % 60) by (nonlinear_arith)
        requires
            remainder == seconds % 3600,
            mins == remainder / 60,
            secs == remainder - mins * 60,
    ;
    let mut r = String::new();
    push_two_digits(&mut r, hrs);
    push_str(&mut r, ":");
    push_two_digits(&mut r, mins);
    push_str(&mut r, ":");
    push_two_digits(&mut r, secs);
    assert(r@ =~= clock_text(seconds as nat));
    r
}

} // verus!
