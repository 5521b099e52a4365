//! The clock line of the console.

use vstd::prelude::*;
use crate::text::{append_two_digits, two_digits};

verus! {

/// A time of day as `HH:MM:SS`, each part two digits wide at least.
pub open spec fn clock_text(hours: nat, minutes: nat, seconds: nat) -> Seq<char> {
    two_digits(hours) + seq![':'] + two_digits(minutes) + seq![':'] + two_digits(seconds)
}

/// Writes a time of day as `HH:MM:SS`.
pub fn format_clock(hours: u32, minutes: u32, seconds: u32) -> (r: String)
    ensures
        r@ == clock_text(hours as nat, minutes as nat, seconds as nat),
{
    proof {
        reveal_strlit(":");
    }
    let mut out = String::new();
    append_two_digits(&mut out, hours);
    out.append(":");
    append_two_digits(&mut out, minutes);
    out.append(":");
    append_two_digits(&mut out, seconds);
    out
}

} // verus!
