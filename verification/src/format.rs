use vstd::prelude::*;

use crate::text::{decimal2, push_char, push_decimal2};

verus! {

/// `mm:ss`, or `hh:mm:ss` from one hour on, each field at least two digits.
pub open spec fn duration_text(duration_ms: u64) -> Seq<char> {
    let total = duration_ms / 1000;
    let hours = total / 3600;
    let minutes = (total % 3600) / 60;
    let seconds = total % 60;
    if hours > 0 {
        decimal2(hours as nat) + seq![':'] + decimal2(minutes as nat) + seq![':'] + decimal2(seconds as nat)
    } else {
        decimal2(minutes as nat) + seq![':'] + decimal2(seconds as nat)
    }
}

/// Formats a length in milliseconds as a clock reading.
pub fn format_duration(duration_ms: u64) -> (r: String)
    ensures
        r@ == duration_text(duration_ms),
{
    let total = duration_ms / 1000;
    let hours = total / 3600;
    let minutes = (total % 3600) / 60;
    let seconds = total % 60;
    let mut r = String::new();
    if hours > 0 {
        push_decimal2(&mut r, hours);
        push_char(&mut r, ':');
    }
    push_decimal2(&mut r, minutes);
    push_char(&mut r, ':');
    push_decimal2(&mut r, seconds);
    assert(r@ =~= duration_text(duration_ms));
    r
}

} // verus!
