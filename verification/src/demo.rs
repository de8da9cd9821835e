//! What the demo reports of the messages that it sends and receives.

use vstd::prelude::*;

use crate::text::{decimal, join2, join3, join4};

verus! {

/// How many microseconds a message was under way that was created at
/// `created_at_nanos` and received at `now_nanos`. A clock that went backwards
/// counts as no time.
pub fn transit_us(now_nanos: u64, created_at_nanos: u64) -> (r: u64)
    ensures
        r == (if now_nanos >= created_at_nanos {
            (now_nanos - created_at_nanos) / 1_000
        } else {
            0
        }),
        now_nanos < created_at_nanos ==> r == 0,
        now_nanos >= created_at_nanos ==> 1_000 * r <= now_nanos - created_at_nanos < 1_000 * (r
            + 1),
{
    if now_nanos >= created_at_nanos {
        (now_nanos - created_at_nanos) / 1_000
    } else {
        0
    }
}

/// Whether messages are missing between `seq` and the one received before it.
/// Numbers start at 1; `previous` is 0 for the first message that is received.
pub fn has_gap(previous: u64, seq: u64) -> (r: bool)
    requires
        previous < u64::MAX,
    ensures
        r == (previous != 0 && seq != previous + 1),
{
    previous != 0 && seq != previous + 1
}

/// The report on a message sent.
pub fn sent_line(seq: u64) -> (r: String)
    ensures
        r@ == "sent seq="@ + crate::text::decimal_text(seq as nat),
{
    let number = decimal(seq);
    join2("sent seq=", number.as_str())
}

/// The report on a message that was not sent.
pub fn failed_line(seq: u64, error: &str) -> (r: String)
    ensures
        r@ == "send failed seq="@ + crate::text::decimal_text(seq as nat) + ": "@ + error@,
{
    let number = decimal(seq);
    join4("send failed seq=", number.as_str(), ": ", error)
}

/// The report on a message received.
pub fn received_line(seq: u64, transit_us: u64, len: usize, gap: bool) -> (r: String)
    ensures
        r@ == "recv seq="@ + crate::text::decimal_text(seq as nat) + " transit="@
            + crate::text::decimal_text(transit_us as nat) + "us len="@
            + crate::text::decimal_text(len as nat) + (if gap {
            " GAP"@
        } else {
            ""@
        }),
{
    let number = decimal(seq);
    let transit = decimal(transit_us);
    let length = decimal(len as u64);
    let head = join4("recv seq=", number.as_str(), " transit=", transit.as_str());
    let line = join3(head.as_str(), "us len=", length.as_str());
    if gap {
        join2(line.as_str(), " GAP")
    } else {
        join2(line.as_str(), "")
    }
}

} // verus!
