//! The words of the command that measures the bot's response time. Reading
//! the two clocks and sending the reply is the caller's work.

use vstd::prelude::*;

use crate::text::{concat3, decimal, decimal_text};

verus! {

/// The time between the moment the command was made and now, both given as
/// the milliseconds within their second: the difference, where the command
/// does not come after now; none where it does.
pub fn response_time(now_millis: u32, created_millis: u32) -> (elapsed: Option<u32>)
    ensures
        elapsed == if created_millis <= now_millis {
            Some((now_millis - created_millis) as u32)
        } else {
            None
        },
{
    now_millis.checked_sub(created_millis)
}

/// The reply that tells the response time.
pub open spec fn pong_message(response_time: u32) -> Seq<char> {
    "Pong! Response time: `"@ + decimal_text(response_time as nat) + "ms`"@
}

/// Writes the reply that tells the response time.
pub fn pong_text(response_time: u32) -> (text: String)
    ensures
        text@ == pong_message(response_time),
{
    let millis = decimal(response_time as u64);
    concat3("Pong! Response time: `", millis.as_str(), "ms`")
}

} // verus!
