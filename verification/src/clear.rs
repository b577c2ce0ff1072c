//! The words of the command that deletes messages in bulk. Fetching and
//! deleting the messages is the caller's work.

use vstd::prelude::*;

use crate::text::{concat2, concat3, decimal, decimal_text};

verus! {

/// How many messages can be fetched, and deleted, at once.
pub const MAX_BULK: u8 = 100;

/// How many messages to fetch for a request to delete the last `number`:
/// that many, but never more than can be deleted at once.
pub fn fetch_limit(number: u64) -> (limit: u8)
    ensures
        limit == if number <= MAX_BULK {
            number
        } else {
            MAX_BULK as u64
        },
{
    if number <= 100 {
        number as u8
    } else {
        MAX_BULK
    }
}

/// The reply after the last `number` messages were deleted.
pub open spec fn cleared_message(number: u64) -> Seq<char> {
    "Successfully deleted the last "@ + decimal_text(number as nat) + " messages."@
}

/// Writes the reply after the last `number` messages were deleted.
pub fn cleared_text(number: u64) -> (text: String)
    ensures
        text@ == cleared_message(number),
{
    let count = decimal(number);
    concat3("Successfully deleted the last ", count.as_str(), " messages.")
}

/// The reply after the deletion failed, with the error in words.
pub open spec fn failure_message(error: Seq<char>) -> Seq<char> {
    "There was an error: "@ + error
}

/// Writes the reply after the deletion failed.
pub fn failure_text(error: &str) -> (text: String)
    ensures
        text@ == failure_message(error@),
{
    concat2("There was an error: ", error)
}

} // verus!
