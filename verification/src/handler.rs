//! The invocation adapter: from an event and the outcome of its write to the
//! response.
//!
//! A failed write is no error of the invocation. The response is built either
//! way, and its message alone tells the two outcomes apart.

use crate::model::{Event, EventView, Response, ResponseView};
use vstd::prelude::*;

verus! {

/// What the message of a successful registration begins with.
pub const CREATED_PREFIX: &'static str = "Created user: ";

/// What the message of a failed registration begins with.
pub const FAILED_PREFIX: &'static str = "Failed to create user: ";

/// The message for `user_name` after a write with outcome `is_success`: the
/// prefix of that outcome, then the name as it was received.
pub open spec fn outcome_message(user_name: Seq<char>, is_success: bool) -> Seq<char> {
    if is_success {
        CREATED_PREFIX@ + user_name
    } else {
        FAILED_PREFIX@ + user_name
    }
}

/// The response to `event` after a write with outcome `is_success`.
pub open spec fn response_to(event: EventView, is_success: bool) -> ResponseView {
    ResponseView {
        req_id: event.request_id,
        msg: outcome_message(event.user_name, is_success),
    }
}

/// Answers `event`, given whether the write for its user went through.
///
/// The request identifier is handed back unchanged, and the message names the
/// user after the prefix of the outcome. There is no failing case.
pub fn handler(event: Event, is_success: bool) -> (response: Response)
    ensures
        response@ == response_to(event@, is_success),
{
    let prefix = if is_success {
        CREATED_PREFIX
    } else {
        FAILED_PREFIX
    };
    let msg = String::from_str(prefix).concat(event.payload.user_name.as_str());
    Response { req_id: event.context.request_id, msg }
}

/// The message of a response tells both the outcome and the user: two
/// messages are equal only if they were built for the same name and the same
/// outcome.
pub proof fn lemma_message_tells_outcome_and_user(
    first_name: Seq<char>,
    first_success: bool,
    second_name: Seq<char>,
    second_success: bool,
)
    requires
        outcome_message(first_name, first_success) == outcome_message(second_name, second_success),
    ensures
        first_success == second_success,
        first_name == second_name,
{
    reveal_strlit("Created user: ");
    reveal_strlit("Failed to create user: ");
    let first = outcome_message(first_name, first_success);
    let second = outcome_message(second_name, second_success);
    assert(first[0] == if first_success { 'C' } else { 'F' });
    assert(second[0] == if second_success { 'C' } else { 'F' });
    let prefix = if first_success { CREATED_PREFIX@ } else { FAILED_PREFIX@ };
    assert(first_name =~= first.subrange(prefix.len() as int, first.len() as int));
    assert(second_name =~= second.subrange(prefix.len() as int, second.len() as int));
}

} // verus!
