//! `prune`: deletes the channel's latest messages.

use vstd::prelude::*;
use vstd::string::*;
use crate::application_commands::{CommandError, OptionValue};

verus! {

/// What `prune` was asked to do.
#[derive(Debug)]
pub enum PruneRequest {
    /// Delete up to this many of the channel's latest messages.
    Delete(u64),
    /// Nothing to delete; holds the reply.
    Reply(String),
}

/// Reads the amount that `prune` was given: a negative amount deletes nothing,
/// and an option that is not an integer is answered without deleting.
pub fn execute(option: Option<Option<OptionValue>>) -> (r: Result<PruneRequest, CommandError>)
    ensures
        option is None || option == Some::<Option<OptionValue>>(None) ==> (r matches Err(
            CommandError::ArgumentMissing(c),
        ) && c@ == "Prune"@),
        option matches Some(Some(OptionValue::Integer(n))) ==> (r matches Ok(PruneRequest::Delete(k))
            && k == (if n < 0 {
            0
        } else {
            n as int
        })),
        option matches Some(Some(v)) ==> (!(v is Integer) ==> (r matches Ok(PruneRequest::Reply(t))
            && t@ == "Please provide a valid amount"@)),
{
    match option {
        Some(Some(OptionValue::Integer(n))) => {
            if n < 0 {
                Ok(PruneRequest::Delete(0))
            } else {
                Ok(PruneRequest::Delete(n as u64))
            }
        },
        Some(Some(_)) => Ok(PruneRequest::Reply(String::from_str("Please provide a valid amount"))),
        _ => Err(CommandError::ArgumentMissing(String::from_str("Prune"))),
    }
}

} // verus!
