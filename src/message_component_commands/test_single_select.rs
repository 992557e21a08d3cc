//! The test single select: echoes the value picked.

use vstd::prelude::*;
use vstd::string::*;
use crate::message_component_commands::{ComponentInteractionError, MessageComponentResponseBundle};

verus! {

/// Answers the test single select with the value picked.
pub fn execute(values: &Vec<String>) -> (r: Result<
    MessageComponentResponseBundle,
    ComponentInteractionError,
>)
    ensures
        values@.len() > 0 ==> (r matches Ok(b) && b.modal is None && (b.message matches Some(t)
            && t@ == values@[0]@)),
        values@.len() == 0 ==> (r matches Err(ComponentInteractionError::UnresolvedData(c, m))
            && c@ == "test-single-select"@ && m@ == "Selected value"@),
{
    if values.len() > 0 {
        Ok(MessageComponentResponseBundle { message: Some(values[0].clone()), modal: None })
    } else {
        Err(
            ComponentInteractionError::UnresolvedData(
                String::from_str("test-single-select"),
                String::from_str("Selected value"),
            ),
        )
    }
}

} // verus!
