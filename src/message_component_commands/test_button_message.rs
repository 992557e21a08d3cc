//! The test button: says hello.

use vstd::prelude::*;
use vstd::string::*;
use crate::message_component_commands::MessageComponentResponseBundle;

verus! {

/// Answers the test button.
pub fn execute() -> (r: MessageComponentResponseBundle)
    ensures
        r.modal is None,
        r.message matches Some(t) && t@ == "Well hello there!"@,
{
    MessageComponentResponseBundle {
        message: Some(String::from_str("Well hello there!")),
        modal: None,
    }
}

} // verus!
