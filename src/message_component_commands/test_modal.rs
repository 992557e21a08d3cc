//! The test modal button: opens the test form.

use vstd::prelude::*;
use vstd::string::*;
use crate::message_component_commands::{MessageComponentResponseBundle, InputField, ModalSettings};

verus! {

/// Answers the test modal button with the form to open.
pub fn execute() -> (r: MessageComponentResponseBundle)
    ensures
        r.message is None,
        r.modal matches Some(m) && m.custom_id@ == "test-modal"@ && m.title@ == "Test Modal"@
            && m.components@.len() == 1 && m.components@[0].custom_id@ == "message"@,
{
    let mut fields: Vec<InputField> = Vec::new();
    fields.push(
        InputField {
            custom_id: String::from_str("message"),
            label: String::from_str("Message"),
            placeholder: String::from_str("Type your message here"),
            required: true,
            short: true,
        },
    );
    let modal = ModalSettings::new(
        String::from_str("test-modal"),
        String::from_str("Test Modal"),
        fields,
    );
    MessageComponentResponseBundle { message: None, modal: Some(modal) }
}

} // verus!
