//! Modal submissions: a submitted form is matched to the form that was opened
//! by its custom id, and its known field is read back.

use vstd::prelude::*;
use vstd::string::*;
use crate::events::Reply;
use crate::text::same_text;

verus! {

/// Why a modal submission failed.
#[derive(Debug)]
pub enum ModalError {
    /// The submission lacks a value; holds the modal's name.
    ArgumentMissing(String),
    /// The submission does not match the modal's fields; holds the modal's name and a message.
    UnresolvedData(String, String),
    /// The key-value store failed.
    RedisError(String),
    /// Any other failure.
    Other(String),
}

/// A submitted component of a modal, in the order the form laid them out.
#[derive(Debug)]
pub enum ModalComponent {
    InputText { custom_id: String, value: String },
    /// A component that is not a text input.
    Other { custom_id: String },
}

/// The custom id of a submitted component.
pub open spec fn component_id(c: ModalComponent) -> Seq<char> {
    match c {
        ModalComponent::InputText { custom_id, .. } => custom_id@,
        ModalComponent::Other { custom_id } => custom_id@,
    }
}

/// Whether `i` is the place of the first component of `cs` with the id `message`.
pub open spec fn first_message(cs: Seq<ModalComponent>, i: int) -> bool {
    &&& 0 <= i < cs.len()
    &&& component_id(cs[i]) == "message"@
    &&& forall|j: int| 0 <= j < i ==> component_id(#[trigger] cs[j]) != "message"@
}

/// Whether `r` is what reading back the test modal's submitted components `cs`
/// gives: the first component with the id `message` must be a text input, and
/// its value is echoed; else the submission does not match the form.
pub open spec fn reads_back(cs: Seq<ModalComponent>, r: Result<String, ModalError>) -> bool {
    &&& r is Ok <==> exists|i: int| #[trigger] first_message(cs, i) && cs[i] is InputText
    &&& r matches Ok(t) ==> exists|i: int|
        #[trigger] first_message(cs, i) && (cs[i] matches ModalComponent::InputText { value, .. }
            && t@ == "Modal message: "@ + value@)
    &&& r matches Err(e) ==> (e matches ModalError::UnresolvedData(c, m) && c@ == "test_modal"@
        && m@ == "InputText `message` is missing from the modal"@)
}

/// Reads back the test modal: the first component with the id `message` must
/// be a text input; its value is echoed.
pub fn process(components: &Vec<ModalComponent>) -> (r: Result<String, ModalError>)
    ensures
        reads_back(components@, r),
{
    let mut i: usize = 0;
    while i < components.len()
        invariant
            i <= components@.len(),
            forall|j: int| 0 <= j < i ==> component_id(#[trigger] components@[j]) != "message"@,
        ensures
            i == components@.len() || (i < components@.len() && component_id(components@[i as int])
                == "message"@ && components@[i as int] is Other),
        decreases components@.len() - i,
    {
        match &components[i] {
            ModalComponent::InputText { custom_id, value } => {
                if same_text(custom_id.as_str(), "message") {
                    let mut out = String::from_str("Modal message: ");
                    out.append(value.as_str());
                    assert(first_message(components@, i as int));
                    return Ok(out);
                }
            },
            ModalComponent::Other { custom_id } => {
                if same_text(custom_id.as_str(), "message") {
                    break;
                }
            },
        }
        i = i + 1;
    }
    proof {
        assert forall|k: int| #[trigger] first_message(components@, k) implies !(
        components@[k] is InputText) by {
            if k > i {
                assert(component_id(components@[i as int]) == "message"@);
            }
        }
    }
    Err(
        ModalError::UnresolvedData(
            String::from_str("test_modal"),
            String::from_str("InputText `message` is missing from the modal"),
        ),
    )
}

/// Processes a submitted modal by its custom id. An unknown id is not an
/// error: it finishes with a fixed reply.
pub fn process_modal_data(modal_id: &str, components: &Vec<ModalComponent>) -> (r: Result<String, ModalError>)
    ensures
        modal_id@ == "test-modal"@ ==> reads_back(components@, r),
        modal_id@ != "test-modal"@ ==> (r matches Ok(t) && t@ == "Modal response removed or not implemented"@),
{
    if same_text(modal_id, "test-modal") {
        process(components)
    } else {
        Ok(String::from_str("Modal response removed or not implemented"))
    }
}

/// What the caller is told about a failed modal submission.
pub open spec fn modal_error_text(error: ModalError) -> Seq<char> {
    match error {
        ModalError::ArgumentMissing(_) => "Missing an option..."@,
        ModalError::RedisError(m) => m@,
        ModalError::Other(m) => m@,
        ModalError::UnresolvedData(_, m) => m@,
    }
}

/// What the caller is told about a failed modal submission.
pub fn match_error(error: ModalError) -> (r: String)
    ensures
        r@ == modal_error_text(error),
{
    match error {
        ModalError::ArgumentMissing(_) => String::from_str("Missing an option..."),
        ModalError::RedisError(content) => content,
        ModalError::Other(content) => content,
        ModalError::UnresolvedData(_, content) => content,
    }
}

/// The reply to a modal submission: its text when there is some, the mapped
/// error on failure, else nothing.
pub fn modal_reply(result: Result<String, ModalError>, ephemeral: bool) -> (r: Reply)
    ensures
        result matches Ok(t) ==> (if t@.len() == 0 {
            r is Nothing
        } else {
            r matches Reply::Message { content, ephemeral: e } && content@ == t@ && e == ephemeral
        }),
        result matches Err(er) ==> (r matches Reply::Message { content, ephemeral: e } && e == ephemeral
            && content@ == modal_error_text(er)),
{
    match result {
        Ok(content) => {
            if content.as_str().unicode_len() == 0 {
                Reply::Nothing
            } else {
                Reply::Message { content, ephemeral }
            }
        },
        Err(error) => Reply::Message { content: match_error(error), ephemeral },
    }
}

} // verus!
