//! `get-user-id`: tells the id of the user named.

use vstd::prelude::*;
use vstd::string::*;
use crate::application_commands::{expect_user, user_option_error, CommandError, OptionValue};
use crate::text::{decimal, decimal_text};

verus! {

/// Answers `get-user-id`: how the named user is shown, and their id.
pub fn execute(option: Option<Option<OptionValue>>) -> (r: Result<String, CommandError>)
    ensures
        option matches Some(Some(OptionValue::User { id, tag })) ==> (r matches Ok(t) && t@ == tag@
            + "'s id is "@ + decimal_text(id as nat)),
        !(option matches Some(Some(OptionValue::User { .. }))) ==> (r matches Err(e)
            && user_option_error("Get User ID"@, option, e)),
{
    let user = expect_user("Get User ID", option)?;
    let mut out = user.label;
    out.append("'s id is ");
    let digits = decimal(user.id);
    out.append(digits.as_str());
    Ok(out)
}

} // verus!
