//! `add-admin`: adds a user to the admins.

use vstd::prelude::*;
use crate::admins::AdminSet;
use crate::application_commands::{expect_user, store_reply, suffixed, user_option_error, CommandError, Named, OptionValue};

verus! {

/// Adds the user that `add-admin` names to the admins; the caller then writes
/// it to the store.
pub fn execute(admins: &mut AdminSet, option: Option<Option<OptionValue>>) -> (r: Result<
    Named,
    CommandError,
>)
    requires
        old(admins).wf(),
    ensures
        final(admins).wf(),
        option matches Some(Some(OptionValue::User { id, tag })) ==> (r matches Ok(n) && n.id == id
            && n.label@ == tag@ && final(admins)@ == (if old(admins)@.contains(id) {
            old(admins)@
        } else {
            old(admins)@.push(id)
        })),
        !(option matches Some(Some(OptionValue::User { .. }))) ==> (r matches Err(e) && user_option_error(
            "Get User ID"@,
            option,
            e,
        )) && final(admins)@ == old(admins)@,
{
    let user = expect_user("Get User ID", option)?;
    admins.add(user.id);
    Ok(user)
}

/// The reply to `add-admin` once the store write is done.
pub fn admin_added(tag: &str, stored: Result<(), String>) -> (r: Result<String, CommandError>)
    ensures
        stored is Ok ==> (r matches Ok(t) && t@ == tag@ + " has been added to the admin list"@),
        stored is Err ==> (r matches Err(CommandError::RedisError(m)) && m@ == "add_admin() failed"@),
{
    store_reply(suffixed(tag, " has been added to the admin list"), stored, "add_admin() failed")
}

} // verus!
