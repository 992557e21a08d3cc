//! `remove-admin`: removes a user from the admins; never the master admin.

use vstd::prelude::*;
use vstd::string::*;
use crate::admins::{AdminSet, MASTER_ADMIN};
use crate::application_commands::{expect_user, store_reply, suffixed, user_option_error, CommandError, Named, OptionValue};
use crate::catalog::other_than;

verus! {

/// What `remove-admin` did to the admins.
pub enum AdminRemoval {
    /// Nothing was removed; holds the reply.
    Kept(String),
    /// The user was removed; the caller removes them from the store too.
    Removed(Named),
}

/// The reply when someone asks to remove the master admin.
pub open spec fn master_admin_kept() -> Seq<char> {
    "Cannot remove master admin"@
}

/// Removes the user that `remove-admin` names from the admins. The master
/// admin is never removed: asking for it succeeds with an explanation, and the
/// admins stay as they were.
pub fn execute(admins: &mut AdminSet, option: Option<Option<OptionValue>>) -> (r: Result<
    AdminRemoval,
    CommandError,
>)
    requires
        old(admins).wf(),
    ensures
        final(admins).wf(),
        option matches Some(Some(OptionValue::User { id, tag })) ==> (if id == MASTER_ADMIN {
            r matches Ok(AdminRemoval::Kept(t)) && t@ == master_admin_kept() && final(admins)@ == old(
                admins,
            )@
        } else {
            r matches Ok(AdminRemoval::Removed(n)) && n.id == id && n.label@ == tag@ && final(admins)@
                == old(admins)@.filter(other_than(id))
        }),
        !(option matches Some(Some(OptionValue::User { .. }))) ==> (r matches Err(e) && user_option_error(
            "Remove Admin"@,
            option,
            e,
        )) && final(admins)@ == old(admins)@,
{
    let user = expect_user("Remove Admin", option)?;
    if user.id == MASTER_ADMIN {
        return Ok(AdminRemoval::Kept(String::from_str("Cannot remove master admin")));
    }
    admins.remove(user.id);
    Ok(AdminRemoval::Removed(user))
}

/// The reply to `remove-admin` once the store write is done.
pub fn admin_removed(tag: &str, stored: Result<(), String>) -> (r: Result<String, CommandError>)
    ensures
        stored is Ok ==> (r matches Ok(t) && t@ == tag@ + " has been removed from the admin list"@),
        stored is Err ==> (r matches Err(CommandError::RedisError(m)) && m@
            == "remove_admin() failed"@),
{
    store_reply(suffixed(tag, " has been removed from the admin list"), stored, "remove_admin() failed")
}

} // verus!
