//! `remove-game`: removes a role from the game catalog.

use vstd::prelude::*;
use crate::application_commands::{expect_role, role_option_error, store_reply, suffixed, CommandError, Named, OptionValue};
use crate::catalog::{other_than, GameCatalog};

verus! {

/// Removes the role that `remove-game` names from the catalog; the caller then
/// removes it from the store.
pub fn execute(catalog: &mut GameCatalog, option: Option<Option<OptionValue>>) -> (r: Result<
    Named,
    CommandError,
>)
    requires
        old(catalog).wf(),
    ensures
        final(catalog).wf(),
        option matches Some(Some(OptionValue::Role { id, name })) ==> (r matches Ok(n) && n.id == id
            && n.label@ == name@ && final(catalog)@ == old(catalog)@.filter(other_than(id))),
        !(option matches Some(Some(OptionValue::Role { .. }))) ==> (r matches Err(e) && role_option_error(
            "Remove Game"@,
            option,
            e,
        )) && final(catalog)@ == old(catalog)@,
{
    let role = expect_role("Remove Game", option)?;
    catalog.remove(role.id);
    Ok(role)
}

/// The reply to `remove-game` once the store write is done.
pub fn game_removed(name: &str, stored: Result<(), String>) -> (r: Result<String, CommandError>)
    ensures
        stored is Ok ==> (r matches Ok(t) && t@ == name@ + " has been removed from the game list"@),
        stored is Err ==> (r matches Err(CommandError::RedisError(m)) && m@
            == "remove_game() failed"@),
{
    store_reply(suffixed(name, " has been removed from the game list"), stored, "remove_game() failed")
}

} // verus!
