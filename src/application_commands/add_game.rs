//! `add-game`: adds a role to the game catalog.

use vstd::prelude::*;
use crate::application_commands::{expect_role, role_option_error, store_reply, suffixed, CommandError, Named, OptionValue};
use crate::catalog::{add_one, GameCatalog};

verus! {

/// Adds the role that `add-game` names to the catalog; the caller then writes
/// it to the store.
pub fn execute(catalog: &mut GameCatalog, option: Option<Option<OptionValue>>) -> (r: Result<
    Named,
    CommandError,
>)
    requires
        old(catalog).wf(),
    ensures
        final(catalog).wf(),
        option matches Some(Some(OptionValue::Role { id, name })) ==> (r matches Ok(n) && n.id == id
            && n.label@ == name@ && final(catalog)@ == add_one(old(catalog)@, id)),
        !(option matches Some(Some(OptionValue::Role { .. }))) ==> (r matches Err(e) && role_option_error(
            "Add Game"@,
            option,
            e,
        )) && final(catalog)@ == old(catalog)@,
{
    let role = expect_role("Add Game", option)?;
    catalog.add(role.id);
    Ok(role)
}

/// The reply to `add-game` once the store write is done.
pub fn game_added(name: &str, stored: Result<(), String>) -> (r: Result<String, CommandError>)
    ensures
        stored is Ok ==> (r matches Ok(t) && t@ == name@ + " has been added to the game list"@),
        stored is Err ==> (r matches Err(CommandError::RedisError(m)) && m@ == "add_game() failed"@),
{
    store_reply(suffixed(name, " has been added to the game list"), stored, "add_game() failed")
}

} // verus!
