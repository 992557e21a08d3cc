//! Settles a submitted remove menu.

use vstd::prelude::*;
use vstd::string::*;
use crate::message_component_commands::{ComponentInteractionError, pick, picked_ids, remove_pick, RoleChange, PLACEHOLDER_VALUE};
use crate::catalog::{drop_id, other_than, GameCatalog};
use crate::text::id_of;

verus! {

/// Settles a submitted remove menu. The choice is checked again against the
/// catalog and the member's roles as they are now: only picked roles that are
/// still in the catalog and held are taken away. Picking the placeholder
/// alone changes nothing; beside other roles it is ignored.
pub fn execute(
    values: &Vec<String>,
    member_roles: &Option<Vec<u64>>,
    catalog: &GameCatalog,
) -> (r: Result<RoleChange, ComponentInteractionError>)
    ensures
        member_roles is None ==> (r matches Err(ComponentInteractionError::UnresolvedData(c, m)) && c@
            == "game_remove_rely"@ && m@ == "Interaction caller data missing"@),
        member_roles matches Some(held) ==> ((forall|i: int|
            0 <= i < values@.len() ==> #[trigger] id_of(values@[i]@) is Ok) ==> ({
            let taken = crate::catalog::ids_of(values@).filter(remove_pick(catalog@, held@));
            let changed = taken.filter(crate::catalog::other_than(PLACEHOLDER_VALUE));
            &&& taken.len() == 0 ==> (r matches Ok(RoleChange::Unchanged(t)) && t@
                == "You already removed the role(s) selected"@)
            &&& taken.len() > 0 && changed.len() == 0 ==> (r matches Ok(RoleChange::Unchanged(t)) && t@
                == "No roles removed"@)
            &&& changed.len() > 0 ==> (r matches Ok(RoleChange::Apply(ids)) && ids@ == changed)
        })),
        member_roles is Some && !(forall|i: int|
            0 <= i < values@.len() ==> #[trigger] id_of(values@[i]@) is Ok) ==> (r matches Err(
            ComponentInteractionError::Other(m),
        ) && crate::catalog::first_parse_failure(values@, m@)),
{
    let held = match member_roles {
        Some(h) => h,
        None => {
            return Err(
                ComponentInteractionError::UnresolvedData(
                    String::from_str("game_remove_rely"),
                    String::from_str("Interaction caller data missing"),
                ),
            );
        },
    };
    let ids = picked_ids(values)?;
    let taken = pick(&ids, catalog, held, false);
    if taken.len() == 0 {
        return Ok(RoleChange::Unchanged(String::from_str("You already removed the role(s) selected")));
    }
    let changed = drop_id(&taken, PLACEHOLDER_VALUE);
    if changed.len() == 0 {
        return Ok(RoleChange::Unchanged(String::from_str("No roles removed")));
    }
    Ok(RoleChange::Apply(changed))
}

} // verus!
