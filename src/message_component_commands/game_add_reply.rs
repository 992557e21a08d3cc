//! Settles a submitted add menu.

use vstd::prelude::*;
use vstd::string::*;
use crate::message_component_commands::{ComponentInteractionError, pick, picked_ids, add_pick, RoleChange, PLACEHOLDER_VALUE};
use crate::catalog::{drop_id, other_than, GameCatalog};
use crate::text::id_of;

verus! {

/// Settles a submitted add menu. The choice is checked again against the
/// catalog and the member's roles as they are now: only picked roles that are
/// still in the catalog and not held yet are granted. The placeholder value
/// is never granted.
pub fn execute(
    values: &Vec<String>,
    member_roles: &Option<Vec<u64>>,
    catalog: &GameCatalog,
) -> (r: Result<RoleChange, ComponentInteractionError>)
    ensures
        member_roles is None ==> (r matches Err(ComponentInteractionError::UnresolvedData(c, m)) && c@
            == "game_add_rely"@ && m@ == "Interaction caller data missing"@),
        member_roles matches Some(held) ==> ((forall|i: int|
            0 <= i < values@.len() ==> #[trigger] id_of(values@[i]@) is Ok) ==> ({
            let granted = crate::catalog::ids_of(values@).filter(add_pick(catalog@, held@));
            let changed = granted.filter(crate::catalog::other_than(PLACEHOLDER_VALUE));
            &&& granted.len() == 0 ==> (r matches Ok(RoleChange::Unchanged(t)) && t@
                == "You already have the role(s) selected"@)
            &&& granted.len() > 0 && changed.len() == 0 ==> (r matches Ok(RoleChange::Unchanged(t)) && t@
                == "No roles assigned"@)
            &&& changed.len() > 0 ==> (r matches Ok(RoleChange::Apply(ids)) && ids@ == changed)
        })),
        member_roles is Some && !(forall|i: int|
            0 <= i < values@.len() ==> #[trigger] id_of(values@[i]@) is Ok) ==> (r matches Err(
            ComponentInteractionError::Other(m),
        ) && crate::catalog::first_parse_failure(values@, m@)),
{
    let held = match member_roles {
        Some(h) => h,
        None => {
            return Err(
                ComponentInteractionError::UnresolvedData(
                    String::from_str("game_add_rely"),
                    String::from_str("Interaction caller data missing"),
                ),
            );
        },
    };
    let ids = picked_ids(values)?;
    let granted = pick(&ids, catalog, held, true);
    if granted.len() == 0 {
        return Ok(RoleChange::Unchanged(String::from_str("You already have the role(s) selected")));
    }
    let changed = drop_id(&granted, PLACEHOLDER_VALUE);
    if changed.len() == 0 {
        return Ok(RoleChange::Unchanged(String::from_str("No roles assigned")));
    }
    Ok(RoleChange::Apply(changed))
}

/// A submitted add menu is checked again against the catalog as it is at
/// submission: a picked role that has left the catalog meanwhile is never
/// granted, and a picked role that is in the catalog and not held is, unless
/// it is the placeholder value.
pub proof fn law_submission_rechecks_catalog(picked: Seq<u64>, catalog: GameCatalog, held: Seq<u64>, x: u64)
    ensures
        !catalog@.contains(x) ==> !picked.filter(add_pick(catalog@, held)).filter(
            other_than(PLACEHOLDER_VALUE),
        ).contains(x),
        picked.contains(x) && catalog@.contains(x) && !held.contains(x) && x != PLACEHOLDER_VALUE
            ==> picked.filter(add_pick(catalog@, held)).filter(other_than(PLACEHOLDER_VALUE)).contains(
            x,
        ),
{
    let p = add_pick(catalog@, held);
    let q = other_than(PLACEHOLDER_VALUE);
    let granted = picked.filter(p);
    if granted.filter(q).contains(x) {
        granted.lemma_filter_contains_rev(q, x);
        let k = choose|k: int| 0 <= k < granted.len() && granted[k] == x;
        picked.lemma_filter_pred(p, k);
    }
    if picked.contains(x) && catalog@.contains(x) && !held.contains(x) && x != PLACEHOLDER_VALUE {
        let k = choose|k: int| 0 <= k < picked.len() && picked[k] == x;
        picked.lemma_filter_contains(p, k);
        let m = choose|m: int| 0 <= m < granted.len() && granted[m] == x;
        granted.lemma_filter_contains(q, m);
    }
}

} // verus!
