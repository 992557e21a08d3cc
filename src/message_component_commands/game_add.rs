//! The self-service add menu.

use vstd::prelude::*;
use crate::message_component_commands::{ComponentInteractionError, caller_missing, game_menu, offers, read_catalog, GameMenu};
use crate::catalog::{addable, all_resolved, candidates_to_add, GuildSnapshot};
use crate::text::id_of;

verus! {

/// The self-service add menu: the catalog roles that the member, holding
/// `member_roles`, does not hold yet. With none, a single placeholder option
/// says so. `member_roles` is `None` when the platform did not say who called.
pub fn execute(
    stored: Result<Vec<String>, String>,
    member_roles: &Option<Vec<u64>>,
    snapshot: &GuildSnapshot,
) -> (r: Result<GameMenu, ComponentInteractionError>)
    requires
        snapshot.wf(),
    ensures
        stored matches Err(e) ==> (r matches Err(ComponentInteractionError::RedisError(m)) && m@ == e@),
        stored is Ok && member_roles is None ==> (r matches Err(ComponentInteractionError::UnresolvedData(c, m))
            && c@ == "game_add"@ && m@ == "Interaction caller data missing"@),
        stored matches Ok(v) ==> (member_roles is Some ==> (!(forall|i: int|
            0 <= i < v@.len() ==> #[trigger] id_of(v@[i]@) is Ok) ==> (r matches Err(
            ComponentInteractionError::Other(m),
        ) && crate::catalog::first_parse_failure(v@, m@)))),
        stored matches Ok(v) ==> (member_roles matches Some(held) ==> (forall|i: int|
            0 <= i < v@.len() ==> #[trigger] id_of(v@[i]@) is Ok) ==> ({
            let cands = addable(crate::catalog::add_all(Seq::empty(), crate::catalog::ids_of(v@)), held@);
            &&& !all_resolved(cands, *snapshot) ==> (r matches Ok(GameMenu::Stale))
            &&& all_resolved(cands, *snapshot) ==> (r matches Ok(GameMenu::Ready(m)) && m.custom_id@
                == "game-add-reply"@ && m.placeholder@ == "No games selected"@ && (if cands.len() == 0 {
                m.options@.len() == 1 && m.options@[0].label@
                    == "You currently have all available game roles"@ && m.options@[0].value@ == "0"@
            } else {
                offers(m.options@, cands, *snapshot)
            }))
        })),
{
    let entries = match stored {
        Ok(v) => v,
        Err(e) => {
            return Err(ComponentInteractionError::RedisError(e));
        },
    };
    let held = match member_roles {
        Some(h) => h,
        None => {
            return Err(caller_missing("game_add"));
        },
    };
    let catalog = read_catalog(&entries)?;
    let cands = candidates_to_add(&catalog, held);
    Ok(game_menu(&cands, snapshot, "game-add-reply", "You currently have all available game roles"))
}

} // verus!
