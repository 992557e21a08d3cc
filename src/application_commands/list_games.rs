//! `list-games`: lists the game catalog by name, and repairs it when the
//! guild no longer has some of its roles.

use vstd::prelude::*;
use vstd::string::*;
use crate::application_commands::{load_catalog, CommandError};
use crate::catalog::{all_resolved, lines, lines_of, names_of, role_names, GameCatalog, GuildSnapshot};

verus! {

/// What `list-games` found.
pub enum GameListing {
    /// Every catalog role resolved; holds their names, one per line.
    Listed(String),
    /// Some catalog role is missing from the snapshot: the catalog needs repair.
    Stale,
}

/// Lists the catalog's roles by display name, one per line, in catalog order.
/// Never returns partial output: if any role is missing from the snapshot, the
/// listing is stale.
pub fn execute(catalog: &GameCatalog, snapshot: &GuildSnapshot) -> (r: GameListing)
    requires
        snapshot.wf(),
    ensures
        all_resolved(catalog@, *snapshot) ==> (r matches GameListing::Listed(t) && t@ == lines_of(
            names_of(catalog@, *snapshot),
        )),
        !all_resolved(catalog@, *snapshot) ==> r is Stale,
{
    match role_names(catalog.ids(), snapshot) {
        Some(names) => {
            let t = lines(&names);
            assert(crate::catalog::views_of(names@) =~= names_of(catalog@, *snapshot));
            GameListing::Listed(t)
        },
        None => GameListing::Stale,
    }
}

/// Reads the guild id that the repair needs from what the store returned.
pub fn fix_guild_id(lookup: Result<Option<String>, String>) -> (r: Result<u64, CommandError>)
    ensures
        lookup matches Err(e) ==> (r matches Err(CommandError::RedisError(m)) && m@ == e@),
        lookup matches Ok(None) ==> (r matches Err(CommandError::RedisError(m)) && m@
            == "`guild id` missing"@),
        lookup matches Ok(Some(t)) ==> (crate::text::id_of(t@) matches Ok(v) ==> r == Ok::<
            u64,
            CommandError,
        >(v)),
        lookup matches Ok(Some(t)) ==> (crate::text::id_of(t@) is Err ==> (r matches Err(
            CommandError::Other(m),
        ) && m@ == "`guild id` is invalid"@)),
{
    match lookup {
        Err(e) => Err(CommandError::RedisError(e)),
        Ok(None) => Err(CommandError::RedisError(String::from_str("`guild id` missing"))),
        Ok(Some(t)) => match crate::text::parse_id(t.as_str()) {
            Ok(v) => Ok(v),
            Err(_) => Err(CommandError::Other(String::from_str("`guild id` is invalid"))),
        },
    }
}

/// The repair of the catalog against the roles that the guild really has:
/// every catalog id that `live` lacks is evicted. Returns the evicted ids, for
/// the caller to remove from the store.
pub fn plan_fix(stored: Result<Vec<String>, String>, live: &Vec<u64>) -> (r: Result<
    Vec<u64>,
    CommandError,
>)
    ensures
        stored matches Err(e) ==> (r matches Err(CommandError::RedisError(m)) && m@ == e@),
        stored matches Ok(v) ==> (!(forall|i: int|
            0 <= i < v@.len() ==> #[trigger] crate::text::id_of(v@[i]@) is Ok) ==> (r matches Err(
            CommandError::Other(m),
        ) && crate::catalog::first_parse_failure(v@, m@))),
        stored matches Ok(v) ==> ((forall|i: int|
            0 <= i < v@.len() ==> #[trigger] crate::text::id_of(v@[i]@) is Ok) ==> (r matches Ok(
            gone,
        ) && gone@ == crate::catalog::add_all(Seq::empty(), crate::catalog::ids_of(v@)).filter(
            crate::catalog::not_in_seq(live@),
        ))),
{
    let mut catalog = load_catalog(stored)?;
    Ok(catalog.evict_missing(live))
}

/// The reply when a repair found nothing to evict.
pub open spec fn cache_behind() -> Seq<char> {
    "One of more roles seem to be missing from the cache, please wait a few minutes and try again"@
}

/// The reply when a repair evicted stale roles from the catalog.
pub open spec fn catalog_repaired() -> Seq<char> {
    "One or multiple roles in the games list where deleted. This has been fixed, try running the command again!"@
}

/// The error that a repair ends with, once the evicted ids are gone from the
/// store: a transient cache error when nothing was evicted, else the news that
/// the catalog was repaired. Either way the caller is asked to try again.
pub fn fix_report(evicted: &Vec<u64>) -> (r: CommandError)
    ensures
        evicted@.len() == 0 ==> (r matches CommandError::CacheError(m) && m@ == cache_behind()),
        evicted@.len() > 0 ==> (r matches CommandError::Other(m) && m@ == catalog_repaired()),
{
    if evicted.len() == 0 {
        CommandError::CacheError(
            String::from_str(
                "One of more roles seem to be missing from the cache, please wait a few minutes and try again",
            ),
        )
    } else {
        CommandError::Other(
            String::from_str(
                "One or multiple roles in the games list where deleted. This has been fixed, try running the command again!",
            ),
        )
    }
}

} // verus!
