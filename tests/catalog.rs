use mythicc_bot::application_commands::add_game::game_added;
use mythicc_bot::application_commands::add_game;
use mythicc_bot::application_commands::list_games::GameListing;
use mythicc_bot::application_commands::list_games::fix_guild_id;
use mythicc_bot::application_commands::list_games::fix_report;
use mythicc_bot::application_commands::list_games::plan_fix;
use mythicc_bot::application_commands::list_games;
use mythicc_bot::application_commands::remove_game;
use mythicc_bot::message_component_commands::game_add;
use mythicc_bot::message_component_commands::game_add_reply;
use mythicc_bot::message_component_commands::game_remove;
use mythicc_bot::message_component_commands::game_remove_reply;
use mythicc_bot::application_commands::{load_catalog, CommandError, OptionValue};
use mythicc_bot::catalog::{candidates_to_add, candidates_to_remove, GameCatalog, GuildSnapshot};
use mythicc_bot::message_component_commands::{ComponentInteractionError, GameMenu, RoleChange};

fn snapshot(roles: &[(u64, &str)]) -> GuildSnapshot {
    let mut s = GuildSnapshot::new();
    for (id, name) in roles {
        s.add_role(*id, name.to_string());
    }
    s
}

fn entries(ids: &[&str]) -> Vec<String> {
    ids.iter().map(|s| s.to_string()).collect()
}

fn role(id: u64, name: &str) -> Option<Option<OptionValue>> {
    Some(Some(OptionValue::Role { id, name: name.to_string() }))
}

#[test]
fn adding_twice_keeps_one_occurrence() {
    let mut c = GameCatalog::new();
    assert!(add_game::execute(&mut c, role(11, "Chess")).is_ok());
    assert!(add_game::execute(&mut c, role(11, "Chess")).is_ok());
    assert_eq!(c.ids(), &vec![11]);
}

#[test]
fn removing_an_absent_role_changes_nothing() {
    let mut c = GameCatalog::from_ids(&vec![1, 2]);
    assert!(!c.remove(3));
    assert_eq!(c.ids(), &vec![1, 2]);
    assert!(c.remove(1));
    assert_eq!(c.ids(), &vec![2]);
}

#[test]
fn list_after_add_names_the_role_once() {
    let s = snapshot(&[(1, "Chess"), (2, "Go")]);
    let mut c = GameCatalog::from_ids(&vec![1]);
    add_game::execute(&mut c, role(2, "Go")).unwrap();
    add_game::execute(&mut c, role(2, "Go")).unwrap();
    match list_games::execute(&c, &s) {
        GameListing::Listed(t) => {
            assert_eq!(t, "Chess\nGo\n");
            assert_eq!(t.matches("Go").count(), 1);
        }
        GameListing::Stale => panic!("expected a listing"),
    }
}

#[test]
fn list_heals_a_stale_catalog() {
    // Catalog {A, B}; B no longer exists in the guild.
    let s = snapshot(&[(100, "Alpha")]);
    let stored = entries(&["100", "200"]);
    let c = load_catalog(Ok(stored.clone())).unwrap();
    assert!(matches!(list_games::execute(&c, &s), GameListing::Stale));
    let live = vec![100];
    let evicted = plan_fix(Ok(stored), &live).unwrap();
    assert_eq!(evicted, vec![200]);
    match fix_report(&evicted) {
        CommandError::Other(m) => assert!(m.contains("This has been fixed")),
        other => panic!("unexpected {:?}", other),
    }
    // The store now holds only A.
    let c = load_catalog(Ok(entries(&["100"]))).unwrap();
    match list_games::execute(&c, &s) {
        GameListing::Listed(t) => assert_eq!(t, "Alpha\n"),
        GameListing::Stale => panic!("expected a listing"),
    }
}

#[test]
fn repair_with_nothing_to_evict_asks_to_wait() {
    let evicted = plan_fix(Ok(entries(&["5"])), &vec![5]).unwrap();
    assert!(evicted.is_empty());
    match fix_report(&evicted) {
        CommandError::CacheError(m) => assert!(m.contains("please wait a few minutes")),
        other => panic!("unexpected {:?}", other),
    }
}

#[test]
fn fix_guild_id_errors() {
    assert!(matches!(fix_guild_id(Err("down".to_string())), Err(CommandError::RedisError(m)) if m == "down"));
    assert!(matches!(fix_guild_id(Ok(None)), Err(CommandError::RedisError(m)) if m == "`guild id` missing"));
    assert!(matches!(fix_guild_id(Ok(Some("x1".to_string()))), Err(CommandError::Other(m)) if m == "`guild id` is invalid"));
    assert_eq!(fix_guild_id(Ok(Some("42".to_string()))).unwrap(), 42);
}

#[test]
fn load_catalog_reports_store_and_parse_errors() {
    assert!(matches!(load_catalog(Err("gone".to_string())), Err(CommandError::RedisError(m)) if m == "gone"));
    assert!(matches!(load_catalog(Ok(entries(&["1", "abc"]))), Err(CommandError::Other(m)) if m == "invalid digit found in string"));
    let c = load_catalog(Ok(entries(&["3", "1", "3"]))).unwrap();
    assert_eq!(c.ids(), &vec![3, 1]);
}

#[test]
fn add_game_option_errors() {
    let mut c = GameCatalog::new();
    assert!(matches!(add_game::execute(&mut c, None), Err(CommandError::ArgumentMissing(n)) if n == "Add Game"));
    assert!(matches!(add_game::execute(&mut c, Some(None)), Err(CommandError::UnresolvedData(n, m)) if n == "Add Game" && m == "Expected role object"));
    assert!(matches!(add_game::execute(&mut c, Some(Some(OptionValue::Integer(3)))), Err(CommandError::UnresolvedData(n, m)) if n == "Add Game" && m == "Please provide a valid role"));
    assert!(c.ids().is_empty());
}

#[test]
fn add_and_remove_game_replies() {
    assert_eq!(game_added("Chess", Ok(())).unwrap(), "Chess has been added to the game list");
    assert!(matches!(game_added("Chess", Err("x".to_string())), Err(CommandError::RedisError(m)) if m == "add_game() failed"));
    let mut c = GameCatalog::from_ids(&vec![7, 8]);
    let named = remove_game::execute(&mut c, role(7, "Chess")).unwrap();
    assert_eq!(named.label, "Chess");
    assert_eq!(c.ids(), &vec![8]);
}

#[test]
fn diffs_split_the_catalog_by_held_roles() {
    let c = GameCatalog::from_ids(&vec![1, 2, 3]);
    assert_eq!(candidates_to_add(&c, &vec![2, 9]), vec![1, 3]);
    assert_eq!(candidates_to_remove(&c, &vec![2, 9]), vec![2]);
}

#[test]
fn add_menu_on_empty_catalog_is_a_placeholder() {
    let s = snapshot(&[]);
    match game_add::execute(Ok(vec![]), &Some(vec![]), &s).unwrap() {
        GameMenu::Ready(m) => {
            assert_eq!(m.custom_id, "game-add-reply");
            assert_eq!(m.options.len(), 1);
            assert_eq!(m.options[0].label, "You currently have all available game roles");
            assert_eq!(m.options[0].value, "0");
        }
        GameMenu::Stale => panic!("expected a menu"),
    }
}

#[test]
fn add_menu_when_all_held_then_submit_placeholder() {
    let s = snapshot(&[(10, "R1")]);
    let held = Some(vec![10]);
    let value = match game_add::execute(Ok(entries(&["10"])), &held, &s).unwrap() {
        GameMenu::Ready(m) => {
            assert_eq!(m.options.len(), 1);
            assert_eq!(m.options[0].label, "You currently have all available game roles");
            m.options[0].value.clone()
        }
        GameMenu::Stale => panic!("expected a menu"),
    };
    let c = GameCatalog::from_ids(&vec![10]);
    match game_add_reply::execute(&vec![value], &held, &c).unwrap() {
        RoleChange::Unchanged(t) => assert_eq!(t, "You already have the role(s) selected"),
        RoleChange::Apply(_) => panic!("no mutation expected"),
    }
}

#[test]
fn add_menu_lists_names_and_ids() {
    let s = snapshot(&[(10, "R1"), (20, "R2")]);
    match game_add::execute(Ok(entries(&["10", "20"])), &Some(vec![20]), &s).unwrap() {
        GameMenu::Ready(m) => {
            assert_eq!(m.options.len(), 1);
            assert_eq!(m.options[0].label, "R1");
            assert_eq!(m.options[0].value, "10");
            assert_eq!(m.placeholder, "No games selected");
        }
        GameMenu::Stale => panic!("expected a menu"),
    }
}

#[test]
fn add_menu_with_uncached_role_is_stale() {
    let s = snapshot(&[(10, "R1")]);
    assert!(matches!(game_add::execute(Ok(entries(&["10", "30"])), &Some(vec![]), &s), Ok(GameMenu::Stale)));
}

#[test]
fn add_menu_errors() {
    let s = snapshot(&[]);
    assert!(matches!(game_add::execute(Err("down".to_string()), &Some(vec![]), &s), Err(ComponentInteractionError::RedisError(m)) if m == "down"));
    assert!(matches!(game_add::execute(Ok(vec![]), &None, &s), Err(ComponentInteractionError::UnresolvedData(n, m)) if n == "game_add" && m == "Interaction caller data missing"));
    assert!(matches!(game_add::execute(Ok(entries(&[""])), &Some(vec![]), &s), Err(ComponentInteractionError::Other(m)) if m == "cannot parse integer from empty string"));
}

#[test]
fn submission_rechecks_the_catalog() {
    // Candidates were {R1, R2}; R1 left the catalog before submission.
    let c = GameCatalog::from_ids(&vec![2]);
    match game_add_reply::execute(&entries(&["1", "2"]), &Some(vec![]), &c).unwrap() {
        RoleChange::Apply(ids) => assert_eq!(ids, vec![2]),
        RoleChange::Unchanged(t) => panic!("unexpected {}", t),
    }
}

#[test]
fn remove_menu_and_submissions() {
    let s = snapshot(&[(10, "R1"), (20, "R2")]);
    match game_remove::execute(Ok(entries(&["10", "20"])), &Some(vec![]), &s).unwrap() {
        GameMenu::Ready(m) => {
            assert_eq!(m.custom_id, "game-remove-reply");
            assert_eq!(m.options[0].label, "You currently have no game roles to remove");
        }
        GameMenu::Stale => panic!("expected a menu"),
    }
    let c = GameCatalog::from_ids(&vec![10, 20]);
    let held = Some(vec![10]);
    assert!(matches!(game_remove_reply::execute(&entries(&["0"]), &held, &c), Ok(RoleChange::Unchanged(t)) if t == "No roles removed"));
    assert!(matches!(game_remove_reply::execute(&entries(&["20"]), &held, &c), Ok(RoleChange::Unchanged(t)) if t == "You already removed the role(s) selected"));
    assert!(matches!(game_remove_reply::execute(&entries(&["10", "20"]), &held, &c), Ok(RoleChange::Apply(ids)) if ids == vec![10]));
    assert!(matches!(game_remove_reply::execute(&entries(&["10"]), &None, &c), Err(ComponentInteractionError::UnresolvedData(n, _)) if n == "game_remove_rely"));
    assert!(matches!(game_add_reply::execute(&entries(&["x"]), &held, &c), Err(ComponentInteractionError::Other(_))));
}

#[test]
fn placeholder_beside_roles_is_ignored() {
    let c = GameCatalog::from_ids(&vec![10, 20]);
    assert!(matches!(game_add_reply::execute(&entries(&["0", "10"]), &Some(vec![]), &c), Ok(RoleChange::Apply(ids)) if ids == vec![10]));
    assert!(matches!(game_remove_reply::execute(&entries(&["0", "20"]), &Some(vec![20]), &c), Ok(RoleChange::Apply(ids)) if ids == vec![20]));
    assert!(matches!(game_remove_reply::execute(&entries(&["0"]), &Some(vec![20]), &c), Ok(RoleChange::Unchanged(t)) if t == "No roles removed"));
}

#[test]
fn submission_parse_failure_names_the_first_bad_value() {
    let c = GameCatalog::from_ids(&vec![10]);
    assert!(matches!(game_add_reply::execute(&entries(&["10", "", "x"]), &Some(vec![]), &c), Err(ComponentInteractionError::Other(m)) if m == "cannot parse integer from empty string"));
}
