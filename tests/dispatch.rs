use mythicc_bot::application_commands::get_user_id;
use mythicc_bot::application_commands::remove_admin::AdminRemoval;
use mythicc_bot::application_commands::remove_admin::admin_removed;
use mythicc_bot::application_commands::remove_admin;
use mythicc_bot::admins::{AdminSet, MASTER_ADMIN};
use mythicc_bot::application_commands::{execute_command, CommandError, Dispatch, OptionValue, SlashCommand};
use mythicc_bot::slash_commands::add_admin::{self, admin_added};
use mythicc_bot::slash_commands::prune::{self, PruneRequest};
use mythicc_bot::events::{
    authorize, command_reply, component_reply, match_component_error, match_error,
    resolve_caller, Admission, Reply,
};
use mythicc_bot::message_component_commands::{self as components, ComponentCommand, ComponentDispatch, ComponentInteractionError, MessageComponentResponseBundle};

fn user(id: u64, tag: &str) -> Option<Option<OptionValue>> {
    Some(Some(OptionValue::User { id, tag: tag.to_string() }))
}

fn run(command: &str, is_admin: Result<bool, String>, calls: &mut u32) -> Option<String> {
    match authorize(command, is_admin) {
        Admission::Proceed(_) => {
            *calls += 1;
            None
        }
        Admission::Refuse(t) => Some(t),
    }
}

#[test]
fn non_admin_never_reaches_a_handler() {
    let mut calls = 0;
    for name in ["add-game", "remove-admin", "list-games", "ping", "unknown"] {
        assert_eq!(run(name, Ok(false), &mut calls).unwrap(), "You are not an admin");
    }
    assert_eq!(calls, 0);
    assert_eq!(run("ping", Err("down".to_string()), &mut calls).unwrap(), "check_admin() failed");
    assert_eq!(calls, 0);
    assert!(run("ping", Ok(true), &mut calls).is_none());
    assert_eq!(calls, 1);
}

#[test]
fn routing_table() {
    assert!(matches!(execute_command("ping"), Dispatch::Run(SlashCommand::Ping)));
    assert!(matches!(execute_command("list-games"), Dispatch::Run(SlashCommand::ListGames)));
    assert!(matches!(execute_command("nope"), Dispatch::Done(t) if t == "Command removed or not implemented"));
    assert!(matches!(components::execute_command("game-add-reply"), ComponentDispatch::Run(ComponentCommand::GameAddReply)));
    match components::execute_command("other") {
        ComponentDispatch::Done(b) => {
            assert_eq!(b.message.unwrap(), "Message Component response removed or not implemented");
            assert!(b.modal.is_none());
        }
        ComponentDispatch::Run(_) => panic!("unknown id routed"),
    }
}

#[test]
fn caller_must_be_known() {
    assert_eq!(resolve_caller(Some(5)).unwrap(), 5);
    assert_eq!(resolve_caller(None).unwrap_err(), "Could not resolve command caller");
}

#[test]
fn master_admin_is_never_removed() {
    let (mut admins, seeded) = AdminSet::from_entries(&vec!["1".to_string()]).unwrap();
    assert!(seeded);
    match remove_admin::execute(&mut admins, user(MASTER_ADMIN, "boss#0001")).unwrap() {
        AdminRemoval::Kept(t) => assert_eq!(t, "Cannot remove master admin"),
        AdminRemoval::Removed(_) => panic!("master admin removed"),
    }
    assert!(admins.is_admin(MASTER_ADMIN));
    assert!(matches!(remove_admin::execute(&mut admins, user(1, "a#0001")), Ok(AdminRemoval::Removed(n)) if n.id == 1));
    assert!(!admins.is_admin(1));
    assert!(admins.is_admin(MASTER_ADMIN));
    assert_eq!(admin_removed("a#0001", Ok(())).unwrap(), "a#0001 has been removed from the admin list");
}

#[test]
fn admin_set_seeding_and_adding() {
    let (mut admins, seeded) = AdminSet::from_entries(&vec![MASTER_ADMIN.to_string()]).unwrap();
    assert!(!seeded);
    assert!(add_admin::execute(&mut admins, user(9, "n#0009")).is_ok());
    assert!(admins.is_admin(9));
    assert_eq!(admins.ids().len(), 2);
    assert!(matches!(add_admin::execute(&mut admins, None), Err(CommandError::ArgumentMissing(_))));
    assert!(matches!(admin_added("n#0009", Err("x".to_string())), Err(CommandError::RedisError(m)) if m == "add_admin() failed"));
}

#[test]
fn get_user_id_reply() {
    assert_eq!(get_user_id::execute(user(42, "kim#0042")).unwrap(), "kim#0042's id is 42");
    assert!(matches!(get_user_id::execute(Some(None)), Err(CommandError::UnresolvedData(_, m)) if m == "Expected user object"));
    assert!(matches!(get_user_id::execute(Some(Some(OptionValue::Other))), Err(CommandError::UnresolvedData(n, m)) if n == "Get User ID" && m == "Please provide a valid user"));
}

#[test]
fn command_replies() {
    assert!(matches!(command_reply(Ok(String::new()), true), Reply::Nothing));
    assert!(matches!(command_reply(Ok("hi".to_string()), false), Reply::Message { content, ephemeral: false } if content == "hi"));
    assert!(matches!(command_reply(Err(CommandError::ArgumentMissing("x".to_string())), true), Reply::Message { content, ephemeral: true } if content == "Missing an option..."));
    assert_eq!(match_error(CommandError::CacheError("c".to_string())), "c");
    assert_eq!(match_error(CommandError::UnresolvedData("a".to_string(), "b".to_string())), "b");
}

#[test]
fn modal_wins_over_message() {
    let mut bundle = components::test_modal::execute();
    bundle.message = Some("text".to_string());
    match component_reply(Ok(bundle), true) {
        Reply::Modal(m) => {
            assert_eq!(m.custom_id, "test-modal");
            assert_eq!(m.title, "Test Modal");
            assert_eq!(m.components[0].custom_id, "message");
        }
        _ => panic!("expected a modal"),
    }
    let empty = MessageComponentResponseBundle { message: None, modal: None };
    assert!(matches!(component_reply(Ok(empty), true), Reply::Nothing));
    assert!(matches!(component_reply(Ok(components::test_button_message::execute()), true), Reply::Message { content, .. } if content == "Well hello there!"));
    assert!(matches!(component_reply(Err(ComponentInteractionError::RedisError("r".to_string())), true), Reply::Message { content, .. } if content == "r"));
    assert_eq!(match_component_error(ComponentInteractionError::ArgumentMissing("a".to_string())), "Missing an option...");
}

#[test]
fn single_select_echoes_the_first_value() {
    let b = components::test_single_select::execute(&vec!["Cat".to_string(), "Dog".to_string()]).unwrap();
    assert_eq!(b.message.unwrap(), "Cat");
    assert!(matches!(components::test_single_select::execute(&vec![]), Err(ComponentInteractionError::UnresolvedData(n, m)) if n == "test-single-select" && m == "Selected value"));
}

#[test]
fn component_errors_convert_from_command_errors() {
    let e = ComponentInteractionError::from_command(CommandError::CacheError("c".to_string()));
    assert!(matches!(e, ComponentInteractionError::CacheError(m) if m == "c"));
    let r = components::fix_report(&vec![1]);
    assert!(matches!(r, ComponentInteractionError::Other(m) if m.ends_with("dismiss this message and try again!")));
}

#[test]
fn prune_amounts() {
    assert!(matches!(prune::execute(Some(Some(OptionValue::Integer(-4)))), Ok(PruneRequest::Delete(0))));
    assert!(matches!(prune::execute(Some(Some(OptionValue::Integer(12)))), Ok(PruneRequest::Delete(12))));
    assert!(matches!(prune::execute(Some(Some(OptionValue::Other))), Ok(PruneRequest::Reply(t)) if t == "Please provide a valid amount"));
    assert!(matches!(prune::execute(None), Err(CommandError::ArgumentMissing(n)) if n == "Prune"));
    assert!(matches!(prune::execute(Some(None)), Err(CommandError::ArgumentMissing(_))));
}
