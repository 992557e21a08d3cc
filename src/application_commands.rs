//! Slash commands: which handler a command name reaches, and what the handlers
//! decide from the values that the platform and the store hand them.

use vstd::prelude::*;
use vstd::string::*;
use crate::catalog::GameCatalog;
use crate::text::same_text;

pub mod add_game;
pub mod get_user_id;
pub mod list_games;
pub mod remove_admin;
pub mod remove_game;

verus! {

/// Why a slash command failed.
#[derive(Debug)]
pub enum CommandError {
    /// The command lacks an option; holds the command's name.
    ArgumentMissing(String),
    /// An option holds the wrong kind of value; holds the command's name and a message.
    UnresolvedData(String, String),
    /// The key-value store failed.
    RedisError(String),
    /// The guild snapshot disagrees with the stored state.
    CacheError(String),
    /// Any other failure.
    Other(String),
}

/// The resolved value of a command option.
#[derive(Debug)]
pub enum OptionValue {
    Role { id: u64, name: String },
    User { id: u64, tag: String },
    Integer(i64),
    Other,
}

/// A role or user named by an option: its id and how it is shown.
pub struct Named {
    pub id: u64,
    pub label: String,
}

/// The error that a command named `command` fails with when its first
/// option, which must name a role, is `option`.
pub open spec fn role_option_error(command: Seq<char>, option: Option<Option<OptionValue>>, e: CommandError) -> bool {
    match option {
        None => e matches CommandError::ArgumentMissing(c) && c@ == command,
        Some(None) => e matches CommandError::UnresolvedData(c, m) && c@ == command && m@
            == "Expected role object"@,
        Some(Some(OptionValue::Role { .. })) => false,
        Some(Some(_)) => e matches CommandError::UnresolvedData(c, m) && c@ == command && m@
            == "Please provide a valid role"@,
    }
}

/// The error that a command named `command` fails with when its first
/// option, which must name a user, is `option`.
pub open spec fn user_option_error(command: Seq<char>, option: Option<Option<OptionValue>>, e: CommandError) -> bool {
    match option {
        None => e matches CommandError::ArgumentMissing(c) && c@ == command,
        Some(None) => e matches CommandError::UnresolvedData(c, m) && c@ == command && m@
            == "Expected user object"@,
        Some(Some(OptionValue::User { .. })) => false,
        Some(Some(_)) => e matches CommandError::UnresolvedData(c, m) && c@ == command && m@
            == "Please provide a valid user"@,
    }
}

/// Reads the role that a command's first option names. `option` is `None`
/// when the command has no option, `Some(None)` when the option is unresolved.
pub fn expect_role(command: &str, option: Option<Option<OptionValue>>) -> (r: Result<
    Named,
    CommandError,
>)
    ensures
        option matches Some(Some(OptionValue::Role { id, name })) ==> (r matches Ok(n) && n.id
            == id && n.label@ == name@),
        !(option matches Some(Some(OptionValue::Role { .. }))) ==> (r matches Err(e)
            && role_option_error(command@, option, e)),
{
    match option {
        None => Err(CommandError::ArgumentMissing(String::from_str(command))),
        Some(None) => Err(
            CommandError::UnresolvedData(
                String::from_str(command),
                String::from_str("Expected role object"),
            ),
        ),
        Some(Some(OptionValue::Role { id, name })) => Ok(Named { id, label: name }),
        Some(Some(_)) => Err(
            CommandError::UnresolvedData(
                String::from_str(command),
                String::from_str("Please provide a valid role"),
            ),
        ),
    }
}

/// Reads the user that a command's first option names, as [`expect_role`] does for roles.
pub fn expect_user(command: &str, option: Option<Option<OptionValue>>) -> (r: Result<
    Named,
    CommandError,
>)
    ensures
        option matches Some(Some(OptionValue::User { id, tag })) ==> (r matches Ok(n) && n.id == id
            && n.label@ == tag@),
        !(option matches Some(Some(OptionValue::User { .. }))) ==> (r matches Err(e)
            && user_option_error(command@, option, e)),
{
    match option {
        None => Err(CommandError::ArgumentMissing(String::from_str(command))),
        Some(None) => Err(
            CommandError::UnresolvedData(
                String::from_str(command),
                String::from_str("Expected user object"),
            ),
        ),
        Some(Some(OptionValue::User { id, tag })) => Ok(Named { id, label: tag }),
        Some(Some(_)) => Err(
            CommandError::UnresolvedData(
                String::from_str(command),
                String::from_str("Please provide a valid user"),
            ),
        ),
    }
}

/// The slash commands that have a handler.
#[derive(Debug, Clone, Copy, PartialEq, Eq, Structural)]
pub enum SlashCommand {
    TestGiveRoles,
    TestLogChannel,
    TestSingleSelect,
    TestMultipleSelect,
    TestModal,
    Ping,
    SetupPickGamesModal,
    AddAdmin,
    ListAdmins,
    RemoveAdmin,
    AddGame,
    RemoveGame,
    ListGames,
    Prune,
    GetUserId,
}

/// The handler that the command `name` reaches, if any.
pub open spec fn command_of(name: Seq<char>) -> Option<SlashCommand> {
    if name == "test-give-roles"@ {
        Some(SlashCommand::TestGiveRoles)
    } else if name == "test-log-channel"@ {
        Some(SlashCommand::TestLogChannel)
    } else if name == "test-single-select"@ {
        Some(SlashCommand::TestSingleSelect)
    } else if name == "test-multiple-select"@ {
        Some(SlashCommand::TestMultipleSelect)
    } else if name == "test-modal"@ {
        Some(SlashCommand::TestModal)
    } else if name == "ping"@ {
        Some(SlashCommand::Ping)
    } else if name == "setup-pick-games-modal"@ {
        Some(SlashCommand::SetupPickGamesModal)
    } else if name == "add-admin"@ {
        Some(SlashCommand::AddAdmin)
    } else if name == "list-admins"@ {
        Some(SlashCommand::ListAdmins)
    } else if name == "remove-admin"@ {
        Some(SlashCommand::RemoveAdmin)
    } else if name == "add-game"@ {
        Some(SlashCommand::AddGame)
    } else if name == "remove-game"@ {
        Some(SlashCommand::RemoveGame)
    } else if name == "list-games"@ {
        Some(SlashCommand::ListGames)
    } else if name == "prune"@ {
        Some(SlashCommand::Prune)
    } else if name == "get-user-id"@ {
        Some(SlashCommand::GetUserId)
    } else {
        None
    }
}

/// Where a command goes: to its handler, or straight to a finished reply.
pub enum Dispatch {
    Run(SlashCommand),
    Done(String),
}

/// The reply to a command that has no handler.
pub open spec fn command_not_implemented() -> Seq<char> {
    "Command removed or not implemented"@
}

/// Looks up the handler of the command `name`. An unknown command is not an
/// error: it finishes with a fixed reply.
pub fn execute_command(name: &str) -> (r: Dispatch)
    ensures
        command_of(name@) matches Some(c) ==> r == Dispatch::Run(c),
        command_of(name@) is None ==> (r matches Dispatch::Done(t) && t@ == command_not_implemented()),
{
    if same_text(name, "test-give-roles") {
        Dispatch::Run(SlashCommand::TestGiveRoles)
    } else if same_text(name, "test-log-channel") {
        Dispatch::Run(SlashCommand::TestLogChannel)
    } else if same_text(name, "test-single-select") {
        Dispatch::Run(SlashCommand::TestSingleSelect)
    } else if same_text(name, "test-multiple-select") {
        Dispatch::Run(SlashCommand::TestMultipleSelect)
    } else if same_text(name, "test-modal") {
        Dispatch::Run(SlashCommand::TestModal)
    } else if same_text(name, "ping") {
        Dispatch::Run(SlashCommand::Ping)
    } else if same_text(name, "setup-pick-games-modal") {
        Dispatch::Run(SlashCommand::SetupPickGamesModal)
    } else if same_text(name, "add-admin") {
        Dispatch::Run(SlashCommand::AddAdmin)
    } else if same_text(name, "list-admins") {
        Dispatch::Run(SlashCommand::ListAdmins)
    } else if same_text(name, "remove-admin") {
        Dispatch::Run(SlashCommand::RemoveAdmin)
    } else if same_text(name, "add-game") {
        Dispatch::Run(SlashCommand::AddGame)
    } else if same_text(name, "remove-game") {
        Dispatch::Run(SlashCommand::RemoveGame)
    } else if same_text(name, "list-games") {
        Dispatch::Run(SlashCommand::ListGames)
    } else if same_text(name, "prune") {
        Dispatch::Run(SlashCommand::Prune)
    } else if same_text(name, "get-user-id") {
        Dispatch::Run(SlashCommand::GetUserId)
    } else {
        Dispatch::Done(String::from_str("Command removed or not implemented"))
    }
}

/// The reply to a store write that a command asked for: `done` when the write
/// went through, else a store error naming `operation`.
pub(crate) fn store_reply(done: String, stored: Result<(), String>, operation: &str) -> (r: Result<
    String,
    CommandError,
>)
    ensures
        stored is Ok ==> (r matches Ok(t) && t@ == done@),
        stored is Err ==> (r matches Err(CommandError::RedisError(m)) && m@ == operation@),
{
    match stored {
        Ok(()) => Ok(done),
        Err(_) => Err(CommandError::RedisError(String::from_str(operation))),
    }
}

/// `name` followed by `tail`.
pub(crate) fn suffixed(name: &str, tail: &str) -> (r: String)
    ensures
        r@ == name@ + tail@,
{
    let mut out = String::from_str(name);
    out.append(tail);
    out
}

/// Reads the catalog from what the store returned.
pub fn load_catalog(stored: Result<Vec<String>, String>) -> (r: Result<GameCatalog, CommandError>)
    ensures
        stored matches Err(e) ==> (r matches Err(CommandError::RedisError(m)) && m@ == e@),
        stored matches Ok(v) ==> (r is Ok <==> forall|i: int|
            0 <= i < v@.len() ==> #[trigger] crate::text::id_of(v@[i]@) is Ok),
        stored matches Ok(v) ==> (r is Ok ==> r->Ok_0.wf() && r->Ok_0@ == crate::catalog::add_all(
            Seq::empty(),
            crate::catalog::ids_of(v@),
        )),
        stored matches Ok(v) ==> (r matches Err(e) ==> (e matches CommandError::Other(m)
            && crate::catalog::first_parse_failure(v@, m@))),
{
    match stored {
        Err(e) => Err(CommandError::RedisError(e)),
        Ok(entries) => match GameCatalog::from_entries(&entries) {
            Ok(c) => Ok(c),
            Err(e) => Err(CommandError::Other(e.message())),
        },
    }
}

} // verus!
