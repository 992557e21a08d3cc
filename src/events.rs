//! The dispatcher: every inbound event ends in exactly one reply, chosen here.
//! Also the decisions behind membership, voice and role-update events.

use vstd::prelude::*;
use vstd::string::*;
use crate::application_commands::{execute_command, CommandError, Dispatch};
use crate::catalog::{split_by, not_in_seq, GuildSnapshot};
use crate::message_component_commands::{
    ComponentInteractionError, MessageComponentResponseBundle, ModalSettings,
};
use crate::text::{id_of, parse_id, same_text};

verus! {

/// The one response that an event ends with.
#[derive(Debug)]
pub enum Reply {
    /// A text message; an ephemeral one is seen by the caller alone.
    Message { content: String, ephemeral: bool },
    /// A modal form to open.
    Modal(ModalSettings),
    /// Nothing to send.
    Nothing,
}

/// The reply when the platform did not say who called.
pub open spec fn caller_unknown() -> Seq<char> {
    "Could not resolve command caller"@
}

/// The reply to a caller who is not an admin.
pub open spec fn not_authorized() -> Seq<char> {
    "You are not an admin"@
}

/// The reply when the admin lookup failed.
pub open spec fn admin_check_failed() -> Seq<char> {
    "check_admin() failed"@
}

/// The caller of a command, which the admin check needs.
pub fn resolve_caller(caller: Option<u64>) -> (r: Result<u64, String>)
    ensures
        caller matches Some(id) ==> r == Ok::<u64, String>(id),
        caller is None ==> (r matches Err(t) && t@ == caller_unknown()),
{
    match caller {
        Some(id) => Ok(id),
        None => Err(String::from_str("Could not resolve command caller")),
    }
}

/// Whether a command may run.
pub enum Admission {
    /// The caller is an admin: the command goes where [`execute_command`] sends it.
    Proceed(Dispatch),
    /// The command does not run; holds the reply.
    Refuse(String),
}

/// Gates every slash command behind the admin check. `is_admin` is the outcome
/// of looking the caller up in the admin set. A caller who is not an admin, or
/// whose lookup failed, is refused and no handler runs.
pub fn authorize(command: &str, is_admin: Result<bool, String>) -> (r: Admission)
    ensures
        is_admin is Err ==> (r matches Admission::Refuse(t) && t@ == admin_check_failed()),
        is_admin == Ok::<bool, String>(false) ==> (r matches Admission::Refuse(t) && t@
            == not_authorized()),
        is_admin == Ok::<bool, String>(true) ==> (r matches Admission::Proceed(d) && (
        crate::application_commands::command_of(command@) matches Some(c) ==> d
            == Dispatch::Run(c))),
        is_admin == Ok::<bool, String>(true) ==> (r matches Admission::Proceed(d) && (
        crate::application_commands::command_of(command@) is None ==> (d matches Dispatch::Done(t)
            && t@ == crate::application_commands::command_not_implemented()))),
{
    match is_admin {
        Err(_) => Admission::Refuse(String::from_str("check_admin() failed")),
        Ok(false) => Admission::Refuse(String::from_str("You are not an admin")),
        Ok(true) => Admission::Proceed(execute_command(command)),
    }
}

/// What the caller is told about a failed command: a fixed prompt for a
/// missing option, else the error's own message.
pub open spec fn error_text(error: CommandError) -> Seq<char> {
    match error {
        CommandError::ArgumentMissing(_) => "Missing an option..."@,
        CommandError::RedisError(m) => m@,
        CommandError::Other(m) => m@,
        CommandError::CacheError(m) => m@,
        CommandError::UnresolvedData(_, m) => m@,
    }
}

/// What the caller is told about a failed command.
pub fn match_error(error: CommandError) -> (r: String)
    ensures
        r@ == error_text(error),
{
    match error {
        CommandError::ArgumentMissing(_) => String::from_str("Missing an option..."),
        CommandError::RedisError(content) => content,
        CommandError::Other(content) => content,
        CommandError::CacheError(content) => content,
        CommandError::UnresolvedData(_, content) => content,
    }
}

/// The reply to a slash command, from what its handler returned: the text
/// when there is some, the mapped error on failure, else nothing.
pub fn command_reply(result: Result<String, CommandError>, ephemeral: bool) -> (r: Reply)
    ensures
        result matches Ok(t) ==> (if t@.len() == 0 {
            r is Nothing
        } else {
            r matches Reply::Message { content, ephemeral: e } && content@ == t@ && e == ephemeral
        }),
        result matches Err(er) ==> (r matches Reply::Message { content, ephemeral: e } && e == ephemeral
            && content@ == error_text(er)),
{
    match result {
        Ok(content) => {
            if content.as_str().unicode_len() == 0 {
                Reply::Nothing
            } else {
                Reply::Message { content, ephemeral }
            }
        },
        Err(error) => Reply::Message { content: match_error(error), ephemeral },
    }
}

/// What the caller is told about a failed component interaction.
pub open spec fn component_error_text(error: ComponentInteractionError) -> Seq<char> {
    match error {
        ComponentInteractionError::ArgumentMissing(_) => "Missing an option..."@,
        ComponentInteractionError::RedisError(m) => m@,
        ComponentInteractionError::Other(m) => m@,
        ComponentInteractionError::CacheError(m) => m@,
        ComponentInteractionError::UnresolvedData(_, m) => m@,
    }
}

/// What the caller is told about a failed component interaction.
pub fn match_component_error(error: ComponentInteractionError) -> (r: String)
    ensures
        r@ == component_error_text(error),
{
    match error {
        ComponentInteractionError::ArgumentMissing(_) => String::from_str("Missing an option..."),
        ComponentInteractionError::RedisError(content) => content,
        ComponentInteractionError::Other(content) => content,
        ComponentInteractionError::CacheError(content) => content,
        ComponentInteractionError::UnresolvedData(_, content) => content,
    }
}

/// The reply to a component interaction: a modal when the handler left one
/// (it wins over a message), else its message when not empty, else nothing;
/// on failure, the mapped error.
pub fn component_reply(
    result: Result<MessageComponentResponseBundle, ComponentInteractionError>,
    ephemeral: bool,
) -> (r: Reply)
    ensures
        result matches Ok(b) ==> (b.modal matches Some(m) ==> r == Reply::Modal(m)),
        result matches Ok(b) ==> (b.modal is None ==> (b.message matches Some(t) ==> (if t@.len()
            == 0 {
            r is Nothing
        } else {
            r matches Reply::Message { content, ephemeral: e } && content@ == t@ && e == ephemeral
        }))),
        result matches Ok(b) ==> (b.modal is None && b.message is None ==> r is Nothing),
        result matches Err(er) ==> (r matches Reply::Message { content, ephemeral: e } && e == ephemeral
            && content@ == component_error_text(er)),
{
    match result {
        Ok(bundle) => match bundle.modal {
            Some(modal) => Reply::Modal(modal),
            None => match bundle.message {
                Some(content) => {
                    if content.as_str().unicode_len() == 0 {
                        Reply::Nothing
                    } else {
                        Reply::Message { content, ephemeral }
                    }
                },
                None => Reply::Nothing,
            },
        },
        Err(error) => Reply::Message { content: match_component_error(error), ephemeral },
    }
}

/// Why a new member could not be given the follower role.
#[derive(Debug)]
pub enum GuildMemberAdditionError {
    RedisError(String),
    InvalidData(String),
    CacheError(String),
    MissingPermissions,
    MissingAccess,
    Other(String),
}

/// The follower role to give a new member: read from what the store returned
/// and checked against the snapshot.
pub fn give_follower_role(lookup: Result<Option<String>, String>, snapshot: &GuildSnapshot) -> (r: Result<
    u64,
    GuildMemberAdditionError,
>)
    requires
        snapshot.wf(),
    ensures
        lookup matches Err(e) ==> (r matches Err(GuildMemberAdditionError::RedisError(m)) && m@ == e@),
        lookup is Ok && lookup->Ok_0 is None ==> (r matches Err(GuildMemberAdditionError::RedisError(m))
            && m@ == "Follower role resolved to none"@),
        lookup matches Ok(Some(t)) ==> (id_of(t@) is Err ==> (r matches Err(
            GuildMemberAdditionError::InvalidData(m),
        ) && m@ == "Follower role ID"@)),
        lookup matches Ok(Some(t)) ==> (id_of(t@) matches Ok(id) ==> (if snapshot.has_role(id) {
            r == Ok::<u64, GuildMemberAdditionError>(id)
        } else {
            r matches Err(GuildMemberAdditionError::CacheError(m)) && m@ == "Cant't find follower role"@
        })),
{
    let text = match lookup {
        Err(e) => {
            return Err(GuildMemberAdditionError::RedisError(e));
        },
        Ok(None) => {
            return Err(
                GuildMemberAdditionError::RedisError(
                    String::from_str("Follower role resolved to none"),
                ),
            );
        },
        Ok(Some(t)) => t,
    };
    let id = match parse_id(text.as_str()) {
        Ok(id) => id,
        Err(_) => {
            return Err(GuildMemberAdditionError::InvalidData(String::from_str("Follower role ID")));
        },
    };
    if !snapshot.role_exists(id) {
        return Err(GuildMemberAdditionError::CacheError(String::from_str("Cant't find follower role")));
    }
    Ok(id)
}

/// How granting the follower role went, from the platform's error text. Only
/// the two permission failures are reported; any other failure is let pass.
pub fn follower_grant_outcome(granted: Result<(), String>) -> (r: Result<(), GuildMemberAdditionError>)
    ensures
        granted is Ok ==> r is Ok,
        granted matches Err(e) ==> (if e@ == "Missing Permissions"@ {
            r matches Err(GuildMemberAdditionError::MissingPermissions)
        } else if e@ == "Missing Access"@ {
            r matches Err(GuildMemberAdditionError::MissingAccess)
        } else {
            r is Ok
        }),
{
    match granted {
        Ok(()) => Ok(()),
        Err(e) => {
            if same_text(e.as_str(), "Missing Permissions") {
                Err(GuildMemberAdditionError::MissingPermissions)
            } else if same_text(e.as_str(), "Missing Access") {
                Err(GuildMemberAdditionError::MissingAccess)
            } else {
                Ok(())
            }
        },
    }
}

/// Why a voice update could not be logged.
#[derive(Debug)]
pub enum VoiceStateUpdateError {
    DataMissing(String),
    Other(String),
}

/// One side of a voice update: the channel the user is in, if any, and
/// whether the update carries the member.
#[derive(Debug, Clone, Copy)]
pub struct VoiceSide {
    pub channel_id: Option<u64>,
    pub has_member: bool,
}

/// What a voice update did.
#[derive(Debug, Clone, Copy, PartialEq, Eq, Structural)]
pub enum VoiceAction {
    UserJoinedChannel,
    UserLeftChannel,
    UserMovedChannel,
    Unknown,
}

fn member_missing() -> (r: VoiceStateUpdateError)
    ensures
        r matches VoiceStateUpdateError::DataMissing(m) && m@ == "Member from new VoiceState missing"@,
{
    VoiceStateUpdateError::DataMissing(String::from_str("Member from new VoiceState missing"))
}

fn channel_missing() -> (r: VoiceStateUpdateError)
    ensures
        r matches VoiceStateUpdateError::DataMissing(m) && m@
            == "ChannelId from new VoiceState missing"@,
{
    VoiceStateUpdateError::DataMissing(String::from_str("ChannelId from new VoiceState missing"))
}

fn old_state_missing() -> (r: VoiceStateUpdateError)
    ensures
        r matches VoiceStateUpdateError::DataMissing(m) && m@ == "Old VoiceState missing"@,
{
    VoiceStateUpdateError::DataMissing(String::from_str("Old VoiceState missing"))
}

/// What a voice update logs, in plain values: the channels involved, or the
/// message of the missing piece of data.
pub open spec fn voice_data(r: Result<Vec<u64>, VoiceStateUpdateError>) -> Result<Seq<u64>, Seq<char>> {
    match r {
        Ok(v) => Ok(v@),
        Err(VoiceStateUpdateError::DataMissing(m)) => Err(m@),
        Err(VoiceStateUpdateError::Other(m)) => Err("other: "@ + m@),
    }
}

/// The channel joined, or what is missing to tell it.
pub open spec fn joined_spec(new: VoiceSide) -> Result<Seq<u64>, Seq<char>> {
    if !new.has_member {
        Err("Member from new VoiceState missing"@)
    } else {
        match new.channel_id {
            Some(c) => Ok(seq![c]),
            None => Err("ChannelId from new VoiceState missing"@),
        }
    }
}

/// The channel left, or what is missing to tell it.
pub open spec fn left_spec(old: Option<VoiceSide>, new: VoiceSide) -> Result<Seq<u64>, Seq<char>> {
    if !new.has_member {
        Err("Member from new VoiceState missing"@)
    } else {
        match old {
            Some(o) => match o.channel_id {
                Some(c) => Ok(seq![c]),
                None => Err("ChannelId from new VoiceState missing"@),
            },
            None => Err("Old VoiceState missing"@),
        }
    }
}

/// The channel moved to, then the channel moved from, or what is missing to tell them.
pub open spec fn moved_spec(old: Option<VoiceSide>, new: VoiceSide) -> Result<Seq<u64>, Seq<char>> {
    if !new.has_member {
        Err("Member from new VoiceState missing"@)
    } else {
        match new.channel_id {
            None => Err("ChannelId from new VoiceState missing"@),
            Some(n) => match old {
                Some(o) => match o.channel_id {
                    Some(c) => Ok(seq![n, c]),
                    None => Err("ChannelId from new VoiceState missing"@),
                },
                None => Err("Old VoiceState missing"@),
            },
        }
    }
}

/// The kind of a voice update: by whether an earlier state was known and
/// whether the user is now in a channel.
pub open spec fn action_of(old: Option<VoiceSide>, new: VoiceSide) -> VoiceAction {
    if old is Some && new.channel_id is Some {
        VoiceAction::UserMovedChannel
    } else if old is None && new.channel_id is Some {
        VoiceAction::UserJoinedChannel
    } else if old is Some {
        VoiceAction::UserLeftChannel
    } else {
        VoiceAction::Unknown
    }
}

impl VoiceAction {
    /// Classifies a voice update by whether an earlier state was known and
    /// whether the user is now in a channel.
    pub fn new(old: &Option<VoiceSide>, new: &VoiceSide) -> (r: Self)
        ensures
            r == action_of(*old, *new),
    {
        let old_has_channel_id = old.is_some();
        let new_has_channel_id = new.channel_id.is_some();
        if old_has_channel_id && new_has_channel_id {
            VoiceAction::UserMovedChannel
        } else if !old_has_channel_id && new_has_channel_id {
            VoiceAction::UserJoinedChannel
        } else if old_has_channel_id && !new_has_channel_id {
            VoiceAction::UserLeftChannel
        } else {
            VoiceAction::Unknown
        }
    }

    /// The channel joined.
    pub fn joined_channel(new: VoiceSide) -> (r: Result<Vec<u64>, VoiceStateUpdateError>)
        ensures
            voice_data(r) == joined_spec(new),
            r is Err ==> r->Err_0 is DataMissing,
    {
        if !new.has_member {
            return Err(member_missing());
        }
        match new.channel_id {
            Some(c) => {
                let v = vec![c];
                assert(v@ =~= seq![c]);
                Ok(v)
            },
            None => Err(channel_missing()),
        }
    }

    /// The channel left.
    pub fn left_channel(old: Option<VoiceSide>, new: VoiceSide) -> (r: Result<Vec<u64>, VoiceStateUpdateError>)
        ensures
            voice_data(r) == left_spec(old, new),
            r is Err ==> r->Err_0 is DataMissing,
    {
        if !new.has_member {
            return Err(member_missing());
        }
        match old {
            Some(o) => match o.channel_id {
                Some(c) => {
                    let v = vec![c];
                    assert(v@ =~= seq![c]);
                    Ok(v)
                },
                None => Err(channel_missing()),
            },
            None => Err(old_state_missing()),
        }
    }

    /// The channel moved to, then the channel moved from.
    pub fn moved_channel(old: Option<VoiceSide>, new: VoiceSide) -> (r: Result<Vec<u64>, VoiceStateUpdateError>)
        ensures
            voice_data(r) == moved_spec(old, new),
            r is Err ==> r->Err_0 is DataMissing,
    {
        if !new.has_member {
            return Err(member_missing());
        }
        let new_channel = match new.channel_id {
            Some(c) => c,
            None => {
                return Err(channel_missing());
            },
        };
        match old {
            Some(o) => match o.channel_id {
                Some(c) => {
                    let v = vec![new_channel, c];
                    assert(v@ =~= seq![new_channel, c]);
                    Ok(v)
                },
                None => Err(channel_missing()),
            },
            None => Err(old_state_missing()),
        }
    }
}

/// What to log of a voice update: its kind and the channels involved, as the
/// function for that kind finds them.
pub fn voice_log_data(old: Option<VoiceSide>, new: VoiceSide) -> (r: (
    VoiceAction,
    Result<Vec<u64>, VoiceStateUpdateError>,
))
    ensures
        r.0 == action_of(old, new),
        r.0 == VoiceAction::UserJoinedChannel ==> voice_data(r.1) == joined_spec(new),
        r.0 == VoiceAction::UserLeftChannel ==> voice_data(r.1) == left_spec(old, new),
        r.0 == VoiceAction::UserMovedChannel ==> voice_data(r.1) == moved_spec(old, new),
        r.0 != VoiceAction::Unknown ==> (r.1 is Err ==> r.1->Err_0 is DataMissing),
        r.0 == VoiceAction::Unknown ==> (r.1 matches Err(VoiceStateUpdateError::Other(m)) && m@
            == "Unknown action voice action captured."@),
{
    let action = VoiceAction::new(&old, &new);
    let data = match action {
        VoiceAction::UserJoinedChannel => VoiceAction::joined_channel(new),
        VoiceAction::UserLeftChannel => VoiceAction::left_channel(old, new),
        VoiceAction::UserMovedChannel => VoiceAction::moved_channel(old, new),
        VoiceAction::Unknown => Err(
            VoiceStateUpdateError::Other(String::from_str("Unknown action voice action captured.")),
        ),
    };
    (action, data)
}

/// The roles a member gained and lost in an update, each in its list's order.
pub fn role_changes(old: &Vec<u64>, new: &Vec<u64>) -> (r: (Vec<u64>, Vec<u64>))
    ensures
        r.0@ == new@.filter(not_in_seq(old@)),
        r.1@ == old@.filter(not_in_seq(new@)),
{
    let gained = split_by(new, old).0;
    let lost = split_by(old, new).0;
    (gained, lost)
}

} // verus!
