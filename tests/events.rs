use mythicc_bot::catalog::GuildSnapshot;
use mythicc_bot::events::{
    follower_grant_outcome, give_follower_role, role_changes, voice_log_data,
    GuildMemberAdditionError, VoiceAction, VoiceSide, VoiceStateUpdateError,
};
use mythicc_bot::log_channel::{roles_field, unpack_major_channel_id, unpack_minor_channel_id, LogChannelError};
use mythicc_bot::modal_submits::{modal_reply, process_modal_data, ModalComponent, ModalError};
use mythicc_bot::events::Reply;
use mythicc_bot::slash_commands::ping;
use mythicc_bot::text::{decimal, parse_id, role_mention, ParseIdError};
use mythicc_bot::utils::{date_diff, get_avatar_url};

#[test]
fn parse_id_follows_decimal_rules() {
    assert_eq!(parse_id("224597366324461568"), Ok(224597366324461568));
    assert_eq!(parse_id("+7"), Ok(7));
    assert_eq!(parse_id(""), Err(ParseIdError::Empty));
    assert_eq!(parse_id("+"), Err(ParseIdError::InvalidDigit));
    assert_eq!(parse_id("-1"), Err(ParseIdError::InvalidDigit));
    assert_eq!(parse_id("18446744073709551615"), Ok(u64::MAX));
    assert_eq!(parse_id("18446744073709551616"), Err(ParseIdError::Overflow));
    for s in ["0", "12", "+00", "99x", "٣"] {
        assert_eq!(parse_id(s).ok(), s.parse::<u64>().ok(), "{}", s);
    }
}

#[test]
fn decimal_and_mentions() {
    assert_eq!(decimal(0), "0");
    assert_eq!(decimal(1234567890), "1234567890");
    assert_eq!(decimal(u64::MAX), u64::MAX.to_string());
    assert_eq!(role_mention(55), "<@&55>");
}

#[test]
fn ping_is_ephemeral() {
    let mut e = false;
    assert_eq!(ping::execute(&mut e), "Hey, I'm alive!");
    assert!(e);
}

#[test]
fn modal_round_trip() {
    let fields = vec![
        ModalComponent::Other { custom_id: "x".to_string() },
        ModalComponent::InputText { custom_id: "message".to_string(), value: "hello".to_string() },
    ];
    assert_eq!(process_modal_data("test-modal", &fields).unwrap(), "Modal message: hello");
    let wrong = vec![ModalComponent::Other { custom_id: "message".to_string() }];
    assert!(matches!(process_modal_data("test-modal", &wrong), Err(ModalError::UnresolvedData(n, m)) if n == "test_modal" && m == "InputText `message` is missing from the modal"));
    assert!(process_modal_data("test-modal", &vec![]).is_err());
    assert_eq!(process_modal_data("other", &wrong).unwrap(), "Modal response removed or not implemented");
    assert!(matches!(modal_reply(Err(ModalError::Other("o".to_string())), true), Reply::Message { content, .. } if content == "o"));
}

#[test]
fn follower_role_checks() {
    let mut s = GuildSnapshot::new();
    s.add_role(5, "Follower".to_string());
    assert_eq!(give_follower_role(Ok(Some("5".to_string())), &s).unwrap(), 5);
    assert!(matches!(give_follower_role(Ok(Some("6".to_string())), &s), Err(GuildMemberAdditionError::CacheError(m)) if m == "Cant't find follower role"));
    assert!(matches!(give_follower_role(Ok(Some("x".to_string())), &s), Err(GuildMemberAdditionError::InvalidData(_))));
    assert!(matches!(give_follower_role(Ok(None), &s), Err(GuildMemberAdditionError::RedisError(m)) if m == "Follower role resolved to none"));
    assert!(matches!(give_follower_role(Err("e".to_string()), &s), Err(GuildMemberAdditionError::RedisError(m)) if m == "e"));
    assert!(matches!(follower_grant_outcome(Err("Missing Permissions".to_string())), Err(GuildMemberAdditionError::MissingPermissions)));
    assert!(matches!(follower_grant_outcome(Err("Missing Access".to_string())), Err(GuildMemberAdditionError::MissingAccess)));
    assert!(follower_grant_outcome(Err("Unknown".to_string())).is_ok());
}

#[test]
fn snapshot_lookups() {
    let mut s = GuildSnapshot::new();
    s.add_role(1, "A".to_string());
    s.add_role(1, "B".to_string());
    s.add_channel(9);
    assert_eq!(s.role_name(1).unwrap(), "B");
    assert!(s.role_exists(1) && !s.role_exists(2));
    assert!(s.channel_exists(9) && !s.channel_exists(1));
}

#[test]
fn voice_updates() {
    let in_channel = |c| VoiceSide { channel_id: Some(c), has_member: true };
    let out = VoiceSide { channel_id: None, has_member: true };
    let (a, d) = voice_log_data(None, in_channel(3));
    assert_eq!(a, VoiceAction::UserJoinedChannel);
    assert_eq!(d.unwrap(), vec![3]);
    let (a, d) = voice_log_data(Some(in_channel(3)), out);
    assert_eq!(a, VoiceAction::UserLeftChannel);
    assert_eq!(d.unwrap(), vec![3]);
    let (a, d) = voice_log_data(Some(in_channel(3)), in_channel(4));
    assert_eq!(a, VoiceAction::UserMovedChannel);
    assert_eq!(d.unwrap(), vec![4, 3]);
    let (a, d) = voice_log_data(None, out);
    assert_eq!(a, VoiceAction::Unknown);
    assert!(matches!(d, Err(VoiceStateUpdateError::Other(m)) if m == "Unknown action voice action captured."));
    let (_, d) = voice_log_data(None, VoiceSide { channel_id: Some(1), has_member: false });
    assert!(matches!(d, Err(VoiceStateUpdateError::DataMissing(m)) if m == "Member from new VoiceState missing"));
}

#[test]
fn role_updates_and_fields() {
    let (gained, lost) = role_changes(&vec![1, 2, 3], &vec![2, 4]);
    assert_eq!(gained, vec![4]);
    assert_eq!(lost, vec![1, 3]);
    assert_eq!(roles_field(&vec![]), "None");
    assert_eq!(roles_field(&vec![1, 3]), "<@&1> <@&3>");
}

#[test]
fn log_channel_ids() {
    assert_eq!(unpack_major_channel_id(Ok(Some("12".to_string()))).unwrap(), 12);
    assert!(matches!(unpack_major_channel_id(Ok(None)), Err(LogChannelError::RedisError(m)) if m == "Could not resolve major log channel id"));
    assert!(matches!(unpack_minor_channel_id(Ok(Some("z".to_string()))), Err(LogChannelError::Other(m)) if m == "Could not parse minor log channel id into u64"));
    assert!(matches!(unpack_minor_channel_id(Err("e".to_string())), Err(LogChannelError::Other(m)) if m == "e"));
}

#[test]
fn account_age_and_avatar() {
    assert_eq!(date_diff(0), "0 years 0 months 0 days");
    assert_eq!(date_diff(400), "1 years 1 months 5 days");
    assert_eq!(date_diff(-400), "-1 years -1 months -5 days");
    assert_eq!(date_diff(-3), "0 years 0 months -3 days");
    assert_eq!(get_avatar_url(7, &None), "");
    assert_eq!(get_avatar_url(7, &Some("abc".to_string())), "https://cdn.discordapp.com/avatars/7/abc.png");
}
