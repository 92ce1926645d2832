//! The plain helpers: mentions, number texts, case-insensitive search,
//! intents, statuses, activities and error descriptions.

use harmony::error::Error;
use harmony::gateway::intents::Intents;
use harmony::gateway::status::Status;
use harmony::json::json_to_string;
use harmony::model::activity::{Activity, ActivityType};
use harmony::model::channel::parse_channel_mention;
use harmony::model::id::{ChannelId, RoleId, UserId};
use harmony::model::member::{parse_user_mention, split_tag};
use harmony::model::role::parse_role_mention;
use harmony::gateway::frames::{heartbeat_frame, identify_frame, presence_frame, resume_frame};
use harmony::model::member::{Member, find_member_by_name, find_member_by_tag};
use harmony::model::timestamp::Timestamp;
use harmony::model::user::User;
use harmony::text::{parse_u64_dec, str_eq_ignore_case, u64_to_dec};

#[test]
fn mention_tokens() {
    assert_eq!(ChannelId(794652629325447228).mention(), "<#794652629325447228>");
    assert_eq!(RoleId(5).mention(), "<@&5>");
    assert_eq!(UserId(7).mention(), "<@7>");
}

#[test]
fn decimal_texts() {
    assert_eq!(u64_to_dec(0), "0");
    assert_eq!(u64_to_dec(18446744073709551615), "18446744073709551615");
    assert_eq!(parse_u64_dec("0"), Some(0));
    assert_eq!(parse_u64_dec("18446744073709551615"), Some(18446744073709551615));
    assert_eq!(parse_u64_dec("18446744073709551616"), None);
    assert_eq!(parse_u64_dec(""), None);
    assert_eq!(parse_u64_dec("12a"), None);
}

#[test]
fn mention_like_texts_resolve_to_ids() {
    assert_eq!(parse_user_mention("123"), Some(123));
    assert_eq!(parse_user_mention("<@123>"), Some(123));
    assert_eq!(parse_user_mention("<@!123>"), Some(123));
    assert_eq!(parse_user_mention("<@&123>"), None);
    assert_eq!(parse_user_mention("ada"), None);

    assert_eq!(parse_role_mention("<@&55>"), Some(55));
    assert_eq!(parse_role_mention("<@&55"), None);
    assert_eq!(parse_role_mention("55"), Some(55));

    assert_eq!(parse_channel_mention("<#9>"), Some(9));
    assert_eq!(parse_channel_mention("9"), Some(9));
    assert_eq!(parse_channel_mention("<#x>"), None);
}

#[test]
fn tags_split_on_the_discriminator() {
    assert_eq!(
        split_tag("ada#0001"),
        Some((String::from("ada"), String::from("0001")))
    );
    assert_eq!(split_tag("ada"), None);
    assert_eq!(split_tag("#001"), None);
}

#[test]
fn case_insensitive_comparison() {
    assert!(str_eq_ignore_case("Ada", "aDA"));
    assert!(!str_eq_ignore_case("Ada", "Ada "));
    assert!(!str_eq_ignore_case("Ada", "Adb"));
}

#[test]
fn intents_combine_bitwise() {
    let i = Intents::guilds().or(Intents::guild_messages());
    assert_eq!(i.0, 1 | 512);
    assert_eq!(Intents::none().0, 0);
    assert_eq!(Intents::direct_message_typing().0, 1 << 14);
}

#[test]
fn statuses_name_themselves() {
    assert_eq!(Status::Online.as_text(), "online");
    assert_eq!(Status::DoNotDisturb.as_text(), "dnd");
    assert_eq!(Status::Offline.as_text(), "offline");
}

#[test]
fn activities_serialise_with_their_code() {
    let a = Activity::playing(String::from("chess"));
    assert_eq!(json_to_string(&a.to_json()), "{\"type\":0,\"name\":\"chess\"}");
    let a = Activity::competing(String::from("golf"));
    assert!(matches!(a.kind, ActivityType::Competing));
    assert_eq!(json_to_string(&a.to_json()), "{\"type\":5,\"name\":\"golf\"}");
}

#[test]
fn outbound_frames_take_their_wire_shape() {
    assert_eq!(heartbeat_frame(Some(1)), "{\"op\":1,\"d\":1}");
    assert_eq!(heartbeat_frame(None), "{\"op\":1,\"d\":null}");
    assert_eq!(
        identify_frame("Bot t", Intents::guilds(), "linux"),
        "{\"op\":2,\"d\":{\"token\":\"Bot t\",\"properties\":{\"$os\":\"linux\",\
         \"$browser\":\"harmony\",\"$device\":\"harmony\"},\"intents\":1}}"
    );
    assert_eq!(
        resume_frame("Bot t", &Some(String::from("abc")), Some(1)),
        "{\"op\":6,\"d\":{\"token\":\"Bot t\",\"session_id\":\"abc\",\"seq\":1}}"
    );
    assert_eq!(
        presence_frame(5, &Some(Activity::playing(String::from("x"))), Status::Idle),
        "{\"op\":3,\"d\":{\"since\":5,\"activities\":[{\"type\":0,\"name\":\"x\"}],\
         \"status\":\"idle\",\"afk\":false}}"
    );
}

#[test]
fn errors_describe_themselves() {
    assert_eq!(Error::Json.message(), "json error");
    assert_eq!(
        Error::Http(500, String::from("boom")).message(),
        "http status 500: boom"
    );
    assert_eq!(Error::Send.message(), "sending on a closed channel");
    assert_eq!(Error::Recv.message(), "receiving on a closed channel");
    assert_eq!(Error::Io(String::from("refused")).message(), "io error: refused");
    assert_eq!(
        Error::Transport(String::from("bad frame")).message(),
        "transport error: bad frame"
    );
    assert_eq!(Error::BadHandshake.message(), "websocket handshake failed");
    assert_eq!(Error::Custom(String::from("mine")).message(), "mine");
}

#[test]
fn member_search_helpers() {
    let mk = |name: &str, disc: &str, nick: Option<&str>| Member {
        user: User {
            id: UserId(1),
            username: String::from(name),
            discriminator: String::from(disc),
            avatar: None,
            bot: false,
            public_flags: None,
        },
        nick: nick.map(String::from),
        avatar: None,
        roles: Vec::new(),
        joined_at: Timestamp { raw: String::from("2021-01-01T00:00:00+00:00") },
        premium_since: None,
        deaf: false,
        mute: false,
        pending: false,
        permissions: None,
    };
    let members = vec![mk("Ada", "0001", None), mk("Bob", "0002", Some("builder"))];
    assert_eq!(find_member_by_tag(&members, "ada", "0001"), Some(0));
    assert_eq!(find_member_by_tag(&members, "ada", "0002"), None);
    assert_eq!(find_member_by_name(&members, "BUILDER"), Some(1));
    assert_eq!(find_member_by_name(&members, "carol"), None);
}
