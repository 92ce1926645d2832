//! The wire codec: JSON parsing and printing, the event envelope, and
//! snowflake tolerance.

use harmony::gateway::dispatch_event::DispatchEventKind;
use harmony::gateway::event::{Event, decode_frame};
use harmony::json::parse::parse_json_text;
use harmony::json::{Json, json_to_string};
use harmony::model::id::snowflake_from_json;
use harmony::model::message::MessageKind;
use harmony::model::user::user_from_json;

#[test]
fn parses_scalars() {
    assert_eq!(parse_json_text("null"), Some(Json::Null));
    assert_eq!(parse_json_text("true"), Some(Json::Bool(true)));
    assert_eq!(parse_json_text("false"), Some(Json::Bool(false)));
    assert_eq!(parse_json_text("42"), Some(Json::Num(42)));
    assert_eq!(parse_json_text("  42  "), Some(Json::Num(42)));
    assert_eq!(
        parse_json_text("\"hello\""),
        Some(Json::Str(String::from("hello")))
    );
}

#[test]
fn keeps_awkward_numbers_as_text() {
    assert_eq!(
        parse_json_text("-5"),
        Some(Json::NumText(String::from("-5")))
    );
    assert_eq!(
        parse_json_text("0.5"),
        Some(Json::NumText(String::from("0.5")))
    );
    assert_eq!(
        parse_json_text("1e3"),
        Some(Json::NumText(String::from("1e3")))
    );
    assert_eq!(
        parse_json_text("99999999999999999999"),
        Some(Json::NumText(String::from("99999999999999999999")))
    );
}

#[test]
fn rejects_malformed_documents() {
    assert_eq!(parse_json_text(""), None);
    assert_eq!(parse_json_text("{"), None);
    assert_eq!(parse_json_text("{\"a\":}"), None);
    assert_eq!(parse_json_text("[1,]"), None);
    assert_eq!(parse_json_text("01"), None);
    assert_eq!(parse_json_text("\"unterminated"), None);
    assert_eq!(parse_json_text("{} extra"), None);
}

#[test]
fn decodes_escapes_and_unicode() {
    let parsed = parse_json_text("\"a\\n\\\"b\\\\c\\u00e9\\ud83d\\ude00\"");
    assert_eq!(
        parsed,
        Some(Json::Str(String::from("a\n\"b\\c\u{e9}\u{1f600}")))
    );
    assert_eq!(parse_json_text("\"\\ud83d\""), None);
    assert_eq!(parse_json_text("\"\\x\""), None);
}

#[test]
fn prints_canonical_text() {
    let doc = Json::Obj(vec![
        (String::from("a"), Json::Num(1)),
        (
            String::from("b"),
            Json::Arr(vec![Json::Null, Json::Bool(true), Json::Str(String::from("x\"y"))]),
        ),
    ]);
    assert_eq!(
        json_to_string(&doc),
        "{\"a\":1,\"b\":[null,true,\"x\\\"y\"]}"
    );
}

#[test]
fn print_then_parse_round_trips() {
    let doc = Json::Obj(vec![
        (String::from("op"), Json::Num(10)),
        (
            String::from("d"),
            Json::Obj(vec![(String::from("heartbeat_interval"), Json::Num(41250))]),
        ),
    ]);
    let text = json_to_string(&doc);
    assert_eq!(parse_json_text(&text), Some(doc));
}

#[test]
fn snowflakes_decode_from_both_forms() {
    let number_form = parse_json_text("{\"id\":794652629325447228}").unwrap();
    let string_form = parse_json_text("{\"id\":\"794652629325447228\"}").unwrap();
    let a = match &number_form {
        Json::Obj(ms) => snowflake_from_json(&ms[0].1),
        _ => None,
    };
    let b = match &string_form {
        Json::Obj(ms) => snowflake_from_json(&ms[0].1),
        _ => None,
    };
    assert_eq!(a, Some(794652629325447228));
    assert_eq!(b, Some(794652629325447228));
}

#[test]
fn snowflakes_encode_as_numbers() {
    let j = harmony::model::id::snowflake_to_json(794652629325447228);
    assert_eq!(json_to_string(&j), "794652629325447228");
}

#[test]
fn hello_frame_decodes() {
    let e = decode_frame("{\"op\":10,\"d\":{\"heartbeat_interval\":41250}}").unwrap();
    match e {
        Event::Hello(h) => assert_eq!(h.heartbeat_interval, 41250),
        _ => panic!("not a hello"),
    }
}

#[test]
fn control_frames_decode() {
    assert!(matches!(decode_frame("{\"op\":11}"), Some(Event::HeartbeatAck)));
    assert!(matches!(decode_frame("{\"op\":1}"), Some(Event::Heartbeat)));
    assert!(matches!(decode_frame("{\"op\":7}"), Some(Event::Reconnect)));
    assert!(matches!(
        decode_frame("{\"op\":9,\"d\":true}"),
        Some(Event::InvalidSession(true))
    ));
    assert!(matches!(
        decode_frame("{\"op\":9,\"d\":false}"),
        Some(Event::InvalidSession(false))
    ));
    assert!(matches!(
        decode_frame("{\"op\":5,\"d\":{}}"),
        Some(Event::Unknown(_))
    ));
    assert_eq!(decode_frame("{\"op\":5}"), None);
    assert_eq!(decode_frame("{\"d\":1}"), None);
    assert_eq!(decode_frame("not json"), None);
}

#[test]
fn ready_frame_decodes() {
    let text = "{\"op\":0,\"s\":1,\"t\":\"READY\",\"d\":{\"v\":10,\
                \"user\":{\"id\":\"42\",\"username\":\"bot\",\"discriminator\":\"0001\"},\
                \"session_id\":\"abc\",\"shard\":[0,1]}}";
    let e = decode_frame(text).unwrap();
    match e {
        Event::Dispatch(d) => {
            assert_eq!(d.sequence_number, 1);
            match d.kind {
                DispatchEventKind::Ready(r) => {
                    assert_eq!(r.version, 10);
                    assert_eq!(r.session_id, "abc");
                    assert_eq!(r.user.id.0, 42);
                    assert_eq!(r.user.username, "bot");
                    assert_eq!(r.shard, Some((0, 1)));
                },
                _ => panic!("not a ready"),
            }
        },
        _ => panic!("not a dispatch"),
    }
}

#[test]
fn message_create_frame_decodes() {
    let text = "{\"op\":0,\"s\":7,\"t\":\"MESSAGE_CREATE\",\"d\":{\
                \"id\":\"11\",\"channel_id\":22,\
                \"author\":{\"id\":33,\"username\":\"ada\",\"discriminator\":\"0007\"},\
                \"content\":\"hi there\",\"timestamp\":\"2021-01-01T00:00:00+00:00\",\
                \"tts\":false,\"mention_everyone\":false,\"mentions\":[],\
                \"mention_roles\":[\"55\"],\"pinned\":false,\"type\":0}}";
    let e = decode_frame(text).unwrap();
    match e {
        Event::Dispatch(d) => {
            assert_eq!(d.sequence_number, 7);
            match d.kind {
                DispatchEventKind::MessageCreate(m) => {
                    assert_eq!(m.id.0, 11);
                    assert_eq!(m.channel_id.0, 22);
                    assert_eq!(m.author.username, "ada");
                    assert_eq!(m.content, "hi there");
                    assert_eq!(m.mention_roles.len(), 1);
                    assert_eq!(m.mention_roles[0].0, 55);
                    assert!(matches!(m.kind, MessageKind::Default));
                    assert_eq!(m.referenced_message, None);
                    assert_eq!(m.nonce, Json::Null);
                },
                _ => panic!("not a message"),
            }
        },
        _ => panic!("not a dispatch"),
    }
}

#[test]
fn unknown_dispatch_names_are_kept_opaque() {
    let text = "{\"op\":0,\"s\":2,\"t\":\"TYPING_START\",\"d\":{\"x\":1}}";
    let e = decode_frame(text).unwrap();
    match e {
        Event::Dispatch(d) => match d.kind {
            DispatchEventKind::Unknown(j) => {
                assert_eq!(
                    j,
                    Json::Obj(vec![(String::from("x"), Json::Num(1))])
                );
            },
            _ => panic!("not opaque"),
        },
        _ => panic!("not a dispatch"),
    }
}

#[test]
fn user_decode_tolerates_id_forms() {
    let a = parse_json_text(
        "{\"id\":\"794652629325447228\",\"username\":\"u\",\"discriminator\":\"0001\"}",
    )
    .unwrap();
    let b = parse_json_text(
        "{\"id\":794652629325447228,\"username\":\"u\",\"discriminator\":\"0001\"}",
    )
    .unwrap();
    let ua = user_from_json(&a).unwrap();
    let ub = user_from_json(&b).unwrap();
    assert_eq!(ua.id, ub.id);
    assert_eq!(ua.id.0, 794652629325447228);
    assert!(!ua.bot);
    assert_eq!(ua.avatar, None);
}

#[test]
fn referenced_messages_decode_recursively() {
    let inner = "{\"id\":1,\"channel_id\":2,                 \"author\":{\"id\":3,\"username\":\"u\",\"discriminator\":\"0001\"},                 \"content\":\"first\",\"timestamp\":\"2021-01-01T00:00:00+00:00\",                 \"tts\":false,\"mention_everyone\":false,\"mentions\":[],                 \"mention_roles\":[],\"pinned\":false,\"type\":0}";
    let outer = format!(
        "{{\"id\":9,\"channel_id\":2,         \"author\":{{\"id\":3,\"username\":\"u\",\"discriminator\":\"0001\"}},         \"content\":\"reply\",\"timestamp\":\"2021-01-01T00:00:01+00:00\",         \"tts\":false,\"mention_everyone\":false,\"mentions\":[],         \"mention_roles\":[],\"nonce\":\"n1\",\"pinned\":false,\"type\":19,         \"referenced_message\":{}}}",
        inner
    );
    let j = parse_json_text(&outer).unwrap();
    let m = harmony::model::message::message_from_json(&j).unwrap();
    assert_eq!(m.content, "reply");
    assert!(matches!(m.kind, MessageKind::Reply));
    assert_eq!(m.nonce, Json::Str(String::from("n1")));
    let inner_msg = m.referenced_message.expect("inner message");
    assert_eq!(inner_msg.content, "first");
    assert_eq!(inner_msg.referenced_message, None);
}

#[test]
fn duplicate_keys_read_first() {
    let j = parse_json_text("{\"a\":1,\"a\":2}").unwrap();
    let v = harmony::json::json_get(&j, "a").cloned();
    assert_eq!(v, Some(Json::Num(1)));
}

#[test]
fn message_decode_rejects_missing_fields() {
    let text = "{\"id\":1,\"channel_id\":2}";
    let j = parse_json_text(text).unwrap();
    assert_eq!(harmony::model::message::message_from_json(&j), None);
}
