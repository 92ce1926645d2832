//! The REST surface: request building and response reading.

use harmony::error::Error;
use harmony::http::create_embed::CreateEmbed;
use harmony::http::create_guild_role::CreateGuildRole;
use harmony::http::create_message::CreateMessage;
use harmony::http::edit_message::EditMessage;
use harmony::http::execute_webhook::ExecuteWebhook;
use harmony::http::route::Route;
use harmony::http::{Http, Method, channels_response, message_response, optional_channel_response,
    optional_member_response, roles_response, unit_response};
use harmony::model::id::{ChannelId, GuildId, MessageId, RoleId, UserId, WebhookId};

fn http() -> Http {
    Http::new(String::from("Bot token"))
}

#[test]
fn request_paths_and_routes() {
    let h = http();
    let r = h.get_channel(ChannelId(42));
    assert_eq!(r.method, Method::Get);
    assert_eq!(r.path, "https://discord.com/api/v10/channels/42");
    assert_eq!(r.route, None);

    let r = h.create_message(ChannelId(42), &CreateMessage::default());
    assert_eq!(r.method, Method::Post);
    assert_eq!(r.path, "https://discord.com/api/v10/channels/42/messages");
    assert_eq!(r.route, Some(Route::Channel(ChannelId(42))));

    let r = h.edit_message(ChannelId(1), MessageId(2), &EditMessage::default());
    assert_eq!(r.method, Method::Patch);
    assert_eq!(r.path, "https://discord.com/api/v10/channels/1/messages/2");
    assert_eq!(
        r.route,
        Some(Route::ChannelMessage(ChannelId(1), MessageId(2)))
    );

    let r = h.add_guild_member_role(GuildId(3), UserId(4), RoleId(5));
    assert_eq!(r.method, Method::Put);
    assert_eq!(
        r.path,
        "https://discord.com/api/v10/guilds/3/members/4/roles/5"
    );
    assert_eq!(r.route, Some(Route::GuildMember(GuildId(3), UserId(4))));

    let r = h.search_guild_members(GuildId(3), "ada");
    assert_eq!(
        r.path,
        "https://discord.com/api/v10/guilds/3/members/search?query=ada&limit=1000"
    );

    let r = h.execute_webhook(WebhookId(9), "tok", true, &ExecuteWebhook::default());
    assert_eq!(
        r.path,
        "https://discord.com/api/v10/webhooks/9/tok?wait=true"
    );
    assert_eq!(r.route, Some(Route::Webhook(WebhookId(9))));

    let r = h.delete_webhook_message(WebhookId(9), "tok", MessageId(8));
    assert_eq!(
        r.path,
        "https://discord.com/api/v10/webhooks/9/tok/messages/8"
    );
}

#[test]
fn bodies_omit_unset_fields() {
    let h = http();
    let msg = CreateMessage::default().content(String::from("hi"));
    let r = h.create_message(ChannelId(42), &msg);
    assert_eq!(r.body.as_deref(), Some("{\"content\":\"hi\",\"embeds\":[]}"));

    let r = h.create_message(ChannelId(42), &CreateMessage::default());
    assert_eq!(r.body.as_deref(), Some("{\"embeds\":[]}"));

    let edit = EditMessage::default().content(String::from("new"));
    let r = h.edit_message(ChannelId(1), MessageId(2), &edit);
    assert_eq!(r.body.as_deref(), Some("{\"content\":\"new\"}"));

    let msg = CreateMessage::default().embed(
        CreateEmbed::default()
            .title(String::from("t"))
            .description(String::from("d")),
    );
    let r = h.create_message(ChannelId(42), &msg);
    assert_eq!(
        r.body.as_deref(),
        Some("{\"embeds\":[{\"title\":\"t\",\"description\":\"d\"}]}")
    );

    let role = CreateGuildRole::default()
        .name(String::from("mods"))
        .color(0xFF0000)
        .hoist(true)
        .mentionable(true);
    let r = h.create_guild_role(GuildId(3), &role);
    assert_eq!(
        r.body.as_deref(),
        Some("{\"name\":\"mods\",\"color\":16711680,\"hoist\":true,\"mentionable\":true}")
    );

    let r = h.create_dm(UserId(6));
    assert_eq!(r.body.as_deref(), Some("{\"recipient_id\":6}"));
}

#[test]
fn webhook_bodies_carry_flags_and_embeds() {
    let h = http();
    let w = ExecuteWebhook::default()
        .content(String::from("hello"))
        .embed(CreateEmbed::default().title(String::from("t")));
    let r = h.execute_webhook(WebhookId(9), "tok", false, &w);
    assert_eq!(
        r.body.as_deref(),
        Some("{\"content\":\"hello\",\"tts\":false,\"embeds\":[{\"title\":\"t\"}]}")
    );
}

#[test]
fn message_responses_decode_or_fail() {
    let body = "{\"id\":1,\"channel_id\":2,\
                \"author\":{\"id\":3,\"username\":\"u\",\"discriminator\":\"0001\"},\
                \"content\":\"ok\",\"timestamp\":\"2021-01-01T00:00:00+00:00\",\
                \"tts\":false,\"mention_everyone\":false,\"mentions\":[],\
                \"mention_roles\":[],\"pinned\":false,\"type\":0}";
    let m = message_response(200, body).unwrap();
    assert_eq!(m.content, "ok");

    assert_eq!(message_response(200, "{"), Err(Error::Json));
    match message_response(500, "oops") {
        Err(Error::Http(status, b)) => {
            assert_eq!(status, 500);
            assert_eq!(b, "oops");
        },
        _ => panic!("expected an http error"),
    }
}

#[test]
fn absence_is_reported_as_none() {
    assert_eq!(optional_channel_response(404, ""), Ok(None));
    assert_eq!(optional_member_response(404, ""), Ok(None));
}

#[test]
fn list_responses_decode() {
    let body = "[{\"id\":5,\"name\":\"r\",\"color\":0,\"hoist\":false,\"position\":1,\
                \"permissions\":\"0\",\"managed\":false,\"mentionable\":true}]";
    let roles = roles_response(200, body).unwrap();
    assert_eq!(roles.len(), 1);
    assert_eq!(roles[0].id.0, 5);
    assert_eq!(roles[0].name, "r");
    assert!(roles[0].mentionable);

    let body = "[{\"id\":7,\"type\":0,\"position\":0}]";
    let channels = channels_response(200, body).unwrap();
    assert_eq!(channels.len(), 1);
    assert_eq!(channels[0].id.0, 7);

    let body = "[{\"user\":{\"id\":1,\"username\":\"ada\",\"discriminator\":\"0001\"},\
                \"roles\":[],\"joined_at\":\"2021-01-01T00:00:00+00:00\",\
                \"deaf\":false,\"mute\":false}]";
    let members = harmony::http::members_response(200, body).unwrap();
    assert_eq!(members.len(), 1);
    assert_eq!(members[0].user.username, "ada");
    assert!(!members[0].pending);
}

#[test]
fn unit_responses_follow_status() {
    assert_eq!(unit_response(204, ""), Ok(()));
    match unit_response(403, "no") {
        Err(Error::Http(403, b)) => assert_eq!(b, "no"),
        _ => panic!("expected an http error"),
    }
}
