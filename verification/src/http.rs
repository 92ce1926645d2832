//! The REST surface: routes, per-route rate limiting, and the typed
//! request builders and response readers of each operation.  The HTTP
//! transport itself lives outside; everything here is what a request says
//! and what a response means.

pub mod create_embed;
pub mod create_guild_role;
pub mod create_message;
pub mod edit_message;
pub mod execute_webhook;
pub mod rate_limiter;
pub mod route;

pub use create_embed::CreateEmbed;
pub use create_guild_role::CreateGuildRole;
pub use create_message::CreateMessage;
pub use edit_message::EditMessage;
pub use execute_webhook::ExecuteWebhook;
pub use rate_limiter::{RateLimit, RateLimiter, RestStep};
pub use route::Route;

use vstd::prelude::*;

use crate::error::Error;
use crate::http::create_guild_role::spec_create_guild_role_json;
use crate::http::create_message::spec_create_message_json;
use crate::http::edit_message::spec_edit_message_json;
use crate::http::execute_webhook::spec_execute_webhook_json;
use crate::json::{Json, json_to_string, print_json};
use crate::json::parse::{parse_json_text, spec_parse_json};
use crate::model::channel::{Channel, channel_from_json, channel_matches, channel_wf,
    channels_from_json_arr, channels_match, channels_wf};
use crate::model::id::{ChannelId, GuildId, MessageId, RoleId, UserId, WebhookId};
use crate::model::member::{Member, member_from_json, member_matches, member_wf,
    members_from_json_arr, members_match, members_wf};
use crate::model::message::{Message, message_from_json, message_matches, message_wf};
use crate::model::role::{Role, role_from_json, role_matches, role_wf, roles_from_json_arr,
    roles_match, roles_wf};
use crate::text::{dec_chars, u64_to_dec};

verus! {

/// The HTTP method of a request.
#[derive(Debug, Clone, Copy, PartialEq, Eq, Structural)]
pub enum Method {
    Get,
    Post,
    Patch,
    Put,
    Delete,
}

/// The wire name of a method.
pub open spec fn spec_method_name(m: Method) -> Seq<char> {
    match m {
        Method::Get => "GET"@,
        Method::Post => "POST"@,
        Method::Patch => "PATCH"@,
        Method::Put => "PUT"@,
        Method::Delete => "DELETE"@,
    }
}

impl Method {
    /// The wire name of the method.
    pub fn as_text(self) -> (t: String)
        ensures
            t@ == spec_method_name(self),
    {
        match self {
            Method::Get => String::from_str("GET"),
            Method::Post => String::from_str("POST"),
            Method::Patch => String::from_str("PATCH"),
            Method::Put => String::from_str("PUT"),
            Method::Delete => String::from_str("DELETE"),
        }
    }
}

/// One REST request, ready for the transport: the method, the full URL,
/// the rate-limit route, and the JSON body when the operation carries
/// one.
#[derive(Debug, PartialEq)]
pub struct HttpRequest {
    pub method: Method,
    pub path: String,
    pub route: Option<Route>,
    pub body: Option<String>,
}

/// The base of every REST URL: the API host and version.
pub open spec fn api_base() -> Seq<char> {
    "https://discord.com/api/v10"@
}

/// Builds the URL text for a path under the API base.
fn api(rest: String) -> (s: String)
    ensures
        s@ == api_base() + rest@,
{
    String::from_str("https://discord.com/api/v10").concat(rest.as_str())
}

/// Whether a status code reports success.
pub open spec fn spec_is_success(status: u16) -> bool {
    200 <= status < 300
}

/// Reads a body as one JSON document; a body that does not parse is a
/// decode failure.
fn parse_body(body: &str) -> (r: Result<Json, Error>)
    ensures
        r matches Ok(j) ==> spec_parse_json(body@) == Some(j@),
        r is Err ==> spec_parse_json(body@) is None && r == Err::<Json, Error>(Error::Json),
{
    match parse_json_text(body) {
        Some(j) => Ok(j),
        None => Err(Error::Json),
    }
}

/// The typed surface of the REST API.  Each operation builds the request
/// it stands for; the transport outside issues it under the rate limiter
/// and hands the status and body back to the matching response reader.
#[derive(Debug)]
pub struct Http {
    pub token: String,
}

impl Http {
    /// A surface sending the given `Authorization` token.
    pub fn new(token: String) -> (h: Http)
        ensures
            h.token@ == token@,
    {
        Http { token }
    }

    /// Fetches one channel.
    pub fn get_channel(&self, channel_id: ChannelId) -> (r: HttpRequest)
        ensures
            r.method == Method::Get,
            r.path@ == api_base() + "/channels/"@ + dec_chars(channel_id.0 as nat),
            r.route is None,
            r.body is None,
    {
        let path = api(String::from_str("/channels/").concat(u64_to_dec(channel_id.0).as_str()));
        HttpRequest { method: Method::Get, path, route: None, body: None }
    }

    /// Posts a message to a channel.
    pub fn create_message(&self, channel_id: ChannelId, msg: &CreateMessage) -> (r: HttpRequest)
        ensures
            r.method == Method::Post,
            r.path@ == api_base() + "/channels/"@ + dec_chars(channel_id.0 as nat) + "/messages"@,
            r.route == Some(Route::Channel(channel_id)),
            r.body matches Some(b) && b@ == print_json(spec_create_message_json(*msg)),
    {
        let path = api(
            String::from_str("/channels/").concat(u64_to_dec(channel_id.0).as_str()).concat(
                "/messages",
            ),
        );
        let body = json_to_string(&msg.to_json());
        HttpRequest {
            method: Method::Post,
            path,
            route: Some(Route::Channel(channel_id)),
            body: Some(body),
        }
    }

    /// Posts a message with file attachments: the same path and route as
    /// a plain post, the message itself riding as the `payload_json` form
    /// part of the multipart body the transport assembles.
    pub fn send_files(&self, channel_id: ChannelId, msg: &CreateMessage) -> (r: (
        HttpRequest,
        String,
    ))
        ensures
            r.0.method == Method::Post,
            r.0.path@ == api_base() + "/channels/"@ + dec_chars(channel_id.0 as nat)
                + "/messages"@,
            r.0.route == Some(Route::Channel(channel_id)),
            r.0.body is None,
            r.1@ == print_json(spec_create_message_json(*msg)),
    {
        let path = api(
            String::from_str("/channels/").concat(u64_to_dec(channel_id.0).as_str()).concat(
                "/messages",
            ),
        );
        let payload = json_to_string(&msg.to_json());
        (
            HttpRequest {
                method: Method::Post,
                path,
                route: Some(Route::Channel(channel_id)),
                body: None,
            },
            payload,
        )
    }

    /// Edits a message.
    pub fn edit_message(&self, channel_id: ChannelId, message_id: MessageId, edit: &EditMessage)
        -> (r: HttpRequest)
        ensures
            r.method == Method::Patch,
            r.path@ == api_base() + "/channels/"@ + dec_chars(channel_id.0 as nat) + "/messages/"@
                + dec_chars(message_id.0 as nat),
            r.route == Some(Route::ChannelMessage(channel_id, message_id)),
            r.body matches Some(b) && b@ == print_json(spec_edit_message_json(*edit)),
    {
        let path = api(
            String::from_str("/channels/").concat(u64_to_dec(channel_id.0).as_str()).concat(
                "/messages/",
            ).concat(u64_to_dec(message_id.0).as_str()),
        );
        let body = json_to_string(&edit.to_json());
        HttpRequest {
            method: Method::Patch,
            path,
            route: Some(Route::ChannelMessage(channel_id, message_id)),
            body: Some(body),
        }
    }

    /// Deletes a message.
    pub fn delete_message(&self, channel_id: ChannelId, message_id: MessageId) -> (r: HttpRequest)
        ensures
            r.method == Method::Delete,
            r.path@ == api_base() + "/channels/"@ + dec_chars(channel_id.0 as nat) + "/messages/"@
                + dec_chars(message_id.0 as nat),
            r.route == Some(Route::ChannelMessage(channel_id, message_id)),
            r.body is None,
    {
        let path = api(
            String::from_str("/channels/").concat(u64_to_dec(channel_id.0).as_str()).concat(
                "/messages/",
            ).concat(u64_to_dec(message_id.0).as_str()),
        );
        HttpRequest {
            method: Method::Delete,
            path,
            route: Some(Route::ChannelMessage(channel_id, message_id)),
            body: None,
        }
    }

    /// Lists a guild's channels.
    pub fn get_guild_channels(&self, guild_id: GuildId) -> (r: HttpRequest)
        ensures
            r.method == Method::Get,
            r.path@ == api_base() + "/guilds/"@ + dec_chars(guild_id.0 as nat) + "/channels"@,
            r.route == Some(Route::Guild(guild_id)),
            r.body is None,
    {
        let path = api(
            String::from_str("/guilds/").concat(u64_to_dec(guild_id.0).as_str()).concat(
                "/channels",
            ),
        );
        HttpRequest { method: Method::Get, path, route: Some(Route::Guild(guild_id)), body: None }
    }

    /// Fetches one guild member.
    pub fn get_guild_member(&self, guild_id: GuildId, user_id: UserId) -> (r: HttpRequest)
        ensures
            r.method == Method::Get,
            r.path@ == api_base() + "/guilds/"@ + dec_chars(guild_id.0 as nat) + "/members/"@
                + dec_chars(user_id.0 as nat),
            r.route == Some(Route::Guild(guild_id)),
            r.body is None,
    {
        let path = api(
            String::from_str("/guilds/").concat(u64_to_dec(guild_id.0).as_str()).concat(
                "/members/",
            ).concat(u64_to_dec(user_id.0).as_str()),
        );
        HttpRequest { method: Method::Get, path, route: Some(Route::Guild(guild_id)), body: None }
    }

    /// Lists a guild's members.
    pub fn list_guild_members(&self, guild_id: GuildId) -> (r: HttpRequest)
        ensures
            r.method == Method::Get,
            r.path@ == api_base() + "/guilds/"@ + dec_chars(guild_id.0 as nat)
                + "/members?limit=1000"@,
            r.route == Some(Route::Guild(guild_id)),
            r.body is None,
    {
        let path = api(
            String::from_str("/guilds/").concat(u64_to_dec(guild_id.0).as_str()).concat(
                "/members?limit=1000",
            ),
        );
        HttpRequest { method: Method::Get, path, route: Some(Route::Guild(guild_id)), body: None }
    }

    /// Searches a guild's members by name prefix.  The query rides in the
    /// URL as given.
    pub fn search_guild_members(&self, guild_id: GuildId, query: &str) -> (r: HttpRequest)
        ensures
            r.method == Method::Get,
            r.path@ == api_base() + "/guilds/"@ + dec_chars(guild_id.0 as nat)
                + "/members/search?query="@ + query@ + "&limit=1000"@,
            r.route == Some(Route::Guild(guild_id)),
            r.body is None,
    {
        let path = api(
            String::from_str("/guilds/").concat(u64_to_dec(guild_id.0).as_str()).concat(
                "/members/search?query=",
            ).concat(query).concat("&limit=1000"),
        );
        HttpRequest { method: Method::Get, path, route: Some(Route::Guild(guild_id)), body: None }
    }

    /// Grants a member a role.
    pub fn add_guild_member_role(&self, guild_id: GuildId, user_id: UserId, role_id: RoleId) -> (r:
        HttpRequest)
        ensures
            r.method == Method::Put,
            r.path@ == api_base() + "/guilds/"@ + dec_chars(guild_id.0 as nat) + "/members/"@
                + dec_chars(user_id.0 as nat) + "/roles/"@ + dec_chars(role_id.0 as nat),
            r.route == Some(Route::GuildMember(guild_id, user_id)),
            r.body is None,
    {
        let path = api(
            String::from_str("/guilds/").concat(u64_to_dec(guild_id.0).as_str()).concat(
                "/members/",
            ).concat(u64_to_dec(user_id.0).as_str()).concat("/roles/").concat(
                u64_to_dec(role_id.0).as_str(),
            ),
        );
        HttpRequest {
            method: Method::Put,
            path,
            route: Some(Route::GuildMember(guild_id, user_id)),
            body: None,
        }
    }

    /// Revokes a member's role.
    pub fn remove_guild_member_role(&self, guild_id: GuildId, user_id: UserId, role_id: RoleId)
        -> (r: HttpRequest)
        ensures
            r.method == Method::Delete,
            r.path@ == api_base() + "/guilds/"@ + dec_chars(guild_id.0 as nat) + "/members/"@
                + dec_chars(user_id.0 as nat) + "/roles/"@ + dec_chars(role_id.0 as nat),
            r.route == Some(Route::GuildMember(guild_id, user_id)),
            r.body is None,
    {
        let path = api(
            String::from_str("/guilds/").concat(u64_to_dec(guild_id.0).as_str()).concat(
                "/members/",
            ).concat(u64_to_dec(user_id.0).as_str()).concat("/roles/").concat(
                u64_to_dec(role_id.0).as_str(),
            ),
        );
        HttpRequest {
            method: Method::Delete,
            path,
            route: Some(Route::GuildMember(guild_id, user_id)),
            body: None,
        }
    }

    /// Lists a guild's roles.
    pub fn get_guild_roles(&self, guild_id: GuildId) -> (r: HttpRequest)
        ensures
            r.method == Method::Get,
            r.path@ == api_base() + "/guilds/"@ + dec_chars(guild_id.0 as nat) + "/roles"@,
            r.route is None,
            r.body is None,
    {
        let path = api(
            String::from_str("/guilds/").concat(u64_to_dec(guild_id.0).as_str()).concat("/roles"),
        );
        HttpRequest { method: Method::Get, path, route: None, body: None }
    }

    /// Creates a role in a guild.
    pub fn create_guild_role(&self, guild_id: GuildId, role: &CreateGuildRole) -> (r: HttpRequest)
        ensures
            r.method == Method::Post,
            r.path@ == api_base() + "/guilds/"@ + dec_chars(guild_id.0 as nat) + "/roles"@,
            r.route == Some(Route::Guild(guild_id)),
            r.body matches Some(b) && b@ == print_json(spec_create_guild_role_json(*role)),
    {
        let path = api(
            String::from_str("/guilds/").concat(u64_to_dec(guild_id.0).as_str()).concat("/roles"),
        );
        let body = json_to_string(&role.to_json());
        HttpRequest {
            method: Method::Post,
            path,
            route: Some(Route::Guild(guild_id)),
            body: Some(body),
        }
    }

    /// Deletes a role.
    pub fn delete_guild_role(&self, guild_id: GuildId, role_id: RoleId) -> (r: HttpRequest)
        ensures
            r.method == Method::Delete,
            r.path@ == api_base() + "/guilds/"@ + dec_chars(guild_id.0 as nat) + "/roles/"@
                + dec_chars(role_id.0 as nat),
            r.route is None,
            r.body is None,
    {
        let path = api(
            String::from_str("/guilds/").concat(u64_to_dec(guild_id.0).as_str()).concat(
                "/roles/",
            ).concat(u64_to_dec(role_id.0).as_str()),
        );
        HttpRequest { method: Method::Delete, path, route: None, body: None }
    }

    /// Opens (or fetches) the direct-message channel with a user.
    pub fn create_dm(&self, user_id: UserId) -> (r: HttpRequest)
        ensures
            r.method == Method::Post,
            r.path@ == api_base() + "/users/@me/channels"@,
            r.route is None,
            r.body matches Some(b) && b@ == print_json(
                crate::json::JsonVal::Obj(
                    seq![("recipient_id"@, crate::json::JsonVal::Num(user_id.0))],
                ),
            ),
    {
        let path = api(String::from_str("/users/@me/channels"));
        let mut members: Vec<(String, Json)> = Vec::new();
        members.push((String::from_str("recipient_id"), Json::Num(user_id.0)));
        let ghost gm = members@;
        let body_json = Json::Obj(members);
        proof {
            assert(body_json->Obj_0@ == gm);
            crate::json::lemma_obj_view_elems(body_json->Obj_0);
            assert(body_json@->Obj_0 =~~= seq![
                ("recipient_id"@, crate::json::JsonVal::Num(user_id.0)),
            ]);
        }
        let body = json_to_string(&body_json);
        HttpRequest { method: Method::Post, path, route: None, body: Some(body) }
    }

    /// Executes a webhook.  With `wait` the server returns the created
    /// message; without it, nothing.
    pub fn execute_webhook(
        &self,
        webhook_id: WebhookId,
        webhook_token: &str,
        wait: bool,
        msg: &ExecuteWebhook,
    ) -> (r: HttpRequest)
        ensures
            r.method == Method::Post,
            r.path@ == api_base() + "/webhooks/"@ + dec_chars(webhook_id.0 as nat) + "/"@
                + webhook_token@ + "?wait="@ + (if wait {
                "true"@
            } else {
                "false"@
            }),
            r.route == Some(Route::Webhook(webhook_id)),
            r.body matches Some(b) && b@ == print_json(spec_execute_webhook_json(*msg)),
    {
        let tail: &str = if wait {
            "true"
        } else {
            "false"
        };
        let path = api(
            String::from_str("/webhooks/").concat(u64_to_dec(webhook_id.0).as_str()).concat(
                "/",
            ).concat(webhook_token).concat("?wait=").concat(tail),
        );
        let body = json_to_string(&msg.to_json());
        HttpRequest {
            method: Method::Post,
            path,
            route: Some(Route::Webhook(webhook_id)),
            body: Some(body),
        }
    }

    /// Deletes a message a webhook posted.
    pub fn delete_webhook_message(
        &self,
        webhook_id: WebhookId,
        webhook_token: &str,
        message_id: MessageId,
    ) -> (r: HttpRequest)
        ensures
            r.method == Method::Delete,
            r.path@ == api_base() + "/webhooks/"@ + dec_chars(webhook_id.0 as nat) + "/"@
                + webhook_token@ + "/messages/"@ + dec_chars(message_id.0 as nat),
            r.route == Some(Route::Webhook(webhook_id)),
            r.body is None,
    {
        let path = api(
            String::from_str("/webhooks/").concat(u64_to_dec(webhook_id.0).as_str()).concat(
                "/",
            ).concat(webhook_token).concat("/messages/").concat(u64_to_dec(message_id.0).as_str()),
        );
        HttpRequest {
            method: Method::Delete,
            path,
            route: Some(Route::Webhook(webhook_id)),
            body: None,
        }
    }
}

/// Reads a response that carries one channel.
pub fn channel_response(status: u16, body: &str) -> (r: Result<Channel, Error>)
    ensures
        spec_is_success(status) ==> (match spec_parse_json(body@) {
            Option::Some(v) => {
                if channel_wf(v) {
                    r matches Ok(c) && channel_matches(c, v)
                } else {
                    r == Err::<Channel, Error>(Error::Json)
                }
            },
            Option::None => r == Err::<Channel, Error>(Error::Json),
        }),
        !spec_is_success(status) ==> (r matches Err(e) && e matches Error::Http(st, b) && st
            == status && b@ == body@),
{
    if !(200 <= status && status < 300) {
        return Err(Error::Http(status, String::from_str(body)));
    }
    match parse_body(body) {
        Ok(j) => match channel_from_json(&j) {
            Some(c) => Ok(c),
            None => Err(Error::Json),
        },
        Err(e) => Err(e),
    }
}

/// Reads a response that carries one channel, absence reported as 404.
pub fn optional_channel_response(status: u16, body: &str) -> (r: Result<Option<Channel>, Error>)
    ensures
        status == 404 ==> r == Ok::<Option<Channel>, Error>(None),
        status != 404 && spec_is_success(status) ==> (match spec_parse_json(body@) {
            Option::Some(v) => {
                if channel_wf(v) {
                    r matches Ok(Some(c)) && channel_matches(c, v)
                } else {
                    r == Err::<Option<Channel>, Error>(Error::Json)
                }
            },
            Option::None => r == Err::<Option<Channel>, Error>(Error::Json),
        }),
        status != 404 && !spec_is_success(status) ==> (r matches Err(e) && e matches Error::Http(
            st,
            b,
        ) && st == status && b@ == body@),
{
    if status == 404 {
        return Ok(None);
    }
    match channel_response(status, body) {
        Ok(c) => Ok(Some(c)),
        Err(e) => Err(e),
    }
}

/// Reads a response that carries one message.
pub fn message_response(status: u16, body: &str) -> (r: Result<Message, Error>)
    ensures
        spec_is_success(status) ==> (match spec_parse_json(body@) {
            Option::Some(v) => {
                if message_wf(v) {
                    r matches Ok(m) && message_matches(m, v)
                } else {
                    r == Err::<Message, Error>(Error::Json)
                }
            },
            Option::None => r == Err::<Message, Error>(Error::Json),
        }),
        !spec_is_success(status) ==> (r matches Err(e) && e matches Error::Http(st, b) && st
            == status && b@ == body@),
{
    if !(200 <= status && status < 300) {
        return Err(Error::Http(status, String::from_str(body)));
    }
    match parse_body(body) {
        Ok(j) => match message_from_json(&j) {
            Some(m) => Ok(m),
            None => Err(Error::Json),
        },
        Err(e) => Err(e),
    }
}

/// Reads a response that carries an array of channels.
pub fn channels_response(status: u16, body: &str) -> (r: Result<Vec<Channel>, Error>)
    ensures
        spec_is_success(status) ==> (match spec_parse_json(body@) {
            Option::Some(v) => {
                if v matches crate::json::JsonVal::Arr(items) && channels_wf(items) {
                    r matches Ok(cs) && channels_match(cs@, v->Arr_0)
                } else {
                    r == Err::<Vec<Channel>, Error>(Error::Json)
                }
            },
            Option::None => r == Err::<Vec<Channel>, Error>(Error::Json),
        }),
        !spec_is_success(status) ==> (r matches Err(e) && e matches Error::Http(st, b) && st
            == status && b@ == body@),
{
    if !(200 <= status && status < 300) {
        return Err(Error::Http(status, String::from_str(body)));
    }
    match parse_body(body) {
        Ok(j) => match j {
            Json::Arr(items) => match channels_from_json_arr(&items) {
                Some(cs) => Ok(cs),
                None => Err(Error::Json),
            },
            _ => Err(Error::Json),
        },
        Err(e) => Err(e),
    }
}

/// Reads a response that carries one member, absence reported as 404.
pub fn optional_member_response(status: u16, body: &str) -> (r: Result<Option<Member>, Error>)
    ensures
        status == 404 ==> r == Ok::<Option<Member>, Error>(None),
        status != 404 && spec_is_success(status) ==> (match spec_parse_json(body@) {
            Option::Some(v) => {
                if member_wf(v) {
                    r matches Ok(Some(m)) && member_matches(m, v)
                } else {
                    r == Err::<Option<Member>, Error>(Error::Json)
                }
            },
            Option::None => r == Err::<Option<Member>, Error>(Error::Json),
        }),
        status != 404 && !spec_is_success(status) ==> (r matches Err(e) && e matches Error::Http(
            st,
            b,
        ) && st == status && b@ == body@),
{
    if status == 404 {
        return Ok(None);
    }
    if !(200 <= status && status < 300) {
        return Err(Error::Http(status, String::from_str(body)));
    }
    match parse_body(body) {
        Ok(j) => match member_from_json(&j) {
            Some(m) => Ok(Some(m)),
            None => Err(Error::Json),
        },
        Err(e) => Err(e),
    }
}

/// Reads a response that carries an array of members.
pub fn members_response(status: u16, body: &str) -> (r: Result<Vec<Member>, Error>)
    ensures
        spec_is_success(status) ==> (match spec_parse_json(body@) {
            Option::Some(v) => {
                if v matches crate::json::JsonVal::Arr(items) && members_wf(items) {
                    r matches Ok(ms) && members_match(ms@, v->Arr_0)
                } else {
                    r == Err::<Vec<Member>, Error>(Error::Json)
                }
            },
            Option::None => r == Err::<Vec<Member>, Error>(Error::Json),
        }),
        !spec_is_success(status) ==> (r matches Err(e) && e matches Error::Http(st, b) && st
            == status && b@ == body@),
{
    if !(200 <= status && status < 300) {
        return Err(Error::Http(status, String::from_str(body)));
    }
    match parse_body(body) {
        Ok(j) => match j {
            Json::Arr(items) => match members_from_json_arr(&items) {
                Some(ms) => Ok(ms),
                None => Err(Error::Json),
            },
            _ => Err(Error::Json),
        },
        Err(e) => Err(e),
    }
}

/// Reads a response that carries one role.
pub fn role_response(status: u16, body: &str) -> (r: Result<Role, Error>)
    ensures
        spec_is_success(status) ==> (match spec_parse_json(body@) {
            Option::Some(v) => {
                if role_wf(v) {
                    r matches Ok(role) && role_matches(role, v)
                } else {
                    r == Err::<Role, Error>(Error::Json)
                }
            },
            Option::None => r == Err::<Role, Error>(Error::Json),
        }),
        !spec_is_success(status) ==> (r matches Err(e) && e matches Error::Http(st, b) && st
            == status && b@ == body@),
{
    if !(200 <= status && status < 300) {
        return Err(Error::Http(status, String::from_str(body)));
    }
    match parse_body(body) {
        Ok(j) => match role_from_json(&j) {
            Some(role) => Ok(role),
            None => Err(Error::Json),
        },
        Err(e) => Err(e),
    }
}

/// Reads a response that carries an array of roles.
pub fn roles_response(status: u16, body: &str) -> (r: Result<Vec<Role>, Error>)
    ensures
        spec_is_success(status) ==> (match spec_parse_json(body@) {
            Option::Some(v) => {
                if v matches crate::json::JsonVal::Arr(items) && roles_wf(items) {
                    r matches Ok(rs) && roles_match(rs@, v->Arr_0)
                } else {
                    r == Err::<Vec<Role>, Error>(Error::Json)
                }
            },
            Option::None => r == Err::<Vec<Role>, Error>(Error::Json),
        }),
        !spec_is_success(status) ==> (r matches Err(e) && e matches Error::Http(st, b) && st
            == status && b@ == body@),
{
    if !(200 <= status && status < 300) {
        return Err(Error::Http(status, String::from_str(body)));
    }
    match parse_body(body) {
        Ok(j) => match j {
            Json::Arr(items) => match roles_from_json_arr(&items) {
                Some(rs) => Ok(rs),
                None => Err(Error::Json),
            },
            _ => Err(Error::Json),
        },
        Err(e) => Err(e),
    }
}

/// Reads a response whose payload does not matter: success or the status.
pub fn unit_response(status: u16, body: &str) -> (r: Result<(), Error>)
    ensures
        spec_is_success(status) ==> r == Ok::<(), Error>(()),
        !spec_is_success(status) ==> (r matches Err(e) && e matches Error::Http(st, b) && st
            == status && b@ == body@),
{
    if 200 <= status && status < 300 {
        Ok(())
    } else {
        Err(Error::Http(status, String::from_str(body)))
    }
}

} // verus!
