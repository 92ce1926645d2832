//! The option bag of a webhook-execution request.

use vstd::prelude::*;

use crate::http::create_embed::{CreateEmbed, embeds_to_json, spec_embeds_json};
use crate::json::{Json, JsonVal, lemma_obj_view_elems};

verus! {

#[derive(Debug, Clone, PartialEq)]
pub struct ExecuteWebhook {
    pub content: Option<String>,
    pub username: Option<String>,
    pub avatar_url: Option<String>,
    pub tts: bool,
    pub embeds: Vec<CreateEmbed>,
    pub payload_json: Option<String>,
}

impl Default for ExecuteWebhook {
    /// An execution with nothing set.
    fn default() -> (r: ExecuteWebhook)
        ensures
            r.content is None,
            r.username is None,
            r.avatar_url is None,
            r.tts == false,
            r.embeds@.len() == 0,
            r.payload_json is None,
    {
        ExecuteWebhook {
            content: None,
            username: None,
            avatar_url: None,
            tts: false,
            embeds: Vec::new(),
            payload_json: None,
        }
    }
}

/// The members a webhook-execution body serialises to: each set option in
/// order, then the text-to-speech flag and the embeds, then the payload
/// override when set.
pub open spec fn spec_execute_webhook_members(m: ExecuteWebhook) -> Seq<(Seq<char>, JsonVal)> {
    (match m.content {
        Option::Some(c) => seq![("content"@, JsonVal::Str(c@))],
        Option::None => Seq::empty(),
    }) + (match m.username {
        Option::Some(u) => seq![("username"@, JsonVal::Str(u@))],
        Option::None => Seq::empty(),
    }) + (match m.avatar_url {
        Option::Some(a) => seq![("avatar_url"@, JsonVal::Str(a@))],
        Option::None => Seq::empty(),
    }) + seq![("tts"@, JsonVal::Bool(m.tts)), ("embeds"@, JsonVal::Arr(spec_embeds_json(m.embeds@)))]
        + (match m.payload_json {
        Option::Some(p) => seq![("payload_json"@, JsonVal::Str(p@))],
        Option::None => Seq::empty(),
    })
}

/// The document a webhook-execution body serialises to.
pub open spec fn spec_execute_webhook_json(m: ExecuteWebhook) -> JsonVal {
    JsonVal::Obj(spec_execute_webhook_members(m))
}

impl ExecuteWebhook {
    /// Sets the content.
    pub fn content(self, content: String) -> (r: ExecuteWebhook)
        ensures
            r == (ExecuteWebhook { content: Some(content), ..self }),
    {
        ExecuteWebhook { content: Some(content), ..self }
    }

    /// Adds an embed.
    pub fn embed(self, embed: CreateEmbed) -> (r: ExecuteWebhook)
        ensures
            r.content == self.content,
            r.username == self.username,
            r.avatar_url == self.avatar_url,
            r.tts == self.tts,
            r.payload_json == self.payload_json,
            r.embeds@ == self.embeds@.push(embed),
    {
        let mut m = self;
        m.embeds.push(embed);
        m
    }

    /// Serialises the body.
    pub fn to_json(&self) -> (r: Json)
        ensures
            r@ == spec_execute_webhook_json(*self),
    {
        let mut members: Vec<(String, Json)> = Vec::new();
        if let Some(c) = &self.content {
            members.push((String::from_str("content"), Json::Str(c.clone())));
        }
        if let Some(u) = &self.username {
            members.push((String::from_str("username"), Json::Str(u.clone())));
        }
        if let Some(a) = &self.avatar_url {
            members.push((String::from_str("avatar_url"), Json::Str(a.clone())));
        }
        members.push((String::from_str("tts"), Json::Bool(self.tts)));
        let items = embeds_to_json(&self.embeds);
        let ghost gi = items@;
        let embeds_json = Json::Arr(items);
        proof {
            assert(embeds_json->Arr_0@ == gi);
            assert(embeds_json@ =~~= JsonVal::Arr(spec_embeds_json(self.embeds@)));
        }
        let ghost ev = embeds_json@;
        members.push((String::from_str("embeds"), embeds_json));
        if let Some(p) = &self.payload_json {
            members.push((String::from_str("payload_json"), Json::Str(p.clone())));
        }
        let ghost gm = members@;
        let r = Json::Obj(members);
        proof {
            assert(r->Obj_0@ == gm);
            lemma_obj_view_elems(r->Obj_0);
            assert(r@->Obj_0 =~~= spec_execute_webhook_members(*self));
        }
        r
    }
}

} // verus!
