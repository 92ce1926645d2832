//! The option bag of a message-creation request.

use vstd::prelude::*;

use crate::http::create_embed::{CreateEmbed, embeds_to_json, spec_embeds_json};
use crate::json::{Json, JsonVal, lemma_obj_view_elems};

verus! {

#[derive(Debug, Clone, PartialEq)]
pub struct CreateMessage {
    pub content: Option<String>,
    pub embeds: Vec<CreateEmbed>,
}

impl Default for CreateMessage {
    /// A message with nothing set.
    fn default() -> (r: CreateMessage)
        ensures
            r.content is None,
            r.embeds@.len() == 0,
    {
        CreateMessage { content: None, embeds: Vec::new() }
    }
}

/// The members a message-creation body serialises to: the content when
/// set, then the embeds.
pub open spec fn spec_create_message_members(m: CreateMessage) -> Seq<(Seq<char>, JsonVal)> {
    (match m.content {
        Option::Some(c) => seq![("content"@, JsonVal::Str(c@))],
        Option::None => Seq::empty(),
    }) + seq![("embeds"@, JsonVal::Arr(spec_embeds_json(m.embeds@)))]
}

/// The document a message-creation body serialises to.
pub open spec fn spec_create_message_json(m: CreateMessage) -> JsonVal {
    JsonVal::Obj(spec_create_message_members(m))
}

impl CreateMessage {
    /// Sets the content.
    pub fn content(self, content: String) -> (r: CreateMessage)
        ensures
            r == (CreateMessage { content: Some(content), ..self }),
    {
        CreateMessage { content: Some(content), ..self }
    }

    /// Adds an embed.
    pub fn embed(self, embed: CreateEmbed) -> (r: CreateMessage)
        ensures
            r.content == self.content,
            r.embeds@ == self.embeds@.push(embed),
    {
        let mut m = self;
        m.embeds.push(embed);
        m
    }

    /// Serialises the body.
    pub fn to_json(&self) -> (r: Json)
        ensures
            r@ == spec_create_message_json(*self),
    {
        let mut members: Vec<(String, Json)> = Vec::new();
        if let Some(c) = &self.content {
            members.push((String::from_str("content"), Json::Str(c.clone())));
        }
        let embeds = embeds_to_json(&self.embeds);
        let ghost ge = embeds@;
        let embeds_json = Json::Arr(embeds);
        proof {
            assert(embeds_json->Arr_0@ == ge);
            assert(embeds_json@ =~~= JsonVal::Arr(spec_embeds_json(self.embeds@)));
        }
        let ghost ev = embeds_json@;
        members.push((String::from_str("embeds"), embeds_json));
        let ghost gm = members@;
        let r = Json::Obj(members);
        proof {
            assert(r->Obj_0@ == gm);
            lemma_obj_view_elems(r->Obj_0);
            assert(gm[gm.len() - 1].1@ == ev);
            assert(r@->Obj_0 =~~= spec_create_message_members(*self));
        }
        r
    }
}

} // verus!
