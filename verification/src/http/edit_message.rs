//! The option bag of a message-edit request.

use vstd::prelude::*;

use crate::http::create_embed::{CreateEmbed, embeds_to_json, spec_embeds_json};
use crate::json::{Json, JsonVal, lemma_obj_view_elems};

verus! {

#[derive(Debug, Clone, PartialEq)]
pub struct EditMessage {
    pub content: Option<String>,
    pub embeds: Option<Vec<CreateEmbed>>,
    pub flags: Option<u64>,
}

impl Default for EditMessage {
    /// An edit that changes nothing.
    fn default() -> (r: EditMessage)
        ensures
            r.content is None,
            r.embeds is None,
            r.flags is None,
    {
        EditMessage { content: None, embeds: None, flags: None }
    }
}

/// The members a message-edit body serialises to: each set field in
/// order, nothing for an unset one.
pub open spec fn spec_edit_message_members(m: EditMessage) -> Seq<(Seq<char>, JsonVal)> {
    (match m.content {
        Option::Some(c) => seq![("content"@, JsonVal::Str(c@))],
        Option::None => Seq::empty(),
    }) + (match m.embeds {
        Option::Some(es) => seq![("embeds"@, JsonVal::Arr(spec_embeds_json(es@)))],
        Option::None => Seq::empty(),
    }) + (match m.flags {
        Option::Some(f) => seq![("flags"@, JsonVal::Num(f))],
        Option::None => Seq::empty(),
    })
}

/// The document a message-edit body serialises to.
pub open spec fn spec_edit_message_json(m: EditMessage) -> JsonVal {
    JsonVal::Obj(spec_edit_message_members(m))
}

impl EditMessage {
    /// Sets the new content.
    pub fn content(self, content: String) -> (r: EditMessage)
        ensures
            r == (EditMessage { content: Some(content), ..self }),
    {
        EditMessage { content: Some(content), ..self }
    }

    /// Adds an embed to the edit.
    pub fn embed(self, embed: CreateEmbed) -> (r: EditMessage)
        ensures
            r.content == self.content,
            r.flags == self.flags,
            (match self.embeds {
                Option::Some(es) => r.embeds matches Some(es2) && es2@ == es@.push(embed),
                Option::None => r.embeds matches Some(es2) && es2@ == seq![embed],
            }),
    {
        let mut m = self;
        m.embeds = match m.embeds {
            Some(es) => {
                let mut es2 = es;
                es2.push(embed);
                Some(es2)
            },
            None => {
                let mut es2: Vec<CreateEmbed> = Vec::new();
                es2.push(embed);
                proof {
                    assert(es2@ =~= seq![embed]);
                }
                Some(es2)
            },
        };
        m
    }

    /// Serialises the body.
    pub fn to_json(&self) -> (r: Json)
        ensures
            r@ == spec_edit_message_json(*self),
    {
        let mut members: Vec<(String, Json)> = Vec::new();
        if let Some(c) = &self.content {
            members.push((String::from_str("content"), Json::Str(c.clone())));
        }
        let ghost mut ev: JsonVal = JsonVal::Null;
        if let Some(es) = &self.embeds {
            let items = embeds_to_json(es);
            let ghost gi = items@;
            let embeds_json = Json::Arr(items);
            proof {
                assert(embeds_json->Arr_0@ == gi);
                assert(embeds_json@ =~~= JsonVal::Arr(spec_embeds_json(es@)));
                ev = embeds_json@;
            }
            members.push((String::from_str("embeds"), embeds_json));
        }
        if let Some(f) = &self.flags {
            members.push((String::from_str("flags"), Json::Num(*f)));
        }
        let ghost gm = members@;
        let r = Json::Obj(members);
        proof {
            assert(r->Obj_0@ == gm);
            lemma_obj_view_elems(r->Obj_0);
            assert(r@->Obj_0 =~~= spec_edit_message_members(*self));
        }
        r
    }
}

} // verus!
