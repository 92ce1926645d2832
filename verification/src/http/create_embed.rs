//! Embeds attached to created or edited messages: a value-typed option
//! bag whose omitted fields are not serialised.

use vstd::prelude::*;

use crate::json::{Json, JsonVal, lemma_obj_view_elems};
use crate::model::timestamp::Timestamp;

verus! {

#[derive(Debug, Clone, PartialEq)]
pub struct CreateEmbed {
    pub title: Option<String>,
    pub description: Option<String>,
    pub url: Option<String>,
    pub timestamp: Option<Timestamp>,
}

impl Default for CreateEmbed {
    /// An embed with nothing set.
    fn default() -> (r: CreateEmbed)
        ensures
            r.title is None,
            r.description is None,
            r.url is None,
            r.timestamp is None,
    {
        CreateEmbed { title: None, description: None, url: None, timestamp: None }
    }
}

/// The members an embed serialises to: each set field in order, nothing
/// for an unset one.
pub open spec fn spec_embed_members(e: CreateEmbed) -> Seq<(Seq<char>, JsonVal)> {
    (match e.title {
        Option::Some(t) => seq![("title"@, JsonVal::Str(t@))],
        Option::None => Seq::empty(),
    }) + (match e.description {
        Option::Some(d) => seq![("description"@, JsonVal::Str(d@))],
        Option::None => Seq::empty(),
    }) + (match e.url {
        Option::Some(u) => seq![("url"@, JsonVal::Str(u@))],
        Option::None => Seq::empty(),
    }) + (match e.timestamp {
        Option::Some(ts) => seq![("timestamp"@, JsonVal::Str(ts.raw@))],
        Option::None => Seq::empty(),
    })
}

/// The document an embed serialises to.
pub open spec fn spec_embed_json(e: CreateEmbed) -> JsonVal {
    JsonVal::Obj(spec_embed_members(e))
}

impl CreateEmbed {
    /// Sets the title.
    pub fn title(self, title: String) -> (r: CreateEmbed)
        ensures
            r == (CreateEmbed { title: Some(title), ..self }),
    {
        CreateEmbed { title: Some(title), ..self }
    }

    /// Sets the description.
    pub fn description(self, description: String) -> (r: CreateEmbed)
        ensures
            r == (CreateEmbed { description: Some(description), ..self }),
    {
        CreateEmbed { description: Some(description), ..self }
    }

    /// Sets the timestamp.
    pub fn timestamp(self, timestamp: Timestamp) -> (r: CreateEmbed)
        ensures
            r == (CreateEmbed { timestamp: Some(timestamp), ..self }),
    {
        CreateEmbed { timestamp: Some(timestamp), ..self }
    }

    /// Serialises the embed.
    pub fn to_json(&self) -> (r: Json)
        ensures
            r@ == spec_embed_json(*self),
    {
        let mut members: Vec<(String, Json)> = Vec::new();
        if let Some(t) = &self.title {
            members.push((String::from_str("title"), Json::Str(t.clone())));
        }
        if let Some(d) = &self.description {
            members.push((String::from_str("description"), Json::Str(d.clone())));
        }
        if let Some(u) = &self.url {
            members.push((String::from_str("url"), Json::Str(u.clone())));
        }
        if let Some(ts) = &self.timestamp {
            members.push((String::from_str("timestamp"), Json::Str(ts.raw.clone())));
        }
        let ghost gm = members@;
        let r = Json::Obj(members);
        proof {
            assert(r->Obj_0@ == gm);
            lemma_obj_view_elems(r->Obj_0);
            assert(r@->Obj_0 =~~= spec_embed_members(*self));
        }
        r
    }
}

/// The documents a list of embeds serialises to, in order.
pub open spec fn spec_embeds_json(es: Seq<CreateEmbed>) -> Seq<JsonVal> {
    es.map_values(|e: CreateEmbed| spec_embed_json(e))
}

/// Serialises a list of embeds.
pub fn embeds_to_json(es: &Vec<CreateEmbed>) -> (r: Vec<Json>)
    ensures
        crate::json::arr_view(r) =~= spec_embeds_json(es@),
{
    let n = es.len();
    let mut out: Vec<Json> = Vec::new();
    let mut i: usize = 0;
    while i < n
        invariant
            i <= n,
            n == es@.len(),
            out@.len() == i,
            forall|k: int| 0 <= k < i ==> (#[trigger] out@[k])@ == spec_embed_json(es@[k]),
        decreases n - i,
    {
        out.push(es[i].to_json());
        i = i + 1;
    }
    proof {
        crate::json::lemma_arr_view_elems(out);
    }
    out
}

} // verus!
