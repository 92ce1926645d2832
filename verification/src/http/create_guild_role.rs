//! The option bag of a role-creation request.

use vstd::prelude::*;

use crate::json::{Json, JsonVal, lemma_obj_view_elems};

verus! {

#[derive(Debug, Clone, PartialEq)]
pub struct CreateGuildRole {
    pub name: Option<String>,
    pub color: u32,
    pub hoist: bool,
    pub mentionable: bool,
}

impl Default for CreateGuildRole {
    /// A role request with nothing set.
    fn default() -> (r: CreateGuildRole)
        ensures
            r.name is None,
            r.color == 0,
            r.hoist == false,
            r.mentionable == false,
    {
        CreateGuildRole { name: None, color: 0, hoist: false, mentionable: false }
    }
}

/// The members a role-creation body serialises to: the name when set,
/// then the colour and the two flags.
pub open spec fn spec_create_guild_role_members(m: CreateGuildRole) -> Seq<(Seq<char>, JsonVal)> {
    (match m.name {
        Option::Some(n) => seq![("name"@, JsonVal::Str(n@))],
        Option::None => Seq::empty(),
    }) + seq![
        ("color"@, JsonVal::Num(m.color as u64)),
        ("hoist"@, JsonVal::Bool(m.hoist)),
        ("mentionable"@, JsonVal::Bool(m.mentionable)),
    ]
}

/// The document a role-creation body serialises to.
pub open spec fn spec_create_guild_role_json(m: CreateGuildRole) -> JsonVal {
    JsonVal::Obj(spec_create_guild_role_members(m))
}

impl CreateGuildRole {
    /// Sets the name.
    pub fn name(self, name: String) -> (r: CreateGuildRole)
        ensures
            r == (CreateGuildRole { name: Some(name), ..self }),
    {
        CreateGuildRole { name: Some(name), ..self }
    }

    /// Sets the colour.
    pub fn color(self, color: u32) -> (r: CreateGuildRole)
        ensures
            r == (CreateGuildRole { color, ..self }),
    {
        CreateGuildRole { color, ..self }
    }

    /// Sets whether the role is shown separately in the sidebar.
    pub fn hoist(self, hoist: bool) -> (r: CreateGuildRole)
        ensures
            r == (CreateGuildRole { hoist, ..self }),
    {
        CreateGuildRole { hoist, ..self }
    }

    /// Sets whether the role can be mentioned.
    pub fn mentionable(self, mentionable: bool) -> (r: CreateGuildRole)
        ensures
            r == (CreateGuildRole { mentionable, ..self }),
    {
        CreateGuildRole { mentionable, ..self }
    }

    /// Serialises the body.
    pub fn to_json(&self) -> (r: Json)
        ensures
            r@ == spec_create_guild_role_json(*self),
    {
        let mut members: Vec<(String, Json)> = Vec::new();
        if let Some(n) = &self.name {
            members.push((String::from_str("name"), Json::Str(n.clone())));
        }
        members.push((String::from_str("color"), Json::Num(self.color as u64)));
        members.push((String::from_str("hoist"), Json::Bool(self.hoist)));
        members.push((String::from_str("mentionable"), Json::Bool(self.mentionable)));
        let ghost gm = members@;
        let r = Json::Obj(members);
        proof {
            assert(r->Obj_0@ == gm);
            lemma_obj_view_elems(r->Obj_0);
            assert(r@->Obj_0 =~~= spec_create_guild_role_members(*self));
        }
        r
    }
}

} // verus!
