//! Guild members, full and partial (the partial form rides inside
//! messages and carries no user of its own).

use vstd::prelude::*;

use crate::json::{Json, JsonVal, jv_get, json_get};
use crate::model::fields::{default_bool, opt_string, req_bool, req_string, spec_default_bool,
    spec_opt_str, spec_req_bool, spec_req_str, view_opt_str};
use crate::model::id::{RoleId, role_ids_from_json_arr, role_ids_match, snowflakes_wf};
use crate::model::timestamp::Timestamp;
use crate::model::user::{User, user_from_json, user_matches, user_wf};

verus! {

#[derive(Debug, Clone, PartialEq)]
pub struct Member {
    pub user: User,
    pub nick: Option<String>,
    pub avatar: Option<String>,
    pub roles: Vec<RoleId>,
    pub joined_at: Timestamp,
    pub premium_since: Option<Timestamp>,
    pub deaf: bool,
    pub mute: bool,
    pub pending: bool,
    pub permissions: Option<String>,
}

#[derive(Debug, Clone, PartialEq)]
pub struct PartialMember {
    pub user: Option<User>,
    pub nick: Option<String>,
    pub avatar: Option<String>,
    pub roles: Vec<RoleId>,
    pub joined_at: Timestamp,
    pub premium_since: Option<Timestamp>,
    pub deaf: bool,
    pub mute: bool,
    pub pending: bool,
    pub permissions: Option<String>,
}

/// The view of an optional timestamp: the wire text it came from.
pub open spec fn view_opt_ts(o: Option<Timestamp>) -> Option<Seq<char>> {
    match o {
        Option::Some(t) => Some(t.raw@),
        Option::None => None,
    }
}

/// The member fields shared by the full and the partial form all read
/// under the wire's conventions.
pub open spec fn member_common_wf(v: JsonVal) -> bool {
    &&& spec_opt_str(v, "nick"@) is Some
    &&& spec_opt_str(v, "avatar"@) is Some
    &&& (jv_get(v, "roles"@) matches Some(JsonVal::Arr(items)) && snowflakes_wf(items))
    &&& spec_req_str(v, "joined_at"@) is Some
    &&& spec_opt_str(v, "premium_since"@) is Some
    &&& spec_req_bool(v, "deaf"@) is Some
    &&& spec_req_bool(v, "mute"@) is Some
    &&& spec_default_bool(v, "pending"@) is Some
    &&& spec_opt_str(v, "permissions"@) is Some
}

/// A document carries a full member: the shared fields plus a `user`.
pub open spec fn member_wf(v: JsonVal) -> bool {
    &&& (jv_get(v, "user"@) matches Some(u) && user_wf(u))
    &&& member_common_wf(v)
}

/// A document carries a partial member: the shared fields, `user`
/// optional.
pub open spec fn partial_member_wf(v: JsonVal) -> bool {
    &&& match jv_get(v, "user"@) {
        Option::None => true,
        Option::Some(JsonVal::Null) => true,
        Option::Some(u) => user_wf(u),
    }
    &&& member_common_wf(v)
}

/// `m` is the full member the document carries.
pub open spec fn member_matches(m: Member, v: JsonVal) -> bool {
    &&& (jv_get(v, "user"@) matches Some(u) && user_matches(m.user, u))
    &&& spec_opt_str(v, "nick"@) == Some(view_opt_str(m.nick))
    &&& spec_opt_str(v, "avatar"@) == Some(view_opt_str(m.avatar))
    &&& (jv_get(v, "roles"@) matches Some(JsonVal::Arr(items)) && role_ids_match(m.roles@, items))
    &&& spec_req_str(v, "joined_at"@) == Some(m.joined_at.raw@)
    &&& spec_opt_str(v, "premium_since"@) == Some(view_opt_ts(m.premium_since))
    &&& spec_req_bool(v, "deaf"@) == Some(m.deaf)
    &&& spec_req_bool(v, "mute"@) == Some(m.mute)
    &&& spec_default_bool(v, "pending"@) == Some(m.pending)
    &&& spec_opt_str(v, "permissions"@) == Some(view_opt_str(m.permissions))
}

/// `m` is the partial member the document carries.
pub open spec fn partial_member_matches(m: PartialMember, v: JsonVal) -> bool {
    &&& match jv_get(v, "user"@) {
        Option::None => m.user is None,
        Option::Some(JsonVal::Null) => m.user is None,
        Option::Some(u) => m.user matches Some(mu) && user_matches(mu, u),
    }
    &&& spec_opt_str(v, "nick"@) == Some(view_opt_str(m.nick))
    &&& spec_opt_str(v, "avatar"@) == Some(view_opt_str(m.avatar))
    &&& (jv_get(v, "roles"@) matches Some(JsonVal::Arr(items)) && role_ids_match(m.roles@, items))
    &&& spec_req_str(v, "joined_at"@) == Some(m.joined_at.raw@)
    &&& spec_opt_str(v, "premium_since"@) == Some(view_opt_ts(m.premium_since))
    &&& spec_req_bool(v, "deaf"@) == Some(m.deaf)
    &&& spec_req_bool(v, "mute"@) == Some(m.mute)
    &&& spec_default_bool(v, "pending"@) == Some(m.pending)
    &&& spec_opt_str(v, "permissions"@) == Some(view_opt_str(m.permissions))
}

/// Reads a required timestamp field: a string, kept as its text.
fn req_timestamp(j: &Json, key: &str) -> (r: Option<Timestamp>)
    ensures
        r matches Some(t) ==> spec_req_str(j@, key@) == Some(t.raw@),
        r is None ==> spec_req_str(j@, key@) is None,
{
    match req_string(j, key) {
        Some(s) => Some(Timestamp { raw: s }),
        None => None,
    }
}

/// Reads an optional timestamp field.
fn opt_timestamp(j: &Json, key: &str) -> (r: Option<Option<Timestamp>>)
    ensures
        r matches Some(o) ==> spec_opt_str(j@, key@) == Some(view_opt_ts(o)),
        r is None ==> spec_opt_str(j@, key@) is None,
{
    match opt_string(j, key) {
        Some(Some(s)) => Some(Some(Timestamp { raw: s })),
        Some(None) => Some(None),
        None => None,
    }
}

/// Reads the `roles` field: an array of snowflakes.
fn req_role_ids(j: &Json) -> (r: Option<Vec<RoleId>>)
    ensures
        r matches Some(rs) ==> (jv_get(j@, "roles"@) matches Some(JsonVal::Arr(items))
            && role_ids_match(rs@, items) && snowflakes_wf(items)),
        r is None ==> !(jv_get(j@, "roles"@) matches Some(JsonVal::Arr(items))
            && snowflakes_wf(items)),
{
    match json_get(j, "roles") {
        Some(x) => match x {
            Json::Arr(items) => role_ids_from_json_arr(items),
            _ => None,
        },
        None => None,
    }
}

/// Decodes a full member.
pub fn member_from_json(j: &Json) -> (r: Option<Member>)
    ensures
        r is Some <==> member_wf(j@),
        r matches Some(m) ==> member_matches(m, j@),
{
    let user = match json_get(j, "user") {
        Some(x) => match user_from_json(x) {
            Some(u) => u,
            None => { return None },
        },
        None => { return None },
    };
    let nick = match opt_string(j, "nick") {
        Some(o) => o,
        None => { return None },
    };
    let avatar = match opt_string(j, "avatar") {
        Some(o) => o,
        None => { return None },
    };
    let roles = match req_role_ids(j) {
        Some(rs) => rs,
        None => { return None },
    };
    let joined_at = match req_timestamp(j, "joined_at") {
        Some(t) => t,
        None => { return None },
    };
    let premium_since = match opt_timestamp(j, "premium_since") {
        Some(o) => o,
        None => { return None },
    };
    let deaf = match req_bool(j, "deaf") {
        Some(b) => b,
        None => { return None },
    };
    let mute = match req_bool(j, "mute") {
        Some(b) => b,
        None => { return None },
    };
    let pending = match default_bool(j, "pending") {
        Some(b) => b,
        None => { return None },
    };
    let permissions = match opt_string(j, "permissions") {
        Some(o) => o,
        None => { return None },
    };
    Some(
        Member {
            user,
            nick,
            avatar,
            roles,
            joined_at,
            premium_since,
            deaf,
            mute,
            pending,
            permissions,
        },
    )
}

/// Decodes a partial member.
pub fn partial_member_from_json(j: &Json) -> (r: Option<PartialMember>)
    ensures
        r is Some <==> partial_member_wf(j@),
        r matches Some(m) ==> partial_member_matches(m, j@),
{
    let user = match json_get(j, "user") {
        Some(x) => match x {
            Json::Null => None,
            _ => match user_from_json(x) {
                Some(u) => Some(u),
                None => { return None },
            },
        },
        None => None,
    };
    let nick = match opt_string(j, "nick") {
        Some(o) => o,
        None => { return None },
    };
    let avatar = match opt_string(j, "avatar") {
        Some(o) => o,
        None => { return None },
    };
    let roles = match req_role_ids(j) {
        Some(rs) => rs,
        None => { return None },
    };
    let joined_at = match req_timestamp(j, "joined_at") {
        Some(t) => t,
        None => { return None },
    };
    let premium_since = match opt_timestamp(j, "premium_since") {
        Some(o) => o,
        None => { return None },
    };
    let deaf = match req_bool(j, "deaf") {
        Some(b) => b,
        None => { return None },
    };
    let mute = match req_bool(j, "mute") {
        Some(b) => b,
        None => { return None },
    };
    let pending = match default_bool(j, "pending") {
        Some(b) => b,
        None => { return None },
    };
    let permissions = match opt_string(j, "permissions") {
        Some(o) => o,
        None => { return None },
    };
    Some(
        PartialMember {
            user,
            nick,
            avatar,
            roles,
            joined_at,
            premium_since,
            deaf,
            mute,
            pending,
            permissions,
        },
    )
}

/// Every item of the array carries a full member.
pub open spec fn members_wf(items: Seq<JsonVal>) -> bool {
    forall|i: int| 0 <= i < items.len() ==> member_wf(#[trigger] items[i])
}

/// `ms` holds, in order, the member each item of the array carries.
pub open spec fn members_match(ms: Seq<Member>, items: Seq<JsonVal>) -> bool {
    &&& ms.len() == items.len()
    &&& forall|i: int| 0 <= i < items.len() ==> member_matches(#[trigger] ms[i], items[i])
}

/// Decodes an array of full members.
pub fn members_from_json_arr(items: &Vec<Json>) -> (r: Option<Vec<Member>>)
    ensures
        r is Some <==> members_wf(crate::json::arr_view(*items)),
        r matches Some(ms) ==> members_match(ms@, crate::json::arr_view(*items)),
{
    let ghost model = crate::json::arr_view(*items);
    let n = items.len();
    let mut out: Vec<Member> = Vec::new();
    let mut i: usize = 0;
    while i < n
        invariant
            i <= n,
            n == items@.len(),
            model == crate::json::arr_view(*items),
            out@.len() == i,
            forall|k: int| 0 <= k < i ==> member_matches(#[trigger] out@[k], model[k]),
            forall|k: int| 0 <= k < i ==> member_wf(#[trigger] model[k]),
        decreases n - i,
    {
        proof {
            assert(model[i as int] == items@[i as int]@);
        }
        match member_from_json(&items[i]) {
            Some(m) => out.push(m),
            None => {
                return None;
            },
        }
        i = i + 1;
    }
    Some(out)
}

/// The user a mention-like text names: a bare decimal id, or a mention
/// token `<@id` / `<@!id` whose final character is dropped unchecked, as
/// in a best-effort search.
pub open spec fn spec_user_mention_id(s: Seq<char>) -> Option<u64> {
    if crate::text::spec_dec_u64(s) is Some {
        crate::text::spec_dec_u64(s)
    } else if s.len() < 4 {
        None
    } else if s[0] == '<' && s[1] == '@' && s[2] == '!' {
        crate::text::spec_dec_u64(s.subrange(3, s.len() - 1))
    } else if s[0] == '<' && s[1] == '@' {
        crate::text::spec_dec_u64(s.subrange(2, s.len() - 1))
    } else {
        None
    }
}

/// Reads the user id a mention-like text names.
pub fn parse_user_mention(text: &str) -> (r: Option<u64>)
    ensures
        r == spec_user_mention_id(text@),
{
    let v = crate::text::chars_of(text);
    let n = v.len();
    if let Some(x) = crate::text::parse_u64_range(&v, 0, n) {
        proof {
            assert(v@.subrange(0, n as int) =~= text@);
        }
        return Some(x);
    }
    proof {
        assert(v@.subrange(0, n as int) =~= text@);
    }
    if n < 4 {
        return None;
    }
    if v[0] == '<' && v[1] == '@' && v[2] == '!' {
        crate::text::parse_u64_range(&v, 3, n - 1)
    } else if v[0] == '<' && v[1] == '@' {
        crate::text::parse_u64_range(&v, 2, n - 1)
    } else {
        None
    }
}

/// A user tag `name#discriminator`: the text splits there when its fifth
/// character from the end is `#`.
pub open spec fn spec_split_tag(s: Seq<char>) -> Option<(Seq<char>, Seq<char>)> {
    if s.len() >= 5 && s[s.len() - 5] == '#' {
        Some((s.subrange(0, s.len() - 5), s.subrange(s.len() - 4, s.len() as int)))
    } else {
        None
    }
}

/// Splits a `name#discriminator` tag.
pub fn split_tag(text: &str) -> (r: Option<(String, String)>)
    ensures
        r matches Some(p) ==> spec_split_tag(text@) == Some((p.0@, p.1@)),
        r is None ==> spec_split_tag(text@) is None,
{
    let v = crate::text::chars_of(text);
    let n = v.len();
    if n < 5 || v[n - 5] != '#' {
        return None;
    }
    let mut name: Vec<char> = Vec::new();
    let mut i: usize = 0;
    while i < n - 5
        invariant
            n == v@.len(),
            n >= 5,
            i <= n - 5,
            name@ == v@.subrange(0, i as int),
        decreases n - 5 - i,
    {
        name.push(v[i]);
        i = i + 1;
        proof {
            assert(name@ =~= v@.subrange(0, i as int));
        }
    }
    let mut disc: Vec<char> = Vec::new();
    let mut k: usize = n - 4;
    while k < n
        invariant
            n == v@.len(),
            n >= 5,
            n - 4 <= k <= n,
            disc@ == v@.subrange(n - 4, k as int),
        decreases n - k,
    {
        disc.push(v[k]);
        k = k + 1;
        proof {
            assert(disc@ =~= v@.subrange(n - 4, k as int));
        }
    }
    Some((crate::text::string_from_chars(&name), crate::text::string_from_chars(&disc)))
}

/// `m` answers to the tag: the discriminator exactly, the name up to
/// ASCII case.
pub open spec fn tag_matches(m: Member, name: Seq<char>, disc: Seq<char>) -> bool {
    m.user.discriminator@ == disc && crate::text::eq_ignore_case(m.user.username@, name)
}

/// The first member answering to a `name#discriminator` tag.
pub fn find_member_by_tag(members: &Vec<Member>, name: &str, discriminator: &str) -> (r: Option<
    usize,
>)
    ensures
        r matches Some(i) ==> i < members@.len() && tag_matches(
            members@[i as int],
            name@,
            discriminator@,
        ) && (forall|j: int| 0 <= j < i ==> !tag_matches(#[trigger] members@[j], name@, discriminator@)),
        r is None ==> forall|j: int|
            0 <= j < members@.len() ==> !tag_matches(#[trigger] members@[j], name@, discriminator@),
{
    let n = members.len();
    let mut i: usize = 0;
    while i < n
        invariant
            i <= n,
            n == members@.len(),
            forall|j: int| 0 <= j < i ==> !tag_matches(#[trigger] members@[j], name@, discriminator@),
        decreases n - i,
    {
        if crate::text::str_eq(members[i].user.discriminator.as_str(), discriminator)
            && crate::text::str_eq_ignore_case(members[i].user.username.as_str(), name) {
            return Some(i);
        }
        i = i + 1;
    }
    None
}

/// `m` answers to the name: the username, or the nick when one is set,
/// up to ASCII case.
pub open spec fn name_matches(m: Member, text: Seq<char>) -> bool {
    crate::text::eq_ignore_case(m.user.username@, text) || (m.nick matches Some(nk)
        && crate::text::eq_ignore_case(nk@, text))
}

/// The first member answering to a plain name.
pub fn find_member_by_name(members: &Vec<Member>, text: &str) -> (r: Option<usize>)
    ensures
        r matches Some(i) ==> i < members@.len() && name_matches(members@[i as int], text@) && (
        forall|j: int| 0 <= j < i ==> !name_matches(#[trigger] members@[j], text@)),
        r is None ==> forall|j: int|
            0 <= j < members@.len() ==> !name_matches(#[trigger] members@[j], text@),
{
    let n = members.len();
    let mut i: usize = 0;
    while i < n
        invariant
            i <= n,
            n == members@.len(),
            forall|j: int| 0 <= j < i ==> !name_matches(#[trigger] members@[j], text@),
        decreases n - i,
    {
        let by_user = crate::text::str_eq_ignore_case(members[i].user.username.as_str(), text);
        let by_nick = match &members[i].nick {
            Some(nk) => crate::text::str_eq_ignore_case(nk.as_str(), text),
            None => false,
        };
        if by_user || by_nick {
            return Some(i);
        }
        i = i + 1;
    }
    None
}


} // verus!
