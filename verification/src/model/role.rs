//! Guild roles, as the role endpoints return them.

use vstd::prelude::*;

use crate::json::{Json, JsonVal, arr_view};
use crate::model::fields::{req_bool, req_snowflake, req_string, req_u64, spec_req_bool,
    spec_req_snowflake, spec_req_str, spec_req_u64};
use crate::model::id::RoleId;

verus! {

#[derive(Debug, Clone, PartialEq)]
pub struct Role {
    pub id: RoleId,
    pub name: String,
    pub color: u32,
    pub hoist: bool,
    pub position: usize,
    pub permissions: String,
    pub managed: bool,
    pub mentionable: bool,
}

/// A document carries a role when each field reads under the wire's
/// conventions.
pub open spec fn role_wf(v: JsonVal) -> bool {
    &&& spec_req_snowflake(v, "id"@) is Some
    &&& spec_req_str(v, "name"@) is Some
    &&& (spec_req_u64(v, "color"@) matches Some(c) && c <= u32::MAX)
    &&& spec_req_bool(v, "hoist"@) is Some
    &&& (spec_req_u64(v, "position"@) matches Some(p) && p <= usize::MAX)
    &&& spec_req_str(v, "permissions"@) is Some
    &&& spec_req_bool(v, "managed"@) is Some
    &&& spec_req_bool(v, "mentionable"@) is Some
}

/// `r` is the role the document carries.
pub open spec fn role_matches(r: Role, v: JsonVal) -> bool {
    &&& spec_req_snowflake(v, "id"@) == Some(r.id.0)
    &&& spec_req_str(v, "name"@) == Some(r.name@)
    &&& spec_req_u64(v, "color"@) == Some(r.color as u64)
    &&& spec_req_bool(v, "hoist"@) == Some(r.hoist)
    &&& spec_req_u64(v, "position"@) == Some(r.position as u64)
    &&& spec_req_str(v, "permissions"@) == Some(r.permissions@)
    &&& spec_req_bool(v, "managed"@) == Some(r.managed)
    &&& spec_req_bool(v, "mentionable"@) == Some(r.mentionable)
}

/// Decodes a role.
pub fn role_from_json(j: &Json) -> (r: Option<Role>)
    ensures
        r is Some <==> role_wf(j@),
        r matches Some(role) ==> role_matches(role, j@),
{
    let id = match req_snowflake(j, "id") {
        Some(n) => n,
        None => { return None },
    };
    let name = match req_string(j, "name") {
        Some(s) => s,
        None => { return None },
    };
    let color = match req_u64(j, "color") {
        Some(c) if c <= u32::MAX as u64 => c as u32,
        _ => { return None },
    };
    let hoist = match req_bool(j, "hoist") {
        Some(b) => b,
        None => { return None },
    };
    let position = match req_u64(j, "position") {
        Some(p) if p <= usize::MAX as u64 => p as usize,
        _ => { return None },
    };
    let permissions = match req_string(j, "permissions") {
        Some(s) => s,
        None => { return None },
    };
    let managed = match req_bool(j, "managed") {
        Some(b) => b,
        None => { return None },
    };
    let mentionable = match req_bool(j, "mentionable") {
        Some(b) => b,
        None => { return None },
    };
    Some(
        Role {
            id: RoleId(id),
            name,
            color,
            hoist,
            position,
            permissions,
            managed,
            mentionable,
        },
    )
}

/// Every item of the array carries a role.
pub open spec fn roles_wf(items: Seq<JsonVal>) -> bool {
    forall|i: int| 0 <= i < items.len() ==> role_wf(#[trigger] items[i])
}

/// `rs` holds, in order, the role each item of the array carries.
pub open spec fn roles_match(rs: Seq<Role>, items: Seq<JsonVal>) -> bool {
    &&& rs.len() == items.len()
    &&& forall|i: int| 0 <= i < items.len() ==> role_matches(#[trigger] rs[i], items[i])
}

/// Decodes an array of roles.
pub fn roles_from_json_arr(items: &Vec<Json>) -> (r: Option<Vec<Role>>)
    ensures
        r is Some <==> roles_wf(arr_view(*items)),
        r matches Some(rs) ==> roles_match(rs@, arr_view(*items)),
{
    let ghost model = arr_view(*items);
    let n = items.len();
    let mut out: Vec<Role> = Vec::new();
    let mut i: usize = 0;
    while i < n
        invariant
            i <= n,
            n == items@.len(),
            model == arr_view(*items),
            out@.len() == i,
            forall|k: int| 0 <= k < i ==> role_matches(#[trigger] out@[k], model[k]),
            forall|k: int| 0 <= k < i ==> role_wf(#[trigger] model[k]),
        decreases n - i,
    {
        proof {
            assert(model[i as int] == items@[i as int]@);
        }
        match role_from_json(&items[i]) {
            Some(role) => out.push(role),
            None => {
                return None;
            },
        }
        i = i + 1;
    }
    Some(out)
}

/// The role a mention-like text names: a bare decimal id, or a role
/// mention token `<@&id>`.
pub open spec fn spec_role_mention_id(s: Seq<char>) -> Option<u64> {
    if crate::text::spec_dec_u64(s) is Some {
        crate::text::spec_dec_u64(s)
    } else if s.len() >= 4 && s[0] == '<' && s[1] == '@' && s[2] == '&' && s[s.len() - 1] == '>' {
        crate::text::spec_dec_u64(s.subrange(3, s.len() - 1))
    } else {
        None
    }
}

/// Reads the role id a mention-like text names.
pub fn parse_role_mention(text: &str) -> (r: Option<u64>)
    ensures
        r == spec_role_mention_id(text@),
{
    let v = crate::text::chars_of(text);
    let n = v.len();
    if let Some(x) = crate::text::parse_u64_range(&v, 0, n) {
        proof {
            assert(v@.subrange(0, n as int) =~= text@);
        }
        return Some(x);
    }
    proof {
        assert(v@.subrange(0, n as int) =~= text@);
    }
    if n >= 4 && v[0] == '<' && v[1] == '@' && v[2] == '&' && v[n - 1] == '>' {
        crate::text::parse_u64_range(&v, 3, n - 1)
    } else {
        None
    }
}

/// The first role with this id.
pub fn find_role_by_id(roles: &Vec<Role>, id: RoleId) -> (r: Option<usize>)
    ensures
        r matches Some(i) ==> i < roles@.len() && roles@[i as int].id == id && (forall|j: int|
            0 <= j < i ==> (#[trigger] roles@[j]).id != id),
        r is None ==> forall|j: int| 0 <= j < roles@.len() ==> (#[trigger] roles@[j]).id != id,
{
    let n = roles.len();
    let mut i: usize = 0;
    while i < n
        invariant
            i <= n,
            n == roles@.len(),
            forall|j: int| 0 <= j < i ==> (#[trigger] roles@[j]).id != id,
        decreases n - i,
    {
        if roles[i].id.0 == id.0 {
            return Some(i);
        }
        i = i + 1;
    }
    None
}

/// The first role answering to this name, up to ASCII case.
pub fn find_role_by_name(roles: &Vec<Role>, text: &str) -> (r: Option<usize>)
    ensures
        r matches Some(i) ==> i < roles@.len() && crate::text::eq_ignore_case(
            roles@[i as int].name@,
            text@,
        ) && (forall|j: int|
            0 <= j < i ==> !crate::text::eq_ignore_case((#[trigger] roles@[j]).name@, text@)),
        r is None ==> forall|j: int|
            0 <= j < roles@.len() ==> !crate::text::eq_ignore_case(
                (#[trigger] roles@[j]).name@,
                text@,
            ),
{
    let n = roles.len();
    let mut i: usize = 0;
    while i < n
        invariant
            i <= n,
            n == roles@.len(),
            forall|j: int|
                0 <= j < i ==> !crate::text::eq_ignore_case((#[trigger] roles@[j]).name@, text@),
        decreases n - i,
    {
        if crate::text::str_eq_ignore_case(roles[i].name.as_str(), text) {
            return Some(i);
        }
        i = i + 1;
    }
    None
}


} // verus!
