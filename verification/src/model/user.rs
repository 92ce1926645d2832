//! Users, as delivered inside ready payloads, messages and members.

use vstd::prelude::*;

use crate::json::{Json, JsonVal};
use crate::model::fields::{default_bool, opt_string, opt_u64, req_snowflake, req_string,
    spec_default_bool, spec_opt_str, spec_opt_u64, spec_req_snowflake, spec_req_str, view_opt_str};
use crate::model::id::UserId;

verus! {

#[derive(Debug, Clone, PartialEq)]
pub struct User {
    pub id: UserId,
    pub username: String,
    pub discriminator: String,
    pub avatar: Option<String>,
    pub bot: bool,
    pub public_flags: Option<u64>,
}

/// A document carries a user when each field reads under the wire's
/// conventions: `id` a snowflake, `username` and `discriminator` strings,
/// `avatar` an optional string, `bot` a boolean read `false` when absent,
/// `public_flags` an optional integer.
pub open spec fn user_wf(v: JsonVal) -> bool {
    &&& spec_req_snowflake(v, "id"@) is Some
    &&& spec_req_str(v, "username"@) is Some
    &&& spec_req_str(v, "discriminator"@) is Some
    &&& spec_opt_str(v, "avatar"@) is Some
    &&& spec_default_bool(v, "bot"@) is Some
    &&& spec_opt_u64(v, "public_flags"@) is Some
}

/// `u` is the user the document carries.
pub open spec fn user_matches(u: User, v: JsonVal) -> bool {
    &&& spec_req_snowflake(v, "id"@) == Some(u.id.0)
    &&& spec_req_str(v, "username"@) == Some(u.username@)
    &&& spec_req_str(v, "discriminator"@) == Some(u.discriminator@)
    &&& spec_opt_str(v, "avatar"@) == Some(view_opt_str(u.avatar))
    &&& spec_default_bool(v, "bot"@) == Some(u.bot)
    &&& spec_opt_u64(v, "public_flags"@) == Some(u.public_flags)
}

/// Decodes a user.
pub fn user_from_json(j: &Json) -> (r: Option<User>)
    ensures
        r is Some <==> user_wf(j@),
        r matches Some(u) ==> user_matches(u, j@),
{
    let id = match req_snowflake(j, "id") {
        Some(n) => n,
        None => { return None },
    };
    let username = match req_string(j, "username") {
        Some(s) => s,
        None => { return None },
    };
    let discriminator = match req_string(j, "discriminator") {
        Some(s) => s,
        None => { return None },
    };
    let avatar = match opt_string(j, "avatar") {
        Some(o) => o,
        None => { return None },
    };
    let bot = match default_bool(j, "bot") {
        Some(b) => b,
        None => { return None },
    };
    let public_flags = match opt_u64(j, "public_flags") {
        Some(o) => o,
        None => { return None },
    };
    Some(
        User {
            id: UserId(id),
            username,
            discriminator,
            avatar,
            bot,
            public_flags,
        },
    )
}

/// Every item of the array carries a user.
pub open spec fn users_wf(items: Seq<JsonVal>) -> bool {
    forall|i: int| 0 <= i < items.len() ==> user_wf(#[trigger] items[i])
}

/// `us` holds, in order, the user each item of the array carries.
pub open spec fn users_match(us: Seq<User>, items: Seq<JsonVal>) -> bool {
    &&& us.len() == items.len()
    &&& forall|i: int| 0 <= i < items.len() ==> user_matches(#[trigger] us[i], items[i])
}

/// Decodes an array of users.
pub fn users_from_json_arr(items: &Vec<Json>) -> (r: Option<Vec<User>>)
    ensures
        r is Some <==> users_wf(crate::json::arr_view(*items)),
        r matches Some(us) ==> users_match(us@, crate::json::arr_view(*items)),
{
    let ghost model = crate::json::arr_view(*items);
    let n = items.len();
    let mut out: Vec<User> = Vec::new();
    let mut i: usize = 0;
    while i < n
        invariant
            i <= n,
            n == items@.len(),
            model == crate::json::arr_view(*items),
            out@.len() == i,
            forall|k: int| 0 <= k < i ==> user_matches(#[trigger] out@[k], model[k]),
            forall|k: int| 0 <= k < i ==> user_wf(#[trigger] model[k]),
        decreases n - i,
    {
        proof {
            assert(model[i as int] == items@[i as int]@);
        }
        match user_from_json(&items[i]) {
            Some(u) => out.push(u),
            None => {
                return None;
            },
        }
        i = i + 1;
    }
    Some(out)
}


} // verus!
