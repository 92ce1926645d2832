//! Domain ids ("snowflakes"): 64-bit unsigned integers that the wire
//! transmits as either a JSON number or a decimal string, and that encode
//! as the number form.

use vstd::prelude::*;

use crate::json::{Json, JsonVal, print_json};
use crate::text::{
    all_dec_digits, dec_chars, dec_val, lemma_dec_chars_round_trip, string_from_chars,
    u64_to_dec_chars,
};

verus! {

#[derive(Debug, Clone, Copy, PartialEq, Eq, Structural, PartialOrd, Ord, Hash)]
pub struct ChannelId(pub u64);

#[derive(Debug, Clone, Copy, PartialEq, Eq, Structural, PartialOrd, Ord, Hash)]
pub struct GuildId(pub u64);

#[derive(Debug, Clone, Copy, PartialEq, Eq, Structural, PartialOrd, Ord, Hash)]
pub struct MessageId(pub u64);

#[derive(Debug, Clone, Copy, PartialEq, Eq, Structural, PartialOrd, Ord, Hash)]
pub struct RoleId(pub u64);

#[derive(Debug, Clone, Copy, PartialEq, Eq, Structural, PartialOrd, Ord, Hash)]
pub struct UserId(pub u64);

#[derive(Debug, Clone, Copy, PartialEq, Eq, Structural, PartialOrd, Ord, Hash)]
pub struct WebhookId(pub u64);

/// The snowflake a document denotes: the value of a number document, or of
/// a decimal-string document whose value fits in a `u64`.
pub open spec fn spec_snowflake(v: JsonVal) -> Option<u64> {
    match v {
        JsonVal::Num(n) => Some(n),
        JsonVal::Str(s) => if s.len() > 0 && all_dec_digits(s) && dec_val(s) <= u64::MAX {
            Some(dec_val(s) as u64)
        } else {
            None
        },
        _ => None,
    }
}

/// Reads a snowflake from its number form or its decimal string form.
pub fn snowflake_from_json(j: &Json) -> (r: Option<u64>)
    ensures
        r == spec_snowflake(j@),
{
    match j {
        Json::Num(n) => Some(*n),
        Json::Str(s) => crate::text::parse_u64_dec(s.as_str()),
        _ => None,
    }
}

/// Encodes a snowflake: always the number form.
pub fn snowflake_to_json(n: u64) -> (r: Json)
    ensures
        r@ == JsonVal::Num(n),
{
    Json::Num(n)
}

/// Law: snowflakes round-trip through JSON.  Decoding the number form of
/// `n` and decoding the decimal string form of `n` both yield `n`, and `n`
/// encodes as exactly the decimal number form.
pub proof fn lemma_snowflake_round_trip(n: u64)
    ensures
        spec_snowflake(JsonVal::Num(n)) == Some(n),
        spec_snowflake(JsonVal::Str(dec_chars(n as nat))) == Some(n),
        print_json(JsonVal::Num(n)) == dec_chars(n as nat),
{
    lemma_dec_chars_round_trip(n as nat);
}

/// Law: snowflakes round-trip through the wire text itself.  The printed
/// number form parses back to the number document, the printed string
/// form parses back to the string document, and both documents decode to
/// the id.
pub proof fn lemma_snowflake_text_round_trip(n: u64)
    ensures
        crate::json::parse::spec_parse_json(print_json(JsonVal::Num(n))) == Some(JsonVal::Num(n)),
        crate::json::parse::spec_parse_json(print_json(JsonVal::Str(dec_chars(n as nat))))
            == Some(JsonVal::Str(dec_chars(n as nat))),
        spec_snowflake(JsonVal::Num(n)) == Some(n),
        spec_snowflake(JsonVal::Str(dec_chars(n as nat))) == Some(n),
{
    lemma_snowflake_round_trip(n);
    crate::json::parse::lemma_num_text_round_trip(n);
    let s = dec_chars(n as nat);
    assert forall|j: int| 0 <= j < s.len() implies crate::json::parse::plain_char(
        #[trigger] s[j],
    ) by {
        assert(48 <= s[j] as u32 <= 57);
    };
    crate::json::parse::lemma_str_text_round_trip(s);
}

/// Renders `<`, then `prefix`, then the decimal digits of `n`, then `>`.
fn mention_string(prefix: char, second: Option<char>, n: u64) -> (s: String)
    ensures
        second matches Some(c) ==> s@ == seq!['<', prefix, c] + dec_chars(n as nat) + seq!['>'],
        second is None ==> s@ == seq!['<', prefix] + dec_chars(n as nat) + seq!['>'],
{
    let mut v: Vec<char> = Vec::new();
    v.push('<');
    v.push(prefix);
    if let Some(c) = second {
        v.push(c);
    }
    let mut d = u64_to_dec_chars(n);
    v.append(&mut d);
    v.push('>');
    proof {
        if second is Some {
            assert(v@ =~= seq!['<', prefix, second->0] + dec_chars(n as nat) + seq!['>']);
        } else {
            assert(v@ =~= seq!['<', prefix] + dec_chars(n as nat) + seq!['>']);
        }
    }
    string_from_chars(&v)
}

impl ChannelId {
    /// The mention token for the channel: `<#` then the id then `>`.
    pub fn mention(self) -> (s: String)
        ensures
            s@ == seq!['<', '#'] + dec_chars(self.0 as nat) + seq!['>'],
    {
        mention_string('#', None, self.0)
    }
}

impl RoleId {
    /// The mention token for the role: `<@&` then the id then `>`.
    pub fn mention(self) -> (s: String)
        ensures
            s@ == seq!['<', '@', '&'] + dec_chars(self.0 as nat) + seq!['>'],
    {
        mention_string('@', Some('&'), self.0)
    }
}

impl UserId {
    /// The mention token for the user: `<@` then the id then `>`.
    pub fn mention(self) -> (s: String)
        ensures
            s@ == seq!['<', '@'] + dec_chars(self.0 as nat) + seq!['>'],
    {
        mention_string('@', None, self.0)
    }
}

/// Every item of the array is a snowflake.
pub open spec fn snowflakes_wf(items: Seq<JsonVal>) -> bool {
    forall|i: int| 0 <= i < items.len() ==> spec_snowflake(#[trigger] items[i]) is Some
}

/// `ns` holds, in order, the snowflake of each item of the array.
pub open spec fn snowflakes_match(ns: Seq<u64>, items: Seq<JsonVal>) -> bool {
    &&& ns.len() == items.len()
    &&& forall|i: int| 0 <= i < items.len() ==> spec_snowflake(items[i]) == Some(#[trigger] ns[i])
}

/// Decodes an array of snowflakes.
pub fn snowflakes_from_json_arr(items: &Vec<Json>) -> (r: Option<Vec<u64>>)
    ensures
        r is Some <==> snowflakes_wf(crate::json::arr_view(*items)),
        r matches Some(ns) ==> snowflakes_match(ns@, crate::json::arr_view(*items)),
{
    let ghost model = crate::json::arr_view(*items);
    let n = items.len();
    let mut out: Vec<u64> = Vec::new();
    let mut i: usize = 0;
    while i < n
        invariant
            i <= n,
            n == items@.len(),
            model == crate::json::arr_view(*items),
            out@.len() == i,
            forall|k: int| 0 <= k < i ==> spec_snowflake(model[k]) == Some(#[trigger] out@[k]),
            forall|k: int| 0 <= k < i ==> spec_snowflake(#[trigger] model[k]) is Some,
        decreases n - i,
    {
        proof {
            assert(model[i as int] == items@[i as int]@);
        }
        match snowflake_from_json(&items[i]) {
            Some(v) => out.push(v),
            None => {
                return None;
            },
        }
        i = i + 1;
    }
    Some(out)
}


/// `rs` holds, in order, a role id for the snowflake of each item.
pub open spec fn role_ids_match(rs: Seq<RoleId>, items: Seq<JsonVal>) -> bool {
    &&& rs.len() == items.len()
    &&& forall|i: int| 0 <= i < items.len() ==> spec_snowflake(items[i]) == Some(
        (#[trigger] rs[i]).0,
    )
}

/// Decodes an array of role ids.
pub fn role_ids_from_json_arr(items: &Vec<Json>) -> (r: Option<Vec<RoleId>>)
    ensures
        r is Some <==> snowflakes_wf(crate::json::arr_view(*items)),
        r matches Some(rs) ==> role_ids_match(rs@, crate::json::arr_view(*items)),
{
    let ghost model = crate::json::arr_view(*items);
    let n = items.len();
    let mut out: Vec<RoleId> = Vec::new();
    let mut i: usize = 0;
    while i < n
        invariant
            i <= n,
            n == items@.len(),
            model == crate::json::arr_view(*items),
            out@.len() == i,
            forall|k: int| 0 <= k < i ==> spec_snowflake(model[k]) == Some((#[trigger] out@[k]).0),
            forall|k: int| 0 <= k < i ==> spec_snowflake(#[trigger] model[k]) is Some,
        decreases n - i,
    {
        proof {
            assert(model[i as int] == items@[i as int]@);
        }
        match snowflake_from_json(&items[i]) {
            Some(v) => out.push(RoleId(v)),
            None => {
                return None;
            },
        }
        i = i + 1;
    }
    Some(out)
}

} // verus!
