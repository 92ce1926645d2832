//! JSON values and their canonical text form.
//!
//! Every gateway frame and every REST body is a JSON document.  The library
//! carries such documents as [`Json`] trees; [`JsonVal`] is the mathematical
//! model of a tree, and [`print_json`] the canonical text of a model.  The
//! executable printer is proved to emit exactly that text.
//!
//! A number that is a plain unsigned 64-bit integer is held as `Num`; any
//! other number the wire may carry (negative, fractional, or too large) is
//! held as `NumText`, its literal text, so that documents round-trip without
//! a floating-point type.

pub mod parse;

use vstd::prelude::*;

use crate::text::dec_chars;

verus! {

broadcast use vstd::std_specs::vec::group_vec_axioms, vstd::seq::group_seq_axioms;

/// The mathematical model of a JSON document.
#[verifier::ext_equal]
pub enum JsonVal {
    Null,
    Bool(bool),
    Num(u64),
    NumText(Seq<char>),
    Str(Seq<char>),
    Arr(Seq<JsonVal>),
    Obj(Seq<(Seq<char>, JsonVal)>),
}

/// A JSON document.
#[derive(Debug, PartialEq)]
pub enum Json {
    Null,
    Bool(bool),
    Num(u64),
    NumText(String),
    Str(String),
    Arr(Vec<Json>),
    Obj(Vec<(String, Json)>),
}

impl View for Json {
    type V = JsonVal;

    open spec fn view(&self) -> JsonVal
        decreases self,
    {
        match self {
            Json::Null => JsonVal::Null,
            Json::Bool(b) => JsonVal::Bool(*b),
            Json::Num(n) => JsonVal::Num(*n),
            Json::NumText(t) => JsonVal::NumText(t@),
            Json::Str(s) => JsonVal::Str(s@),
            Json::Arr(items) => JsonVal::Arr(arr_view(*items)),
            Json::Obj(members) => JsonVal::Obj(obj_view(*members)),
        }
    }
}

/// The models of an array's items, in order.
pub open spec fn arr_view(items: Vec<Json>) -> Seq<JsonVal>
    decreases items,
{
    Seq::new(
        items.len() as nat,
        |i: int|
            if 0 <= i < items.len() {
                items[i].view()
            } else {
                arbitrary()
            },
    )
}

/// The models of an object's members, in order.
pub open spec fn obj_view(members: Vec<(String, Json)>) -> Seq<(Seq<char>, JsonVal)>
    decreases members,
{
    Seq::new(
        members.len() as nat,
        |i: int|
            if 0 <= i < members.len() {
                (members[i].0@, members[i].1.view())
            } else {
                arbitrary()
            },
    )
}

/// The model of each member of an object, by index.
pub proof fn lemma_obj_view_elems(v: Vec<(String, Json)>)
    ensures
        obj_view(v).len() == v@.len(),
        forall|i: int| 0 <= i < v@.len() ==> #[trigger] obj_view(v)[i] == (v@[i].0@, v@[i].1@),
{
}

/// The model of each item of an array, by index.
pub proof fn lemma_arr_view_elems(v: Vec<Json>)
    ensures
        arr_view(v).len() == v@.len(),
        forall|i: int| 0 <= i < v@.len() ==> #[trigger] arr_view(v)[i] == v@[i]@,
{
}

/// A hexadecimal digit character, lower case.
pub open spec fn hex_digit_char(d: int) -> char
    recommends
        0 <= d < 16,
{
    if d < 10 {
        ((48 + d) as u8) as char
    } else {
        ((87 + d) as u8) as char
    }
}

/// The printed form of one character inside a JSON string: quotes and
/// backslashes are escaped, control characters take the `\u00XX` form, and
/// everything else stands as itself.
pub open spec fn print_str_char(c: char) -> Seq<char> {
    if c == '"' {
        seq!['\\', '"']
    } else if c == '\\' {
        seq!['\\', '\\']
    } else if (c as u32) < 32 {
        seq!['\\', 'u', '0', '0', hex_digit_char(c as u32 as int / 16), hex_digit_char(
            c as u32 as int % 16,
        )]
    } else {
        seq![c]
    }
}

/// The printed body of a JSON string, from position `k` on.
pub open spec fn print_str_body(s: Seq<char>, k: int) -> Seq<char>
    decreases s.len() - k,
{
    if 0 <= k < s.len() {
        print_str_char(s[k]) + print_str_body(s, k + 1)
    } else {
        Seq::empty()
    }
}

/// The printed form of a JSON string: the escaped body in double quotes.
pub open spec fn print_str(s: Seq<char>) -> Seq<char> {
    seq!['"'] + print_str_body(s, 0) + seq!['"']
}

/// The canonical text of a JSON document: no whitespace, object members in
/// their held order.
pub open spec fn print_json(v: JsonVal) -> Seq<char>
    decreases v, 1int, 0int,
{
    match v {
        JsonVal::Null => seq!['n', 'u', 'l', 'l'],
        JsonVal::Bool(b) => if b {
            seq!['t', 'r', 'u', 'e']
        } else {
            seq!['f', 'a', 'l', 's', 'e']
        },
        JsonVal::Num(n) => dec_chars(n as nat),
        JsonVal::NumText(t) => t,
        JsonVal::Str(s) => print_str(s),
        JsonVal::Arr(items) => seq!['['] + print_arr_items(items, 0) + seq![']'],
        JsonVal::Obj(members) => seq!['{'] + print_obj_members(members, 0) + seq!['}'],
    }
}

/// The printed items of an array from index `k` on, comma-separated.
pub open spec fn print_arr_items(items: Seq<JsonVal>, k: int) -> Seq<char>
    decreases items, 0int, items.len() - k,
{
    if 0 <= k < items.len() {
        let head = print_json(items[k]);
        if k + 1 < items.len() {
            head + seq![','] + print_arr_items(items, k + 1)
        } else {
            head
        }
    } else {
        Seq::empty()
    }
}

/// The printed members of an object from index `k` on: `"key":value`,
/// comma-separated.
pub open spec fn print_obj_members(members: Seq<(Seq<char>, JsonVal)>, k: int) -> Seq<char>
    decreases members, 0int, members.len() - k,
{
    if 0 <= k < members.len() {
        let head = print_str(members[k].0) + seq![':'] + print_json(members[k].1);
        if k + 1 < members.len() {
            head + seq![','] + print_obj_members(members, k + 1)
        } else {
            head
        }
    } else {
        Seq::empty()
    }
}

/// Appends the escaped body of a JSON string to `out`.
fn write_str_body(s: &Vec<char>, out: &mut Vec<char>)
    ensures
        final(out)@ == old(out)@ + print_str_body(s@, 0),
{
    let n = s.len();
    let mut i: usize = 0;
    while i < n
        invariant
            i <= n,
            n == s@.len(),
            out@ + print_str_body(s@, i as int) == old(out)@ + print_str_body(s@, 0),
        decreases n - i,
    {
        let c = s[i];
        let u = c as u32;
        let ghost pre = out@;
        if c == '"' {
            out.push('\\');
            out.push('"');
        } else if c == '\\' {
            out.push('\\');
            out.push('\\');
        } else if u < 32 {
            out.push('\\');
            out.push('u');
            out.push('0');
            out.push('0');
            let hi = u / 16;
            let lo = u % 16;
            let hc: char = if hi < 10 {
                ((48 + hi) as u8) as char
            } else {
                ((87 + hi) as u8) as char
            };
            let lc: char = if lo < 10 {
                ((48 + lo) as u8) as char
            } else {
                ((87 + lo) as u8) as char
            };
            out.push(hc);
            out.push(lc);
        } else {
            out.push(c);
        }
        proof {
            assert(out@ =~= pre + print_str_char(s@[i as int]));
            assert(pre + print_str_char(s@[i as int]) + print_str_body(s@, i + 1) =~= pre
                + print_str_body(s@, i as int));
        }
        i = i + 1;
    }
}

/// Appends the printed form of a JSON string to `out`.
fn write_str(s: &Vec<char>, out: &mut Vec<char>)
    ensures
        final(out)@ == old(out)@ + print_str(s@),
{
    out.push('"');
    write_str_body(s, out);
    out.push('"');
    proof {
        assert(out@ =~= old(out)@ + print_str(s@));
    }
}

/// Appends the canonical text of `j` to `out`.
pub fn write_json(j: &Json, out: &mut Vec<char>)
    ensures
        final(out)@ == old(out)@ + print_json(j@),
    decreases j@, 1int, 0int,
{
    match j {
        Json::Null => {
            out.push('n');
            out.push('u');
            out.push('l');
            out.push('l');
            proof {
                assert(out@ =~= old(out)@ + print_json(j@));
            }
        },
        Json::Bool(b) => {
            if *b {
                out.push('t');
                out.push('r');
                out.push('u');
                out.push('e');
            } else {
                out.push('f');
                out.push('a');
                out.push('l');
                out.push('s');
                out.push('e');
            }
            proof {
                assert(out@ =~= old(out)@ + print_json(j@));
            }
        },
        Json::Num(n) => {
            let mut digits = crate::text::u64_to_dec_chars(*n);
            out.append(&mut digits);
            proof {
                assert(out@ =~= old(out)@ + print_json(j@));
            }
        },
        Json::NumText(t) => {
            let mut cs = crate::text::chars_of(t.as_str());
            out.append(&mut cs);
            proof {
                assert(out@ =~= old(out)@ + print_json(j@));
            }
        },
        Json::Str(s) => {
            let cs = crate::text::chars_of(s.as_str());
            write_str(&cs, out);
        },
        Json::Arr(items) => {
            out.push('[');
            let n = items.len();
            let mut i: usize = 0;
            proof {
                assert(out@ =~= old(out)@ + seq!['[']);
            }
            while i < n
                invariant
                    i <= n,
                    n == items@.len(),
                    j@ == JsonVal::Arr(arr_view(*items)),
                    out@ + print_arr_items(j@->Arr_0, i as int) == old(out)@ + seq!['[']
                        + print_arr_items(j@->Arr_0, 0),
                decreases n - i,
            {
                let ghost pre = out@;
                proof {
                    let ghost m = arr_view(*items);
                    assert(decreases_to!(j@ => m));
                    assert(m[i as int] == items[i as int]@);
                    assert(decreases_to!(m => m[i as int]));
                }
                write_json(&items[i], out);
                if i + 1 < n {
                    out.push(',');
                }
                proof {
                    let ghost m = j@->Arr_0;
                    assert(m[i as int] == items@[i as int].view());
                    if i + 1 < n {
                        assert(out@ =~= pre + print_json(m[i as int]) + seq![',']);
                        assert(pre + print_json(m[i as int]) + seq![','] + print_arr_items(
                            m,
                            i + 1,
                        ) =~= pre + print_arr_items(m, i as int));
                    } else {
                        assert(out@ =~= pre + print_json(m[i as int]));
                        assert(pre + print_json(m[i as int]) + print_arr_items(m, i + 1) =~= pre
                            + print_arr_items(m, i as int));
                    }
                }
                i = i + 1;
            }
            out.push(']');
            proof {
                assert(out@ =~= old(out)@ + print_json(j@));
            }
        },
        Json::Obj(members) => {
            out.push('{');
            let n = members.len();
            let mut i: usize = 0;
            proof {
                assert(out@ =~= old(out)@ + seq!['{']);
            }
            while i < n
                invariant
                    i <= n,
                    n == members@.len(),
                    j@ == JsonVal::Obj(obj_view(*members)),
                    out@ + print_obj_members(j@->Obj_0, i as int) == old(out)@ + seq!['{']
                        + print_obj_members(j@->Obj_0, 0),
                decreases n - i,
            {
                let ghost pre = out@;
                let key = crate::text::chars_of(members[i].0.as_str());
                write_str(&key, out);
                out.push(':');
                proof {
                    let ghost m = obj_view(*members);
                    assert(decreases_to!(j@ => m));
                    assert(m[i as int].1 == members[i as int].1@);
                    assert(decreases_to!(m => m[i as int]));
                    assert(decreases_to!(m[i as int] => m[i as int].1));
                }
                write_json(&members[i].1, out);
                if i + 1 < n {
                    out.push(',');
                }
                proof {
                    let ghost m = j@->Obj_0;
                    assert(m[i as int] == (members@[i as int].0@, members@[i as int].1.view()));
                    let ghost head = print_str(m[i as int].0) + seq![':'] + print_json(
                        m[i as int].1,
                    );
                    if i + 1 < n {
                        assert(out@ =~= pre + head + seq![',']);
                        assert(pre + head + seq![','] + print_obj_members(m, i + 1) =~= pre
                            + print_obj_members(m, i as int));
                    } else {
                        assert(out@ =~= pre + head);
                        assert(pre + head + print_obj_members(m, i + 1) =~= pre
                            + print_obj_members(m, i as int));
                    }
                }
                i = i + 1;
            }
            out.push('}');
            proof {
                assert(out@ =~= old(out)@ + print_json(j@));
            }
        },
    }
}

/// The canonical text of `j`, as a `String`.
pub fn json_to_string(j: &Json) -> (s: String)
    ensures
        s@ == print_json(j@),
{
    let mut out: Vec<char> = Vec::new();
    write_json(j, &mut out);
    crate::text::string_from_chars(&out)
}

/// The value of the first member of an object model named `key`.
pub open spec fn find_member(ms: Seq<(Seq<char>, JsonVal)>, key: Seq<char>) -> Option<JsonVal>
    decreases ms.len(),
{
    if ms.len() == 0 {
        None
    } else if ms[0].0 == key {
        Some(ms[0].1)
    } else {
        find_member(ms.drop_first(), key)
    }
}

/// The field named `key` of an object; `None` when the value is not an
/// object or has no such member.
pub open spec fn jv_get(v: JsonVal, key: Seq<char>) -> Option<JsonVal> {
    match v {
        JsonVal::Obj(ms) => find_member(ms, key),
        _ => None,
    }
}

/// The value of an unsigned integer document.
pub open spec fn jv_u64(v: JsonVal) -> Option<u64> {
    match v {
        JsonVal::Num(n) => Some(n),
        _ => None,
    }
}

/// The content of a string document.
pub open spec fn jv_str(v: JsonVal) -> Option<Seq<char>> {
    match v {
        JsonVal::Str(s) => Some(s),
        _ => None,
    }
}

/// The value of a boolean document.
pub open spec fn jv_bool(v: JsonVal) -> Option<bool> {
    match v {
        JsonVal::Bool(b) => Some(b),
        _ => None,
    }
}

/// Looks up the first member named `key` of an object.
pub fn json_get<'a>(j: &'a Json, key: &str) -> (r: Option<&'a Json>)
    ensures
        r matches Some(x) ==> jv_get(j@, key@) == Some(x@),
        r is None ==> jv_get(j@, key@) is None,
{
    match j {
        Json::Obj(members) => {
            let n = members.len();
            let mut i: usize = 0;
            proof {
                assert(obj_view(*members).skip(0) =~= obj_view(*members));
            }
            while i < n
                invariant
                    i <= n,
                    n == members@.len(),
                    j@ == JsonVal::Obj(obj_view(*members)),
                    find_member(obj_view(*members).skip(i as int), key@) == find_member(
                        obj_view(*members),
                        key@,
                    ),
                decreases n - i,
            {
                let ghost ms = obj_view(*members);
                if crate::text::str_eq(members[i].0.as_str(), key) {
                    proof {
                        assert(ms.skip(i as int)[0] == ms[i as int]);
                    }
                    return Some(&members[i].1);
                }
                proof {
                    assert(ms.skip(i as int)[0] == ms[i as int]);
                    assert(ms.skip(i as int).drop_first() =~= ms.skip(i + 1));
                }
                i = i + 1;
            }
            proof {
                assert(obj_view(*members).skip(n as int) =~= Seq::<(Seq<char>, JsonVal)>::empty());
            }
            None
        },
        _ => None,
    }
}

/// Reads an unsigned integer document.
pub fn json_u64(j: &Json) -> (r: Option<u64>)
    ensures
        r == jv_u64(j@),
{
    match j {
        Json::Num(n) => Some(*n),
        _ => None,
    }
}

/// Reads a boolean document.
pub fn json_bool(j: &Json) -> (r: Option<bool>)
    ensures
        r == jv_bool(j@),
{
    match j {
        Json::Bool(b) => Some(*b),
        _ => None,
    }
}

/// Reads the content of a string document.
pub fn json_str(j: &Json) -> (r: Option<&String>)
    ensures
        r matches Some(s) ==> jv_str(j@) == Some(s@),
        r is None ==> jv_str(j@) is None,
{
    match j {
        Json::Str(s) => Some(s),
        _ => None,
    }
}


/// A member found by name stands below the member list in the
/// structural order that recursion descends.
pub proof fn lemma_find_member_decreases(ms: Seq<(Seq<char>, JsonVal)>, key: Seq<char>)
    requires
        find_member(ms, key) is Some,
    ensures
        decreases_to!(ms => find_member(ms, key)->0),
    decreases ms.len(),
{
    if ms.len() > 0 {
        if ms[0].0 == key {
            assert(decreases_to!(ms => ms[0]));
            assert(decreases_to!(ms[0] => ms[0].1));
        } else {
            lemma_find_member_decreases(ms.drop_first(), key);
            assert(ms.drop_first() == ms.subrange(1, ms.len() as int));
            assert(decreases_to!(ms => ms.subrange(1, ms.len() as int)));
        }
    }
}

/// A field's value stands below the object in the structural order that
/// recursion descends.
pub proof fn lemma_jv_get_decreases(v: JsonVal, key: Seq<char>)
    requires
        jv_get(v, key) is Some,
    ensures
        decreases_to!(v => jv_get(v, key)->0),
{
    let ms = v->Obj_0;
    assert(decreases_to!(v => ms));
    lemma_find_member_decreases(ms, key);
}


/// Deep-copies a JSON document.
pub fn clone_json(j: &Json) -> (r: Json)
    ensures
        r@ == j@,
    decreases j@, 1int, 0int,
{
    match j {
        Json::Null => Json::Null,
        Json::Bool(b) => Json::Bool(*b),
        Json::Num(n) => Json::Num(*n),
        Json::NumText(t) => Json::NumText(t.clone()),
        Json::Str(s) => Json::Str(s.clone()),
        Json::Arr(items) => {
            let n = items.len();
            let mut out: Vec<Json> = Vec::new();
            let mut i: usize = 0;
            while i < n
                invariant
                    i <= n,
                    n == items@.len(),
                    j@ == JsonVal::Arr(arr_view(*items)),
                    out@.len() == i,
                    forall|k: int| 0 <= k < i ==> (#[trigger] out@[k])@ == arr_view(
                        *items,
                    )[k],
                decreases n - i,
            {
                proof {
                    let ghost m = arr_view(*items);
                    assert(decreases_to!(j@ => j@->Arr_0));
                    assert(m == j@->Arr_0);
                    assert(m[i as int] == items[i as int]@);
                    assert(decreases_to!(m => m[i as int]));
                }
                let c = clone_json(&items[i]);
                out.push(c);
                i = i + 1;
            }
            let r = Json::Arr(out);
            proof {
                assert(arr_view(r->Arr_0) =~= arr_view(*items));
            }
            r
        },
        Json::Obj(members) => {
            let n = members.len();
            let mut out: Vec<(String, Json)> = Vec::new();
            let mut i: usize = 0;
            while i < n
                invariant
                    i <= n,
                    n == members@.len(),
                    j@ == JsonVal::Obj(obj_view(*members)),
                    out@.len() == i,
                    forall|k: int|
                        0 <= k < i ==> ((#[trigger] out@[k]).0@, out@[k].1@)
                            == obj_view(*members)[k],
                decreases n - i,
            {
                proof {
                    let ghost m = obj_view(*members);
                    assert(decreases_to!(j@ => j@->Obj_0));
                    assert(m == j@->Obj_0);
                    assert(m[i as int] == (members[i as int].0@, members[i as int].1@));
                    assert(decreases_to!(m => m[i as int]));
                    assert(decreases_to!(m[i as int] => m[i as int].1));
                }
                let k = members[i].0.clone();
                let c = clone_json(&members[i].1);
                out.push((k, c));
                i = i + 1;
            }
            let r = Json::Obj(out);
            proof {
                assert(obj_view(r->Obj_0) =~= obj_view(*members));
            }
            r
        },
    }
}

impl Clone for Json {
    /// A deep copy with the same model.
    fn clone(&self) -> (r: Json)
        ensures
            r@ == self@,
    {
        clone_json(self)
    }
}

} // verus!
