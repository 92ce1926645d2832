//! Parsing of JSON text into [`Json`](crate::json::Json) trees.
//!
//! The grammar is given as spec functions over character sequences —
//! [`spec_parse_json`] is the reference meaning of a document — and the
//! executable parser is proved to return exactly what the spec functions
//! say.  Nesting is bounded (a frame nested deeper than the bound is
//! rejected), so parsing never recurses without limit.

use vstd::prelude::*;

use crate::json::{Json, JsonVal, arr_view, obj_view};
use crate::text::{all_dec_digits, dec_val, is_dec_digit, parse_u64_range};

verus! {

broadcast use vstd::std_specs::vec::group_vec_axioms, vstd::seq::group_seq_axioms;

/// JSON whitespace.
pub open spec fn is_ws(c: char) -> bool {
    c == ' ' || c as u32 == 9 || c as u32 == 10 || c as u32 == 13
}

/// The first position at or after `i` that does not hold whitespace.
pub open spec fn spec_skip_ws(s: Seq<char>, i: int) -> int
    decreases s.len() - i,
{
    if 0 <= i < s.len() && is_ws(s[i]) {
        spec_skip_ws(s, i + 1)
    } else {
        i
    }
}

/// Whitespace test on one character.
fn char_is_ws(c: char) -> (b: bool)
    ensures
        b == is_ws(c),
{
    let u = c as u32;
    u == 32 || u == 9 || u == 10 || u == 13
}

/// Decimal-digit test on one character.
fn char_is_digit(c: char) -> (b: bool)
    ensures
        b == is_dec_digit(c),
{
    let u = c as u32;
    48 <= u && u <= 57
}

/// Skips whitespace from `i` on.
pub fn skip_ws(v: &Vec<char>, i: usize) -> (j: usize)
    requires
        i <= v@.len(),
    ensures
        j == spec_skip_ws(v@, i as int),
        i <= j <= v@.len(),
{
    let n = v.len();
    let mut cur = i;
    while cur < n && char_is_ws(v[cur])
        invariant
            i <= cur <= n,
            n == v@.len(),
            spec_skip_ws(v@, i as int) == spec_skip_ws(v@, cur as int),
        decreases n - cur,
    {
        cur = cur + 1;
    }
    cur
}

/// Whether `c` is a hexadecimal digit.
pub open spec fn is_hex_digit(c: char) -> bool {
    is_dec_digit(c) || (97 <= c as u32 <= 102) || (65 <= c as u32 <= 70)
}

/// The value of a hexadecimal digit character.
pub open spec fn hex_val(c: char) -> int {
    if is_dec_digit(c) {
        c as u32 - 48
    } else if 97 <= c as u32 <= 102 {
        c as u32 - 87
    } else {
        c as u32 - 55
    }
}

/// Four hexadecimal digits starting at `i`, as a value below `0x10000`.
pub open spec fn spec_hex4(s: Seq<char>, i: int) -> Option<u32> {
    if 0 <= i && i + 4 <= s.len() && is_hex_digit(s[i]) && is_hex_digit(s[i + 1]) && is_hex_digit(
        s[i + 2],
    ) && is_hex_digit(s[i + 3]) {
        Some(
            (hex_val(s[i]) * 4096 + hex_val(s[i + 1]) * 256 + hex_val(s[i + 2]) * 16 + hex_val(
                s[i + 3],
            )) as u32,
        )
    } else {
        None
    }
}

/// Reads one hexadecimal digit.
fn hex_digit_at(v: &Vec<char>, i: usize) -> (r: Option<u32>)
    requires
        i < v@.len(),
    ensures
        r matches Some(h) ==> is_hex_digit(v@[i as int]) && h == hex_val(v@[i as int]) && h < 16,
        r is None ==> !is_hex_digit(v@[i as int]),
{
    let u = v[i] as u32;
    if 48 <= u && u <= 57 {
        Some(u - 48)
    } else if 97 <= u && u <= 102 {
        Some(u - 87)
    } else if 65 <= u && u <= 70 {
        Some(u - 55)
    } else {
        None
    }
}

/// Reads four hexadecimal digits.
fn hex4(v: &Vec<char>, i: usize) -> (r: Option<u32>)
    requires
        i <= v@.len(),
    ensures
        r == spec_hex4(v@, i as int),
        r matches Some(h) ==> h < 0x10000,
{
    if v.len() - i < 4 {
        return None;
    }
    let d0 = match hex_digit_at(v, i) {
        Some(d) => d,
        None => { return None },
    };
    let d1 = match hex_digit_at(v, i + 1) {
        Some(d) => d,
        None => { return None },
    };
    let d2 = match hex_digit_at(v, i + 2) {
        Some(d) => d,
        None => { return None },
    };
    let d3 = match hex_digit_at(v, i + 3) {
        Some(d) => d,
        None => { return None },
    };
    Some(d0 * 4096 + d1 * 256 + d2 * 16 + d3)
}

/// The scalar value of a surrogate pair.
pub open spec fn surrogate_scalar(h: u32, l: u32) -> u32 {
    (0x10000 + (h - 0xD800) * 0x400 + (l - 0xDC00)) as u32
}

/// Scans the body of a JSON string from `i` (just after the opening quote),
/// appending decoded characters to `acc`; yields the content and the
/// position after the closing quote.  Escapes take their JSON meaning; a
/// `\u` escape that names a high surrogate must be followed by a `\u` low
/// surrogate, and the pair denotes one character; a raw control character
/// or a lone surrogate is rejected.
pub open spec fn spec_scan_string(s: Seq<char>, i: int, acc: Seq<char>) -> Option<
    (Seq<char>, int),
>
    decreases s.len() - i,
{
    if !(0 <= i < s.len()) {
        None
    } else {
        let c = s[i];
        if c == '"' {
            Some((acc, i + 1))
        } else if c == '\\' {
            if i + 1 >= s.len() {
                None
            } else {
                let e = s[i + 1];
                if e == '"' {
                    spec_scan_string(s, i + 2, acc.push('"'))
                } else if e == '\\' {
                    spec_scan_string(s, i + 2, acc.push('\\'))
                } else if e == '/' {
                    spec_scan_string(s, i + 2, acc.push('/'))
                } else if e == 'b' {
                    spec_scan_string(s, i + 2, acc.push((8u8) as char))
                } else if e == 'f' {
                    spec_scan_string(s, i + 2, acc.push((12u8) as char))
                } else if e == 'n' {
                    spec_scan_string(s, i + 2, acc.push((10u8) as char))
                } else if e == 'r' {
                    spec_scan_string(s, i + 2, acc.push((13u8) as char))
                } else if e == 't' {
                    spec_scan_string(s, i + 2, acc.push((9u8) as char))
                } else if e == 'u' {
                    match spec_hex4(s, i + 2) {
                        Option::None => None,
                        Option::Some(h) => {
                            if 0xD800 <= h < 0xDC00 {
                                if i + 8 <= s.len() && s[i + 6] == '\\' && s[i + 7] == 'u' {
                                    match spec_hex4(s, i + 8) {
                                        Option::None => None,
                                        Option::Some(l) => {
                                            if 0xDC00 <= l < 0xE000 {
                                                spec_scan_string(
                                                    s,
                                                    i + 12,
                                                    acc.push(surrogate_scalar(h, l) as char),
                                                )
                                            } else {
                                                None
                                            }
                                        },
                                    }
                                } else {
                                    None
                                }
                            } else if 0xDC00 <= h < 0xE000 {
                                None
                            } else {
                                spec_scan_string(s, i + 6, acc.push(h as char))
                            }
                        },
                    }
                } else {
                    None
                }
            }
        } else if (c as u32) < 32 {
            None
        } else {
            spec_scan_string(s, i + 1, acc.push(c))
        }
    }
}

/// Relies on `char::from_u32`: `Some` exactly for Unicode scalar values
/// (at most 0x10FFFF and not a surrogate), and the returned character has
/// the given value.
#[verifier::external_body]
fn char_from_u32(u: u32) -> (r: Option<char>)
    ensures
        r matches Some(c) ==> c as u32 == u,
        r is Some <==> (u < 0xD800 || (0xE000 <= u && u <= 0x10FFFF)),
{
    char::from_u32(u)
}

/// Scans a JSON string body, starting just after the opening quote.
fn scan_string(v: &Vec<char>, i: usize) -> (r: Option<(Vec<char>, usize)>)
    requires
        i <= v@.len(),
    ensures
        r matches Some(p) ==> {
            &&& spec_scan_string(v@, i as int, Seq::empty()) == Some((p.0@, p.1 as int))
            &&& i < p.1 <= v@.len()
        },
        r is None ==> spec_scan_string(v@, i as int, Seq::empty()) is None,
{
    broadcast use vstd::utf8::char_u32_cast;

    let n = v.len();
    let mut cur = i;
    let mut acc: Vec<char> = Vec::new();
    loop
        invariant
            i <= cur <= n,
            n == v@.len(),
            spec_scan_string(v@, i as int, Seq::empty()) == spec_scan_string(
                v@,
                cur as int,
                acc@,
            ),
        decreases n - cur,
    {
        if cur >= n {
            return None;
        }
        let c = v[cur];
        if c == '"' {
            return Some((acc, cur + 1));
        } else if c == '\\' {
            if cur + 1 >= n {
                return None;
            }
            let e = v[cur + 1];
            if e == '"' || e == '\\' || e == '/' {
                acc.push(e);
                cur = cur + 2;
            } else if e == 'b' {
                acc.push((8u8) as char);
                cur = cur + 2;
            } else if e == 'f' {
                acc.push((12u8) as char);
                cur = cur + 2;
            } else if e == 'n' {
                acc.push((10u8) as char);
                cur = cur + 2;
            } else if e == 'r' {
                acc.push((13u8) as char);
                cur = cur + 2;
            } else if e == 't' {
                acc.push((9u8) as char);
                cur = cur + 2;
            } else if e == 'u' {
                let h = match hex4(v, cur + 2) {
                    Some(h) => h,
                    None => { return None },
                };
                if 0xD800 <= h && h < 0xDC00 {
                    if n - cur >= 8 && v[cur + 6] == '\\' && v[cur + 7] == 'u' {
                        let l = match hex4(v, cur + 8) {
                            Some(l) => l,
                            None => { return None },
                        };
                        if 0xDC00 <= l && l < 0xE000 {
                            let scalar = 0x10000 + (h - 0xD800) * 0x400 + (l - 0xDC00);
                            let c2 = match char_from_u32(scalar) {
                                Some(c2) => c2,
                                None => {
                                    proof {
                                        assert(false);
                                    }
                                    return None;
                                },
                            };
                            proof {
                                assert(scalar == surrogate_scalar(h, l));
                                vstd::utf8::char_u32_cast(c2, scalar);
                                assert(c2 == surrogate_scalar(h, l) as char);
                            }
                            acc.push(c2);
                            cur = cur + 12;
                        } else {
                            return None;
                        }
                    } else {
                        return None;
                    }
                } else if 0xDC00 <= h && h < 0xE000 {
                    return None;
                } else {
                    let c2 = match char_from_u32(h) {
                        Some(c2) => c2,
                        None => {
                            proof {
                                assert(false);
                            }
                            return None;
                        },
                    };
                    proof {
                        vstd::utf8::char_u32_cast(c2, h);
                        assert(c2 == h as char);
                    }
                    acc.push(c2);
                    cur = cur + 6;
                }
            } else {
                return None;
            }
        } else if (c as u32) < 32 {
            return None;
        } else {
            acc.push(c);
            cur = cur + 1;
        }
    }
}

/// The first position at or after `i` that does not hold a decimal digit.
pub open spec fn spec_scan_digits(s: Seq<char>, i: int) -> int
    decreases s.len() - i,
{
    if 0 <= i < s.len() && is_dec_digit(s[i]) {
        spec_scan_digits(s, i + 1)
    } else {
        i
    }
}

/// Skips decimal digits from `i` on.
pub fn scan_digits(v: &Vec<char>, i: usize) -> (j: usize)
    requires
        i <= v@.len(),
    ensures
        j == spec_scan_digits(v@, i as int),
        i <= j <= v@.len(),
{
    let n = v.len();
    let mut cur = i;
    while cur < n && char_is_digit(v[cur])
        invariant
            i <= cur <= n,
            n == v@.len(),
            spec_scan_digits(v@, i as int) == spec_scan_digits(v@, cur as int),
        decreases n - cur,
    {
        cur = cur + 1;
    }
    cur
}

/// The region a digit scan passes over holds digits only, and ends within
/// the string.
pub proof fn lemma_scan_digits_all(s: Seq<char>, i: int)
    requires
        0 <= i <= s.len(),
    ensures
        i <= spec_scan_digits(s, i) <= s.len(),
        all_dec_digits(s.subrange(i, spec_scan_digits(s, i))),
    decreases s.len() - i,
{
    if i < s.len() && is_dec_digit(s[i]) {
        lemma_scan_digits_all(s, i + 1);
        let e = spec_scan_digits(s, i);
        assert(e == spec_scan_digits(s, i + 1));
        assert forall|m: int| 0 <= m < e - i implies is_dec_digit(#[trigger] s.subrange(i, e)[m]) by {
            if m == 0 {
                assert(s.subrange(i, e)[0] == s[i]);
            } else {
                assert(s.subrange(i, e)[m] == s.subrange(i + 1, e)[m - 1]);
            }
        };
    } else {
        assert(s.subrange(i, i) =~= Seq::<char>::empty());
    }
}

/// The end of an exponent part at `i`: if `s[i]` opens an exponent, the
/// position after its digits (`None` when malformed); otherwise `i` itself.
pub open spec fn spec_after_exp(s: Seq<char>, i: int) -> Option<int> {
    if 0 <= i < s.len() && (s[i] == 'e' || s[i] == 'E') {
        let j = if i + 1 < s.len() && (s[i + 1] == '+' || s[i + 1] == '-') {
            i + 2
        } else {
            i + 1
        };
        let e = spec_scan_digits(s, j);
        if e == j {
            None
        } else {
            Some(e)
        }
    } else {
        Some(i)
    }
}

/// A JSON number starting at `i`.  A plain unsigned integer that fits in a
/// `u64` becomes `Num`; every other well-formed number keeps its literal
/// text as `NumText`.
pub open spec fn spec_parse_number(s: Seq<char>, i: int) -> Option<(JsonVal, int)> {
    if !(0 <= i < s.len()) {
        None
    } else {
        let ds = if s[i] == '-' {
            i + 1
        } else {
            i
        };
        let int_end = spec_scan_digits(s, ds);
        if int_end == ds {
            None
        } else if s[ds] == '0' && int_end > ds + 1 {
            None
        } else {
            let frac_end = if int_end < s.len() && s[int_end] == '.' {
                spec_scan_digits(s, int_end + 1)
            } else {
                int_end
            };
            if int_end < s.len() && s[int_end] == '.' && frac_end == int_end + 1 {
                None
            } else {
                match spec_after_exp(s, frac_end) {
                    Option::None => None,
                    Option::Some(end) => {
                        if s[i] != '-' && frac_end == int_end && end == frac_end && dec_val(
                            s.subrange(i, int_end),
                        ) <= u64::MAX {
                            Some((JsonVal::Num(dec_val(s.subrange(i, int_end)) as u64), end))
                        } else {
                            Some((JsonVal::NumText(s.subrange(i, end)), end))
                        }
                    },
                }
            }
        }
    }
}

/// Parses a JSON number.
fn parse_number(v: &Vec<char>, i: usize) -> (r: Option<(Json, usize)>)
    requires
        i < v@.len(),
    ensures
        r matches Some(p) ==> {
            &&& spec_parse_number(v@, i as int) == Some((p.0@, p.1 as int))
            &&& i < p.1 <= v@.len()
        },
        r is None ==> spec_parse_number(v@, i as int) is None,
{
    let n = v.len();
    let minus = v[i] == '-';
    let ds = if minus {
        i + 1
    } else {
        i
    };
    if ds > n {
        proof {
            assert(false);
        }
        return None;
    }
    let int_end = scan_digits(v, ds);
    if int_end == ds {
        return None;
    }
    proof {
        lemma_scan_digits_all(v@, ds as int);
    }
    if v[ds] == '0' && int_end > ds + 1 {
        return None;
    }
    let has_frac = int_end < n && v[int_end] == '.';
    let frac_end = if has_frac {
        scan_digits(v, int_end + 1)
    } else {
        int_end
    };
    if has_frac && frac_end == int_end + 1 {
        return None;
    }
    let end: usize;
    let has_exp: bool;
    if frac_end < n && (v[frac_end] == 'e' || v[frac_end] == 'E') {
        let j = if frac_end + 1 < n && (v[frac_end + 1] == '+' || v[frac_end + 1] == '-') {
            frac_end + 2
        } else {
            frac_end + 1
        };
        let e = scan_digits(v, j);
        if e == j {
            return None;
        }
        end = e;
        has_exp = true;
    } else {
        end = frac_end;
        has_exp = false;
    }
    proof {
        assert(spec_after_exp(v@, frac_end as int) == Some(end as int));
    }
    if !minus && !has_frac && !has_exp {
        if let Some(value) = parse_u64_range(v, i, int_end) {
            return Some((Json::Num(value), end));
        }
    }
    let mut text: Vec<char> = Vec::new();
    let mut k = i;
    while k < end
        invariant
            i <= k <= end <= v@.len(),
            text@ == v@.subrange(i as int, k as int),
        decreases end - k,
    {
        text.push(v[k]);
        k = k + 1;
        proof {
            assert(text@ =~= v@.subrange(i as int, k as int));
        }
    }
    let t = crate::text::string_from_chars(&text);
    Some((Json::NumText(t), end))
}

/// A JSON string starting at `i` (at its opening quote).
pub open spec fn spec_parse_string(s: Seq<char>, i: int) -> Option<(Seq<char>, int)> {
    if 0 <= i < s.len() && s[i] == '"' {
        spec_scan_string(s, i + 1, Seq::empty())
    } else {
        None
    }
}

/// Parses a JSON string at its opening quote.
fn parse_string(v: &Vec<char>, i: usize) -> (r: Option<(Vec<char>, usize)>)
    requires
        i <= v@.len(),
    ensures
        r matches Some(p) ==> {
            &&& spec_parse_string(v@, i as int) == Some((p.0@, p.1 as int))
            &&& i < p.1 <= v@.len()
        },
        r is None ==> spec_parse_string(v@, i as int) is None,
{
    if i < v.len() && v[i] == '"' {
        scan_string(v, i + 1)
    } else {
        None
    }
}

/// A JSON value starting at `i`, with nesting bounded by `depth`: an
/// object or array one level down is parsed with `depth - 1`, and at depth
/// zero nothing parses.
pub open spec fn spec_parse_value(s: Seq<char>, i: int, depth: nat) -> Option<(JsonVal, int)>
    decreases depth, s.len() - i, 0int,
{
    if !(0 <= i < s.len()) || depth == 0 {
        None
    } else {
        let c = s[i];
        if c == '{' {
            let j = spec_skip_ws(s, i + 1);
            if j < s.len() && s[j] == '}' {
                Some((JsonVal::Obj(Seq::empty()), j + 1))
            } else {
                spec_parse_obj_members(s, j, (depth - 1) as nat, Seq::empty())
            }
        } else if c == '[' {
            let j = spec_skip_ws(s, i + 1);
            if j < s.len() && s[j] == ']' {
                Some((JsonVal::Arr(Seq::empty()), j + 1))
            } else {
                spec_parse_arr_items(s, j, (depth - 1) as nat, Seq::empty())
            }
        } else if c == '"' {
            match spec_parse_string(s, i) {
                Option::None => None,
                Option::Some(p) => Some((JsonVal::Str(p.0), p.1)),
            }
        } else if c == 't' {
            if i + 4 <= s.len() && s[i + 1] == 'r' && s[i + 2] == 'u' && s[i + 3] == 'e' {
                Some((JsonVal::Bool(true), i + 4))
            } else {
                None
            }
        } else if c == 'f' {
            if i + 5 <= s.len() && s[i + 1] == 'a' && s[i + 2] == 'l' && s[i + 3] == 's' && s[i + 4]
                == 'e' {
                Some((JsonVal::Bool(false), i + 5))
            } else {
                None
            }
        } else if c == 'n' {
            if i + 4 <= s.len() && s[i + 1] == 'u' && s[i + 2] == 'l' && s[i + 3] == 'l' {
                Some((JsonVal::Null, i + 4))
            } else {
                None
            }
        } else if c == '-' || is_dec_digit(c) {
            spec_parse_number(s, i)
        } else {
            None
        }
    }
}

/// The members of an object from the first key at `i` (whitespace already
/// skipped, object known not to be empty), `acc` holding what came before;
/// yields the whole object and the position after its closing brace.
pub open spec fn spec_parse_obj_members(
    s: Seq<char>,
    i: int,
    depth: nat,
    acc: Seq<(Seq<char>, JsonVal)>,
) -> Option<(JsonVal, int)>
    decreases depth, s.len() - i, 1int,
{
    match spec_parse_string(s, i) {
        Option::None => None,
        Option::Some(kp) => {
            let j = spec_skip_ws(s, kp.1);
            if !(j < s.len() && s[j] == ':') {
                None
            } else {
                let j2 = spec_skip_ws(s, j + 1);
                if j2 <= i || j2 > s.len() {
                    None
                } else {
                    match spec_parse_value(s, j2, depth) {
                        Option::None => None,
                        Option::Some(vp) => {
                            let j3 = spec_skip_ws(s, vp.1);
                            let acc2 = acc.push((kp.0, vp.0));
                            if j3 < s.len() && s[j3] == ',' {
                                let j4 = spec_skip_ws(s, j3 + 1);
                                if j4 <= i || j4 > s.len() {
                                    None
                                } else {
                                    spec_parse_obj_members(s, j4, depth, acc2)
                                }
                            } else if j3 < s.len() && s[j3] == '}' {
                                Some((JsonVal::Obj(acc2), j3 + 1))
                            } else {
                                None
                            }
                        },
                    }
                }
            }
        },
    }
}

/// The items of an array from the first item at `i` (whitespace already
/// skipped, array known not to be empty), `acc` holding what came before;
/// yields the whole array and the position after its closing bracket.
pub open spec fn spec_parse_arr_items(
    s: Seq<char>,
    i: int,
    depth: nat,
    acc: Seq<JsonVal>,
) -> Option<(JsonVal, int)>
    decreases depth, s.len() - i, 1int,
{
    match spec_parse_value(s, i, depth) {
        Option::None => None,
        Option::Some(vp) => {
            let j = spec_skip_ws(s, vp.1);
            let acc2 = acc.push(vp.0);
            if j < s.len() && s[j] == ',' {
                let j2 = spec_skip_ws(s, j + 1);
                if j2 <= i || j2 > s.len() {
                    None
                } else {
                    spec_parse_arr_items(s, j2, depth, acc2)
                }
            } else if j < s.len() && s[j] == ']' {
                Some((JsonVal::Arr(acc2), j + 1))
            } else {
                None
            }
        },
    }
}

/// Pushing a member extends an object's model by the member's model.
proof fn lemma_obj_view_push(a: Vec<(String, Json)>, b: Vec<(String, Json)>, k: String, j: Json)
    requires
        b@ == a@.push((k, j)),
    ensures
        obj_view(b) =~= obj_view(a).push((k@, j@)),
{
    assert forall|m: int| 0 <= m < b@.len() implies obj_view(b)[m] == obj_view(a).push(
        (k@, j@),
    )[m] by {
        if m < a@.len() {
            assert(b@[m] == a@[m]);
        } else {
            assert(b@[m] == (k, j));
        }
    }
}

/// Pushing an item extends an array's model by the item's model.
proof fn lemma_arr_view_push(a: Vec<Json>, b: Vec<Json>, j: Json)
    requires
        b@ == a@.push(j),
    ensures
        arr_view(b) =~= arr_view(a).push(j@),
{
    assert forall|m: int| 0 <= m < b@.len() implies arr_view(b)[m] == arr_view(a).push(j@)[m] by {
        if m < a@.len() {
            assert(b@[m] == a@[m]);
        } else {
            assert(b@[m] == j);
        }
    }
}

/// Parses a JSON value at `i`.
fn parse_value(v: &Vec<char>, i: usize, depth: u64) -> (r: Option<(Json, usize)>)
    requires
        i <= v@.len(),
    ensures
        r matches Some(p) ==> {
            &&& spec_parse_value(v@, i as int, depth as nat) == Some((p.0@, p.1 as int))
            &&& i < p.1 <= v@.len()
        },
        r is None ==> spec_parse_value(v@, i as int, depth as nat) is None,
    decreases depth, v@.len() - i, 0int,
{
    let n = v.len();
    if i >= n || depth == 0 {
        return None;
    }
    let c = v[i];
    if c == '{' {
        let j = skip_ws(v, i + 1);
        if j < n && v[j] == '}' {
            let empty_members: Vec<(String, Json)> = Vec::new();
            proof {
                assert(obj_view(empty_members) =~= Seq::<(Seq<char>, JsonVal)>::empty());
            }
            Some((Json::Obj(empty_members), j + 1))
        } else {
            let empty_members: Vec<(String, Json)> = Vec::new();
            proof {
                assert(obj_view(empty_members) =~= Seq::<(Seq<char>, JsonVal)>::empty());
            }
            parse_obj_members(v, j, depth - 1, empty_members)
        }
    } else if c == '[' {
        let j = skip_ws(v, i + 1);
        if j < n && v[j] == ']' {
            let empty_items: Vec<Json> = Vec::new();
            proof {
                assert(arr_view(empty_items) =~= Seq::<JsonVal>::empty());
            }
            Some((Json::Arr(empty_items), j + 1))
        } else {
            let empty_items: Vec<Json> = Vec::new();
            proof {
                assert(arr_view(empty_items) =~= Seq::<JsonVal>::empty());
            }
            parse_arr_items(v, j, depth - 1, empty_items)
        }
    } else if c == '"' {
        match parse_string(v, i) {
            Some((content, j)) => {
                let st = crate::text::string_from_chars(&content);
                Some((Json::Str(st), j))
            },
            None => None,
        }
    } else if c == 't' {
        if n - i >= 4 && v[i + 1] == 'r' && v[i + 2] == 'u' && v[i + 3] == 'e' {
            Some((Json::Bool(true), i + 4))
        } else {
            None
        }
    } else if c == 'f' {
        if n - i >= 5 && v[i + 1] == 'a' && v[i + 2] == 'l' && v[i + 3] == 's' && v[i + 4] == 'e' {
            Some((Json::Bool(false), i + 5))
        } else {
            None
        }
    } else if c == 'n' {
        if n - i >= 4 && v[i + 1] == 'u' && v[i + 2] == 'l' && v[i + 3] == 'l' {
            Some((Json::Null, i + 4))
        } else {
            None
        }
    } else {
        let u = c as u32;
        if c == '-' || (48 <= u && u <= 57) {
            parse_number(v, i)
        } else {
            None
        }
    }
}

/// Parses the members of a non-empty object, from the first key.
fn parse_obj_members(v: &Vec<char>, i: usize, depth: u64, acc: Vec<(String, Json)>) -> (r: Option<
    (Json, usize),
>)
    requires
        i <= v@.len(),
    ensures
        r matches Some(p) ==> {
            &&& spec_parse_obj_members(v@, i as int, depth as nat, obj_view(acc)) == Some(
                (p.0@, p.1 as int),
            )
            &&& p.1 <= v@.len()
            &&& p.1 > i
        },
        r is None ==> spec_parse_obj_members(v@, i as int, depth as nat, obj_view(acc)) is None,
    decreases depth, v@.len() - i, 1int,
{
    let mut acc = acc;
    let (key_chars, j0) = match parse_string(v, i) {
        Some(p) => p,
        None => { return None },
    };
    let j = skip_ws(v, j0);
    if !(j < v.len() && v[j] == ':') {
        return None;
    }
    let j2 = skip_ws(v, j + 1);
    if j2 <= i || j2 > v.len() {
        proof {
            assert(false);
        }
        return None;
    }
    let (value, j3) = match parse_value(v, j2, depth) {
        Some(p) => p,
        None => { return None },
    };
    let j4 = skip_ws(v, j3);
    let key = crate::text::string_from_chars(&key_chars);
    let ghost old_acc = acc;
    acc.push((key, value));
    proof {
        lemma_obj_view_push(old_acc, acc, key, value);
    }
    if j4 < v.len() && v[j4] == ',' {
        let j5 = skip_ws(v, j4 + 1);
        if j5 <= i || j5 > v.len() {
            proof {
                assert(false);
            }
            return None;
        }
        parse_obj_members(v, j5, depth, acc)
    } else if j4 < v.len() && v[j4] == '}' {
        Some((Json::Obj(acc), j4 + 1))
    } else {
        None
    }
}

/// Parses the items of a non-empty array, from the first item.
fn parse_arr_items(v: &Vec<char>, i: usize, depth: u64, acc: Vec<Json>) -> (r: Option<
    (Json, usize),
>)
    requires
        i <= v@.len(),
    ensures
        r matches Some(p) ==> {
            &&& spec_parse_arr_items(v@, i as int, depth as nat, arr_view(acc)) == Some(
                (p.0@, p.1 as int),
            )
            &&& p.1 <= v@.len()
            &&& p.1 > i
        },
        r is None ==> spec_parse_arr_items(v@, i as int, depth as nat, arr_view(acc)) is None,
    decreases depth, v@.len() - i, 1int,
{
    let mut acc = acc;
    let (value, j0) = match parse_value(v, i, depth) {
        Some(p) => p,
        None => { return None },
    };
    let j = skip_ws(v, j0);
    let ghost old_acc = acc;
    acc.push(value);
    proof {
        lemma_arr_view_push(old_acc, acc, acc[acc.len() - 1]);
    }
    if j < v.len() && v[j] == ',' {
        let j2 = skip_ws(v, j + 1);
        if j2 <= i || j2 > v.len() {
            proof {
                assert(false);
            }
            return None;
        }
        parse_arr_items(v, j2, depth, acc)
    } else if j < v.len() && v[j] == ']' {
        Some((Json::Arr(acc), j + 1))
    } else {
        None
    }
}

/// The meaning of a whole JSON text: optional whitespace, one value,
/// optional whitespace, nothing else.  Nesting is bounded at 128 levels.
pub open spec fn spec_parse_json(s: Seq<char>) -> Option<JsonVal> {
    let i = spec_skip_ws(s, 0);
    match spec_parse_value(s, i, 128) {
        Option::None => None,
        Option::Some(p) => {
            if spec_skip_ws(s, p.1) == s.len() {
                Some(p.0)
            } else {
                None
            }
        },
    }
}

/// Parses a whole JSON text given as characters.
pub fn parse_json_chars(v: &Vec<char>) -> (r: Option<Json>)
    ensures
        r matches Some(j) ==> spec_parse_json(v@) == Some(j@),
        r is None ==> spec_parse_json(v@) is None,
{
    let i = skip_ws(v, 0);
    match parse_value(v, i, 128) {
        Some((j, e)) => {
            let t = skip_ws(v, e);
            if t == v.len() {
                Some(j)
            } else {
                None
            }
        },
        None => None,
    }
}

/// Parses a whole JSON text.
pub fn parse_json_text(s: &str) -> (r: Option<Json>)
    ensures
        r matches Some(j) ==> spec_parse_json(s@) == Some(j@),
        r is None ==> spec_parse_json(s@) is None,
{
    let v = crate::text::chars_of(s);
    parse_json_chars(&v)
}


/// A run of digits scans to its end.
proof fn lemma_scan_digits_full(s: Seq<char>, i: int)
    requires
        0 <= i <= s.len(),
        forall|j: int| i <= j < s.len() ==> is_dec_digit(#[trigger] s[j]),
    ensures
        spec_scan_digits(s, i) == s.len(),
    decreases s.len() - i,
{
    if i < s.len() {
        lemma_scan_digits_full(s, i + 1);
    }
}

/// The canonical decimal rendering never starts with a superfluous zero:
/// its first character is a digit, and for a positive number a non-zero
/// one.
proof fn lemma_dec_chars_leading(n: nat)
    ensures
        crate::text::dec_chars(n).len() >= 1,
        is_dec_digit(crate::text::dec_chars(n)[0]),
        n >= 1 ==> crate::text::digit_val(crate::text::dec_chars(n)[0]) >= 1,
    decreases n,
{
    crate::text::lemma_dec_chars_round_trip(n);
    let s = crate::text::dec_chars(n);
    assert(is_dec_digit(s[0]));
    if n >= 10 {
        lemma_dec_chars_leading(n / 10);
        assert(s[0] == crate::text::dec_chars(n / 10)[0]);
    }
}

/// Law: the number form of an id round-trips through the wire text.  The
/// canonical rendering of `n` — exactly what the printer emits for the
/// number document — parses back to that document.
pub proof fn lemma_num_text_round_trip(n: u64)
    ensures
        spec_parse_json(crate::json::print_json(JsonVal::Num(n))) == Some(JsonVal::Num(n)),
{
    let s = crate::text::dec_chars(n as nat);
    crate::text::lemma_dec_chars_round_trip(n as nat);
    lemma_dec_chars_leading(n as nat);
    assert(crate::json::print_json(JsonVal::Num(n)) == s);
    assert(!is_ws(s[0]));
    assert(spec_skip_ws(s, 0) == 0);
    assert(forall|j: int| 0 <= j < s.len() ==> is_dec_digit(#[trigger] s[j]));
    lemma_scan_digits_full(s, 0);
    assert(s[0] != '-' && s[0] != '{' && s[0] != '[' && s[0] != '"' && s[0] != 't' && s[0] != 'f'
        && s[0] != 'n') by {
        assert(48 <= s[0] as u32 <= 57);
    };
    let e = s.len() as int;
    if s[0] == '0' {
        assert(crate::text::digit_val(s[0]) == 0);
        assert(n < 1 || crate::text::digit_val(s[0]) >= 1);
        assert(n == 0);
        assert(s.len() == 1);
    }
    assert(spec_after_exp(s, e) == Some(e));
    assert(s.subrange(0, e) =~= s);
    assert(spec_parse_number(s, 0) == Some((JsonVal::Num(n), e)));
    assert(spec_parse_value(s, 0, 128) == Some((JsonVal::Num(n), e)));
    assert(spec_skip_ws(s, e) == e);
}


/// A character a string prints as itself: not a quote, not a backslash,
/// not a control character.
pub open spec fn plain_char(c: char) -> bool {
    c != '"' && c != '\\' && c as u32 >= 32
}

/// A string of plain characters prints as itself.
proof fn lemma_print_plain(s: Seq<char>, k: int)
    requires
        0 <= k <= s.len(),
        forall|j: int| 0 <= j < s.len() ==> plain_char(#[trigger] s[j]),
    ensures
        crate::json::print_str_body(s, k) =~= s.subrange(k, s.len() as int),
    decreases s.len() - k,
{
    if k < s.len() {
        lemma_print_plain(s, k + 1);
        assert(crate::json::print_str_char(s[k]) == seq![s[k]]);
    }
}

/// Scanning a quoted run of plain characters yields exactly those
/// characters and stops after the closing quote, wherever the quoted run
/// stands in a larger text.
proof fn lemma_scan_plain(p: Seq<char>, s: Seq<char>, u: Seq<char>, i: int, acc: Seq<char>)
    requires
        u =~= p + seq!['"'] + s + seq!['"'] + u.skip(p.len() + s.len() as int + 2),
        p.len() + 1 <= i <= p.len() + s.len() + 1,
        forall|j: int| 0 <= j < s.len() ==> plain_char(#[trigger] s[j]),
    ensures
        spec_scan_string(u, i, acc) == Some(
            (acc + s.subrange(i - p.len() - 1, s.len() as int), p.len() + s.len() as int + 2),
        ),
    decreases p.len() + s.len() + 1 - i,
{
    let base = p.len() as int;
    if i == base + s.len() + 1 {
        assert(u[i] == '"');
        assert(acc + s.subrange(i - base - 1, s.len() as int) =~= acc);
    } else {
        let c = u[i];
        assert(c == s[i - base - 1]);
        lemma_scan_plain(p, s, u, i + 1, acc.push(c));
        assert(acc.push(c) + s.subrange(i - base, s.len() as int) =~= acc + s.subrange(
            i - base - 1,
            s.len() as int,
        ));
    }
}

/// Law: a string document of plain characters round-trips through the
/// wire text: what the printer emits for it parses back to it.
pub proof fn lemma_str_text_round_trip(s: Seq<char>)
    requires
        forall|j: int| 0 <= j < s.len() ==> plain_char(#[trigger] s[j]),
    ensures
        spec_parse_json(crate::json::print_json(JsonVal::Str(s))) == Some(JsonVal::Str(s)),
{
    let u = crate::json::print_json(JsonVal::Str(s));
    lemma_print_plain(s, 0);
    assert(u =~= seq!['"'] + s + seq!['"']);
    assert(u[0] == '"');
    assert(!is_ws(u[0]));
    assert(spec_skip_ws(u, 0) == 0);
    assert(u =~= Seq::<char>::empty() + seq!['"'] + s + seq!['"'] + u.skip(0 + s.len() as int + 2));
    lemma_scan_plain(Seq::empty(), s, u, 1, Seq::empty());
    assert(Seq::empty() + s.subrange(0, s.len() as int) =~= s);
    assert(spec_parse_string(u, 0) == Some((s, s.len() as int + 2)));
    assert(spec_parse_value(u, 0, 128) == Some((JsonVal::Str(s), s.len() as int + 2)));
    assert(spec_skip_ws(u, s.len() as int + 2) == u.len());
}


/// Whether a character could continue a number literal.
pub open spec fn number_cont(c: char) -> bool {
    is_dec_digit(c) || c == '.' || c == 'e' || c == 'E'
}

/// A run of digits, followed by a non-digit or the end, scans to exactly
/// its own end.
proof fn lemma_scan_digits_ctx(u: Seq<char>, i: int, e: int)
    requires
        0 <= i <= e <= u.len(),
        forall|j: int| i <= j < e ==> is_dec_digit(#[trigger] u[j]),
        e == u.len() || !is_dec_digit(u[e]),
    ensures
        spec_scan_digits(u, i) == e,
    decreases e - i,
{
    if i < e {
        lemma_scan_digits_ctx(u, i + 1, e);
    }
}

/// A printed number parses wherever it stands, as long as what follows
/// could not continue it.
proof fn lemma_num_in_context(p: Seq<char>, n: u64, u: Seq<char>)
    requires
        u =~= p + crate::text::dec_chars(n as nat) + u.skip(
            p.len() + crate::text::dec_chars(n as nat).len() as int,
        ),
        p.len() + crate::text::dec_chars(n as nat).len() == u.len() || !number_cont(
            u[p.len() + crate::text::dec_chars(n as nat).len() as int],
        ),
    ensures
        spec_parse_number(u, p.len() as int) == Some(
            (JsonVal::Num(n), p.len() + crate::text::dec_chars(n as nat).len() as int),
        ),
{
    let s = crate::text::dec_chars(n as nat);
    let start = p.len() as int;
    let e = start + s.len() as int;
    crate::text::lemma_dec_chars_round_trip(n as nat);
    lemma_dec_chars_leading(n as nat);
    assert(forall|j: int| start <= j < e ==> u[j] == s[j - start]);
    assert(forall|j: int| start <= j < e ==> is_dec_digit(#[trigger] u[j]));
    lemma_scan_digits_ctx(u, start, e);
    assert(is_dec_digit(u[start]));
    assert(u[start] != '-') by {
        assert(48 <= u[start] as u32 <= 57);
    };
    if u[start] == '0' {
        assert(s[0] == '0');
        assert(crate::text::digit_val(s[0]) == 0);
        assert(n == 0);
        assert(s.len() == 1);
    }
    assert(e == u.len() || u[e] != '.');
    assert(spec_after_exp(u, e) == Some(e));
    assert(u.subrange(start, e) =~= s);
}

/// A document all of whose leaves print faithfully: no raw number text,
/// every string (and every object key) made of plain characters, and the
/// nesting within the given budget.
pub open spec fn printable(v: JsonVal, depth: nat) -> bool
    decreases v,
{
    depth >= 1 && match v {
        JsonVal::Null => true,
        JsonVal::Bool(_) => true,
        JsonVal::Num(_) => true,
        JsonVal::NumText(_) => false,
        JsonVal::Str(s) => forall|j: int| 0 <= j < s.len() ==> plain_char(#[trigger] s[j]),
        JsonVal::Arr(items) => forall|i: int|
            0 <= i < items.len() ==> printable(#[trigger] items[i], (depth - 1) as nat),
        JsonVal::Obj(ms) => forall|i: int|
            0 <= i < ms.len() ==> member_printable(#[trigger] ms[i], (depth - 1) as nat),
    }
}

/// A member whose key is plain and whose value is printable.
pub open spec fn member_printable(m: (Seq<char>, JsonVal), depth: nat) -> bool
    decreases m,
{
    &&& (forall|j: int| 0 <= j < m.0.len() ==> plain_char(#[trigger] m.0[j]))
    &&& printable(m.1, depth)
}

/// A printable document's text is non-empty and opens with a character
/// that is neither whitespace nor a closing delimiter nor a separator.
proof fn lemma_print_first(v: JsonVal, depth: nat)
    requires
        printable(v, depth),
    ensures
        crate::json::print_json(v).len() >= 1,
        !is_ws(crate::json::print_json(v)[0]),
        crate::json::print_json(v)[0] != ']',
        crate::json::print_json(v)[0] != '}',
        crate::json::print_json(v)[0] != ',',
{
    match v {
        JsonVal::Num(n) => {
            crate::text::lemma_dec_chars_round_trip(n as nat);
            lemma_dec_chars_leading(n as nat);
            assert(48 <= crate::json::print_json(v)[0] as u32 <= 57);
        },
        _ => {},
    }
}

/// The members of a non-empty printable object parse back, wherever they
/// stand: from the first unread key, the parse completes the accumulated
/// members with the remaining ones and stops after the closing brace.
/// One printed member — quoted plain key, colon, printable value —
/// parses at its position: the key scans back, the colon follows, and
/// the value parses up to the separator or closing brace behind it.
#[verifier::rlimit(100)]
#[verifier::spinoff_prover]
proof fn lemma_obj_member_parse(q: Seq<char>, key: Seq<char>, val: JsonVal, u: Seq<char>, depth: nat)
    requires
        depth >= 1,
        forall|j: int| 0 <= j < key.len() ==> plain_char(#[trigger] key[j]),
        printable(val, (depth - 1) as nat),
        u =~= q + crate::json::print_str(key) + seq![':'] + crate::json::print_json(val) + u.skip(
            q.len() + key.len() + 3 + crate::json::print_json(val).len() as int,
        ),
        q.len() + key.len() + 3 + crate::json::print_json(val).len() < u.len(),
        u[q.len() + key.len() as int + 3 + crate::json::print_json(val).len() as int] == ','
            || u[q.len() + key.len() as int + 3 + crate::json::print_json(val).len() as int]
            == '}',
    ensures
        spec_parse_string(u, q.len() as int) == Some((key, q.len() + key.len() as int + 2)),
        u[q.len() + key.len() as int + 2] == ':',
        spec_skip_ws(u, q.len() + key.len() as int + 2) == q.len() + key.len() as int + 2,
        spec_skip_ws(u, q.len() + key.len() as int + 3) == q.len() + key.len() as int + 3,
        spec_parse_value(u, q.len() + key.len() as int + 3, (depth - 1) as nat) == Some(
            (val, q.len() + key.len() as int + 3 + crate::json::print_json(val).len() as int),
        ),
        spec_skip_ws(
            u,
            q.len() + key.len() as int + 3 + crate::json::print_json(val).len() as int,
        ) == q.len() + key.len() as int + 3 + crate::json::print_json(val).len() as int,
    decreases val, 2int, 0int,
{
    let i = q.len() as int;
    let key_end = i + key.len() as int + 2;
    let val_end = key_end + 1 + crate::json::print_json(val).len() as int;
    lemma_print_plain(key, 0);
    assert(crate::json::print_str(key) =~= seq!['"'] + key + seq!['"']);
    lemma_print_first(val, (depth - 1) as nat);
    assert(u =~= q + seq!['"'] + key + seq!['"'] + u.skip(i + key.len() as int + 2));
    lemma_scan_plain(q, key, u, i + 1, Seq::empty());
    assert(Seq::empty() + key.subrange(0, key.len() as int) =~= key);
    assert(u[i] == '"');
    assert(u[key_end] == ':');
    assert(spec_skip_ws(u, key_end) == key_end);
    assert(!is_ws(u[key_end + 1]));
    assert(spec_skip_ws(u, key_end + 1) == key_end + 1);
    let p2 = u.subrange(0, key_end + 1);
    assert(u =~= p2 + crate::json::print_json(val) + u.skip(
        p2.len() + crate::json::print_json(val).len() as int,
    ));
    assert(!number_cont(u[val_end]));
    lemma_value_in_context(p2, val, u, (depth - 1) as nat);
    assert(spec_skip_ws(u, val_end) == val_end);
}

/// The members of a non-empty printable object parse back, wherever they
/// stand: from the first unread key, the parse completes the accumulated
/// members with the remaining ones and stops after the closing brace.
#[verifier::rlimit(100)]
#[verifier::spinoff_prover]
proof fn lemma_obj_members_in_context(
    q: Seq<char>,
    ms: Seq<(Seq<char>, JsonVal)>,
    k: int,
    acc: Seq<(Seq<char>, JsonVal)>,
    u: Seq<char>,
    depth: nat,
)
    requires
        depth >= 1,
        0 <= k < ms.len(),
        forall|i: int| 0 <= i < ms.len() ==> member_printable(#[trigger] ms[i], (depth - 1) as nat),
        u =~= q + crate::json::print_obj_members(ms, k) + seq!['}'] + u.skip(
            q.len() + crate::json::print_obj_members(ms, k).len() as int + 1,
        ),
    ensures
        spec_parse_obj_members(u, q.len() as int, (depth - 1) as nat, acc) == Some(
            (
                JsonVal::Obj(acc + ms.skip(k)),
                q.len() + crate::json::print_obj_members(ms, k).len() as int + 1,
            ),
        ),
    decreases ms, 0int, ms.len() - k,
{
    let key = ms[k].0;
    let val = ms[k].1;
    let i = q.len() as int;
    let key_end = i + key.len() as int + 2;
    let val_end = key_end + 1 + crate::json::print_json(val).len() as int;
    lemma_print_plain(key, 0);
    assert(crate::json::print_str(key).len() == key.len() + 2);
    if k + 1 < ms.len() {
        assert(crate::json::print_obj_members(ms, k) =~= crate::json::print_str(key) + seq![':']
            + crate::json::print_json(val) + seq![','] + crate::json::print_obj_members(
            ms,
            k + 1,
        ));
    } else {
        assert(crate::json::print_obj_members(ms, k) =~= crate::json::print_str(key) + seq![':']
            + crate::json::print_json(val));
    }
    assert(u =~= q + crate::json::print_str(key) + seq![':'] + crate::json::print_json(val)
        + u.skip(val_end));
    assert(u[val_end] == ',' || u[val_end] == '}');
    assert(member_printable(ms[k], (depth - 1) as nat));
    proof_decreases_obj(ms, k);
    lemma_obj_member_parse(q, key, val, u, depth);
    let acc2 = acc.push((key, val));
    assert((key, val) == ms[k]);
    if k + 1 < ms.len() {
        assert(u[val_end] == ',');
        assert(crate::json::print_obj_members(ms, k + 1)[0] == '"');
        assert(u[val_end + 1] == '"');
        assert(spec_skip_ws(u, val_end + 1) == val_end + 1);
        let q2 = u.subrange(0, val_end + 1);
        assert(u =~= q2 + crate::json::print_obj_members(ms, k + 1) + seq!['}'] + u.skip(
            q2.len() + crate::json::print_obj_members(ms, k + 1).len() as int + 1,
        ));
        lemma_obj_members_in_context(q2, ms, k + 1, acc2, u, depth);
        assert(acc2 + ms.skip(k + 1) =~= acc + ms.skip(k));
    } else {
        assert(u[val_end] == '}');
        assert(acc2 + ms.skip(k + 1) =~= acc2);
        assert(acc2 =~= acc + ms.skip(k));
    }
}

/// A member's value stands below the member list in the structural order
/// that recursion descends.
proof fn proof_decreases_obj(ms: Seq<(Seq<char>, JsonVal)>, k: int)
    requires
        0 <= k < ms.len(),
    ensures
        decreases_to!(ms => ms[k].1),
{
    assert(decreases_to!(ms => ms[k]));
    assert(decreases_to!(ms[k] => ms[k].1));
}

/// The items of a non-empty printable array parse back, wherever they
/// stand: from the first unread item, the parse completes the
/// accumulated items with the remaining ones and stops after the closing
/// bracket.
#[verifier::rlimit(100)]
proof fn lemma_arr_items_in_context(
    q: Seq<char>,
    items: Seq<JsonVal>,
    k: int,
    acc: Seq<JsonVal>,
    u: Seq<char>,
    depth: nat,
)
    requires
        depth >= 1,
        0 <= k < items.len(),
        forall|i: int| 0 <= i < items.len() ==> printable(#[trigger] items[i], (depth - 1) as nat),
        u =~= q + crate::json::print_arr_items(items, k) + seq![']'] + u.skip(
            q.len() + crate::json::print_arr_items(items, k).len() as int + 1,
        ),
    ensures
        spec_parse_arr_items(u, q.len() as int, (depth - 1) as nat, acc) == Some(
            (
                JsonVal::Arr(acc + items.skip(k)),
                q.len() + crate::json::print_arr_items(items, k).len() as int + 1,
            ),
        ),
    decreases items, 0int, items.len() - k,
{
    let v = items[k];
    let head = crate::json::print_json(v);
    let i = q.len() as int;
    let val_end = i + head.len() as int;
    lemma_print_first(v, (depth - 1) as nat);
    if k + 1 < items.len() {
        assert(crate::json::print_arr_items(items, k) =~= head + seq![',']
            + crate::json::print_arr_items(items, k + 1));
    } else {
        assert(crate::json::print_arr_items(items, k) =~= head);
    }
    assert(u =~= q + head + u.skip(i + head.len() as int));
    assert(u[val_end] == ',' || u[val_end] == ']');
    lemma_value_in_context(q, v, u, (depth - 1) as nat);
    assert(spec_parse_value(u, i, (depth - 1) as nat) == Some((v, val_end)));
    assert(spec_skip_ws(u, val_end) == val_end);
    let acc2 = acc.push(v);
    if k + 1 < items.len() {
        assert(u[val_end] == ',');
        lemma_print_first(items[k + 1], (depth - 1) as nat);
        assert(u[val_end + 1] == crate::json::print_arr_items(items, k + 1)[0]);
        assert(!is_ws(u[val_end + 1]) && u[val_end + 1] != ']');
        assert(spec_skip_ws(u, val_end + 1) == val_end + 1);
        let q2 = u.subrange(0, val_end + 1);
        assert(u =~= q2 + crate::json::print_arr_items(items, k + 1) + seq![']'] + u.skip(
            q2.len() + crate::json::print_arr_items(items, k + 1).len() as int + 1,
        ));
        lemma_arr_items_in_context(q2, items, k + 1, acc2, u, depth);
        assert(acc2 + items.skip(k + 1) =~= acc + items.skip(k));
    } else {
        assert(u[val_end] == ']');
        assert(acc2 + items.skip(k + 1) =~= acc2);
        assert(acc2 =~= acc + items.skip(k));
    }
}

/// A printable document parses back, wherever it stands, provided what
/// follows could not continue a number literal.
#[verifier::rlimit(100)]
#[verifier::spinoff_prover]
proof fn lemma_value_in_context(p: Seq<char>, v: JsonVal, u: Seq<char>, depth: nat)
    requires
        printable(v, depth),
        u =~= p + crate::json::print_json(v) + u.skip(
            p.len() + crate::json::print_json(v).len() as int,
        ),
        (v is Num ==> (p.len() + crate::json::print_json(v).len() == u.len() || !number_cont(
            u[p.len() + crate::json::print_json(v).len() as int],
        ))),
    ensures
        spec_parse_value(u, p.len() as int, depth) == Some(
            (v, p.len() + crate::json::print_json(v).len() as int),
        ),
    decreases v, 1int, 0int,
{
    let i = p.len() as int;
    let w = crate::json::print_json(v);
    let e = i + w.len() as int;
    assert(forall|j: int| i <= j < e ==> u[j] == w[j - i]);
    match v {
        JsonVal::Null => {
            assert(u[i] == 'n' && u[i + 1] == 'u' && u[i + 2] == 'l' && u[i + 3] == 'l');
        },
        JsonVal::Bool(b) => {
            if b {
                assert(u[i] == 't' && u[i + 1] == 'r' && u[i + 2] == 'u' && u[i + 3] == 'e');
            } else {
                assert(u[i] == 'f' && u[i + 1] == 'a' && u[i + 2] == 'l' && u[i + 3] == 's' && u[i
                    + 4] == 'e');
            }
        },
        JsonVal::Num(n) => {
            crate::text::lemma_dec_chars_round_trip(n as nat);
            lemma_dec_chars_leading(n as nat);
            assert(48 <= u[i] as u32 <= 57);
            assert(u =~= p + crate::text::dec_chars(n as nat) + u.skip(
                p.len() + crate::text::dec_chars(n as nat).len() as int,
            ));
            lemma_num_in_context(p, n, u);
        },
        JsonVal::NumText(_) => {
            assert(false);
        },
        JsonVal::Str(s) => {
            lemma_print_plain(s, 0);
            assert(w =~= seq!['"'] + s + seq!['"']);
            assert(u[i] == '"');
            assert(u =~= p + seq!['"'] + s + seq!['"'] + u.skip(p.len() + s.len() as int + 2));
            lemma_scan_plain(p, s, u, i + 1, Seq::empty());
            assert(Seq::empty() + s.subrange(0, s.len() as int) =~= s);
        },
        JsonVal::Arr(items) => {
            assert(u[i] == '[');
            assert(u[e - 1] == ']');
            if items.len() == 0 {
                assert(crate::json::print_arr_items(items, 0) =~= Seq::<char>::empty());
                assert(w.len() == 2);
                assert(u[i + 1] == ']');
                assert(spec_skip_ws(u, i + 1) == i + 1);
                assert(items =~= Seq::<JsonVal>::empty());
                assert(JsonVal::Arr(Seq::empty()) == v);
            } else {
                lemma_print_first(items[0], (depth - 1) as nat);
                assert(u[i + 1] == crate::json::print_arr_items(items, 0)[0]);
                assert(!is_ws(u[i + 1]) && u[i + 1] != ']');
                assert(spec_skip_ws(u, i + 1) == i + 1);
                let q = u.subrange(0, i + 1);
                assert(u =~= q + crate::json::print_arr_items(items, 0) + seq![']'] + u.skip(
                    q.len() + crate::json::print_arr_items(items, 0).len() as int + 1,
                ));
                lemma_arr_items_in_context(q, items, 0, Seq::empty(), u, depth);
                assert(Seq::empty() + items.skip(0) =~= items);
            }
        },
        JsonVal::Obj(ms) => {
            assert(u[i] == '{');
            assert(u[e - 1] == '}');
            if ms.len() == 0 {
                assert(crate::json::print_obj_members(ms, 0) =~= Seq::<char>::empty());
                assert(w.len() == 2);
                assert(u[i + 1] == '}');
                assert(spec_skip_ws(u, i + 1) == i + 1);
                assert(ms =~= Seq::<(Seq<char>, JsonVal)>::empty());
                assert(JsonVal::Obj(Seq::empty()) == v);
            } else {
                assert(crate::json::print_obj_members(ms, 0)[0] == '"');
                assert(u[i + 1] == '"');
                assert(spec_skip_ws(u, i + 1) == i + 1);
                let q = u.subrange(0, i + 1);
                assert(u =~= q + crate::json::print_obj_members(ms, 0) + seq!['}'] + u.skip(
                    q.len() + crate::json::print_obj_members(ms, 0).len() as int + 1,
                ));
                lemma_obj_members_in_context(q, ms, 0, Seq::empty(), u, depth);
                assert(Seq::empty() + ms.skip(0) =~= ms);
            }
        },
    }
}

/// Law: printable documents round-trip through their wire text.  For any
/// document without raw number text, with plain strings and keys, and
/// nested within the parser's budget, parsing what the printer emits
/// yields the document back.  Every frame this library sends whose token
/// and text fields are plain is such a document.
pub proof fn lemma_document_round_trip(v: JsonVal)
    requires
        printable(v, 128),
    ensures
        spec_parse_json(crate::json::print_json(v)) == Some(v),
{
    let u = crate::json::print_json(v);
    lemma_print_first(v, 128);
    assert(spec_skip_ws(u, 0) == 0);
    assert(u =~= Seq::<char>::empty() + u + u.skip(0 + u.len() as int));
    lemma_value_in_context(Seq::empty(), v, u, 128);
    assert(spec_skip_ws(u, u.len() as int) == u.len());
}


} // verus!
