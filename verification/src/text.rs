//! Plain-text helpers: decimal rendering and parsing of 64-bit integers and
//! ASCII-case-insensitive comparison, each tied to a spec-level definition.

use vstd::prelude::*;

verus! {

/// The character for a single decimal digit value.
pub open spec fn char_of_digit(d: int) -> char
    recommends
        0 <= d < 10,
{
    (('0' as u8) + d as u8) as char
}

/// Canonical decimal rendering of a natural number (no leading zeros; zero
/// itself is rendered "0").
pub open spec fn dec_chars(n: nat) -> Seq<char>
    decreases n,
{
    if n < 10 {
        seq![char_of_digit(n as int)]
    } else {
        dec_chars(n / 10).push(char_of_digit((n % 10) as int))
    }
}

/// Whether `c` is an ASCII decimal digit.
pub open spec fn is_dec_digit(c: char) -> bool {
    48 <= c as u32 <= 57
}

/// The numeric value of a digit character.
pub open spec fn digit_val(c: char) -> int {
    c as u32 - 48
}

/// Whether every character of `s` is an ASCII decimal digit.
pub open spec fn all_dec_digits(s: Seq<char>) -> bool {
    forall|i: int| 0 <= i < s.len() ==> is_dec_digit(#[trigger] s[i])
}

/// The value of a digit string, read most-significant first.
pub open spec fn dec_val(s: Seq<char>) -> int
    decreases s.len(),
{
    if s.len() == 0 {
        0
    } else {
        dec_val(s.drop_last()) * 10 + digit_val(s.last())
    }
}

/// Renders `n` in decimal.
pub fn u64_to_dec_chars(n: u64) -> (v: Vec<char>)
    ensures
        v@ == dec_chars(n as nat),
    decreases n,
{
    if n < 10 {
        let c: char = ((48u8 + (n as u8)) as char);
        let mut v: Vec<char> = Vec::new();
        v.push(c);
        assert(v@ =~= dec_chars(n as nat));
        v
    } else {
        let mut v = u64_to_dec_chars(n / 10);
        let c: char = ((48u8 + ((n % 10) as u8)) as char);
        v.push(c);
        assert(v@ =~= dec_chars(n as nat));
        v
    }
}

/// Parses the digit characters of `v` in the range `[from, to)` as a decimal
/// number; `None` when the range is empty, holds a non-digit, or the value
/// does not fit in a `u64`.
pub fn parse_u64_range(v: &Vec<char>, from: usize, to: usize) -> (r: Option<u64>)
    requires
        from <= to <= v@.len(),
    ensures
        r matches Some(n) ==> {
            &&& to > from
            &&& all_dec_digits(v@.subrange(from as int, to as int))
            &&& n == dec_val(v@.subrange(from as int, to as int))
        },
        r is None ==> (to == from || !all_dec_digits(v@.subrange(from as int, to as int))
            || dec_val(v@.subrange(from as int, to as int)) > u64::MAX),
{
    if from == to {
        return None;
    }
    let mut acc: u64 = 0;
    let mut i: usize = from;
    while i < to
        invariant
            from <= i <= to <= v@.len(),
            all_dec_digits(v@.subrange(from as int, i as int)),
            acc == dec_val(v@.subrange(from as int, i as int)),
        decreases to - i,
    {
        let c = v[i];
        let u = c as u32;
        if !(48 <= u && u <= 57) {
            proof {
                assert(v@.subrange(from as int, to as int)[i - from] == v@[i as int]);
            }
            return None;
        }
        let d = (u - 48) as u64;
        if acc > (u64::MAX - d) / 10 {
            proof {
                let whole = v@.subrange(from as int, to as int);
                assert(whole.subrange(0, i - from) =~= v@.subrange(from as int, i as int));
                assert(whole[i - from] == v@[i as int]);
                assert(acc * 10 + d > u64::MAX) by (nonlinear_arith)
                    requires
                        acc > (u64::MAX - d) / 10,
                        d <= 9,
                ;
                lemma_dec_val_prefix_overflow(whole, i - from);
            }
            return None;
        }
        let ghost pre = v@.subrange(from as int, i as int);
        acc = acc * 10 + d;
        i = i + 1;
        proof {
            let cur = v@.subrange(from as int, i as int);
            assert(cur.drop_last() =~= pre);
            assert(cur.last() == v@[i - 1]);
        }
    }
    proof {
        assert(v@.subrange(from as int, i as int) =~= v@.subrange(from as int, to as int));
    }
    Some(acc)
}

/// If a proper prefix of a string already exceeds what fits after one more
/// character is folded in, the whole string's value exceeds `u64::MAX`: each
/// step multiplies by ten and adds at least `-48`.
proof fn lemma_dec_val_prefix_overflow(s: Seq<char>, k: int)
    requires
        0 <= k < s.len(),
        dec_val(s.subrange(0, k)) * 10 + digit_val(s[k]) > u64::MAX,
    ensures
        dec_val(s) > u64::MAX,
    decreases s.len() - k,
{
    let t = s.subrange(0, k + 1);
    assert(t.drop_last() =~= s.subrange(0, k));
    assert(t.last() == s[k]);
    assert(dec_val(t) == dec_val(s.subrange(0, k)) * 10 + digit_val(s[k]));
    if k == s.len() - 1 {
        assert(t =~= s);
    } else {
        assert(digit_val(s[k + 1]) >= -48);
        assert(dec_val(t) * 10 + digit_val(s[k + 1]) > u64::MAX) by (nonlinear_arith)
            requires
                dec_val(t) > u64::MAX,
                digit_val(s[k + 1]) >= -48,
        ;
        lemma_dec_val_prefix_overflow(s, k + 1);
    }
}

/// The canonical decimal rendering is made of digits and parses back to the
/// number it renders.
pub proof fn lemma_dec_chars_round_trip(n: nat)
    ensures
        all_dec_digits(dec_chars(n)),
        dec_val(dec_chars(n)) == n,
        dec_chars(n).len() >= 1,
    decreases n,
{
    if n < 10 {
        assert(dec_chars(n) == seq![char_of_digit(n as int)]);
        assert(dec_val(dec_chars(n).drop_last()) == 0) by {
            assert(dec_chars(n).drop_last() =~= Seq::<char>::empty());
        };
    } else {
        lemma_dec_chars_round_trip(n / 10);
        let s = dec_chars(n);
        assert(s.drop_last() =~= dec_chars(n / 10));
        assert(dec_val(s) == (n / 10) * 10 + n % 10);
        assert((n / 10) * 10 + n % 10 == n) by (nonlinear_arith);
    }
}

/// The characters of `s`, in order.
pub fn chars_of(s: &str) -> (v: Vec<char>)
    ensures
        v@ == s@,
{
    let n = s.unicode_len();
    let mut v: Vec<char> = Vec::new();
    let mut i: usize = 0;
    while i < n
        invariant
            i <= n,
            n == s@.len(),
            v@ == s@.subrange(0, i as int),
        decreases n - i,
    {
        v.push(s.get_char(i));
        i = i + 1;
        proof {
            assert(v@ =~= s@.subrange(0, i as int));
        }
    }
    proof {
        assert(v@ =~= s@);
    }
    v
}

/// Relies on `Iterator::collect` for `String`, which concatenates the
/// characters of the iterator in order.
#[verifier::external_body]
pub fn string_from_chars(v: &Vec<char>) -> (s: String)
    ensures
        s@ == v@,
{
    v.iter().collect()
}

/// Renders `n` in decimal as a `String`.
pub fn u64_to_dec(n: u64) -> (s: String)
    ensures
        s@ == dec_chars(n as nat),
{
    let v = u64_to_dec_chars(n);
    string_from_chars(&v)
}

/// Parses a whole string as a decimal `u64`.
pub fn parse_u64_dec(s: &str) -> (r: Option<u64>)
    ensures
        r matches Some(n) ==> {
            &&& s@.len() > 0
            &&& all_dec_digits(s@)
            &&& n == dec_val(s@)
        },
        r is None ==> (s@.len() == 0 || !all_dec_digits(s@) || dec_val(s@) > u64::MAX),
{
    let v = chars_of(s);
    let n = v.len();
    let r = parse_u64_range(&v, 0, n);
    proof {
        assert(v@.subrange(0, n as int) =~= s@);
    }
    r
}

/// The value of a text that is wholly decimal digits and fits in a
/// `u64`; `None` otherwise.
pub open spec fn spec_dec_u64(s: Seq<char>) -> Option<u64> {
    if s.len() > 0 && all_dec_digits(s) && dec_val(s) <= u64::MAX {
        Some(dec_val(s) as u64)
    } else {
        None
    }
}

/// Compares two strings for exact equality of their characters.
pub fn str_eq(a: &str, b: &str) -> (r: bool)
    ensures
        r == (a@ == b@),
{
    let va = chars_of(a);
    let vb = chars_of(b);
    if va.len() != vb.len() {
        proof {
            assert(a@ != b@);
        }
        return false;
    }
    let n = va.len();
    let mut i: usize = 0;
    while i < n
        invariant
            i <= n,
            n == va@.len() == vb@.len(),
            va@ == a@,
            vb@ == b@,
            forall|j: int| 0 <= j < i ==> a@[j] == b@[j],
        decreases n - i,
    {
        if va[i] != vb[i] {
            return false;
        }
        i = i + 1;
    }
    proof {
        assert(a@ =~= b@);
    }
    true
}

/// ASCII lowering of a single character, by code point: the upper-case ASCII
/// letters move down to their lower-case forms, all else is unchanged.
pub open spec fn lower_code(u: u32) -> u32 {
    if 65 <= u <= 90 {
        (u + 32) as u32
    } else {
        u
    }
}

/// Character sequences equal up to ASCII case.
pub open spec fn eq_ignore_case(a: Seq<char>, b: Seq<char>) -> bool {
    &&& a.len() == b.len()
    &&& forall|i: int|
        0 <= i < a.len() ==> lower_code(#[trigger] a[i] as u32) == lower_code(b[i] as u32)
}

/// Compares two strings, ignoring ASCII case.
pub fn str_eq_ignore_case(a: &str, b: &str) -> (r: bool)
    ensures
        r == eq_ignore_case(a@, b@),
{
    let va = chars_of(a);
    let vb = chars_of(b);
    if va.len() != vb.len() {
        return false;
    }
    let n = va.len();
    let mut i: usize = 0;
    while i < n
        invariant
            i <= n,
            n == va@.len() == vb@.len(),
            va@ == a@,
            vb@ == b@,
            forall|j: int|
                0 <= j < i ==> lower_code(#[trigger] a@[j] as u32) == lower_code(b@[j] as u32),
        decreases n - i,
    {
        let ua = va[i] as u32;
        let ub = vb[i] as u32;
        let la = if 65 <= ua && ua <= 90 {
            ua + 32
        } else {
            ua
        };
        let lb = if 65 <= ub && ub <= 90 {
            ub + 32
        } else {
            ub
        };
        if la != lb {
            return false;
        }
        i = i + 1;
    }
    true
}

} // verus!
