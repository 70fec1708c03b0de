//! A strict JSON value model and parser.
//!
//! The streaming protocol's frames and error bodies are JSON objects. This
//! module defines the value tree the library works on and a parser for it,
//! specified against the grammar written out by the `parse_*` specification
//! functions below: standard JSON with the four whitespace characters,
//! `null` / `true` / `false`, strings with the usual escapes including
//! `\uXXXX` and surrogate pairs, numbers, arrays and objects.
//!
//! Numbers are kept only as far as the protocol needs them: a plain
//! non-negative integer that fits in a `u64` keeps its value; every other
//! well-formed number (negative, fractional, exponential or oversized) is
//! recognized but carried as [`JsonNum::Other`], since the protocol's
//! schema reads only small non-negative integers.

use vstd::prelude::*;

use crate::text::{char_from_u32, chars_of, string_from_chars};

verus! {

/// A JSON number, as far as the protocol distinguishes them.
#[derive(Clone, Copy, Debug, PartialEq, Eq, Structural)]
pub enum JsonNum {
    /// A plain non-negative integer that fits in a `u64`.
    Int(u64),
    /// Any other well-formed JSON number; its value is not retained.
    Other,
}

/// A parsed JSON value.
#[derive(Debug, PartialEq, Eq)]
pub enum Json {
    Null,
    Bool(bool),
    Num(JsonNum),
    Str(String),
    Arr(Vec<Json>),
    Obj(Vec<(String, Json)>),
}

/// The mathematical model of a parsed JSON value.
pub ghost enum JsonV {
    Null,
    Bool(bool),
    Num(JsonNum),
    Str(Seq<char>),
    Arr(Seq<JsonV>),
    Obj(Seq<(Seq<char>, JsonV)>),
}

impl Json {
    /// The mathematical model of this value.
    pub open spec fn dv(self) -> JsonV
        decreases self,
    {
        match self {
            Json::Null => JsonV::Null,
            Json::Bool(b) => JsonV::Bool(b),
            Json::Num(n) => JsonV::Num(n),
            Json::Str(s) => JsonV::Str(s@),
            Json::Arr(items) => JsonV::Arr(dv_seq(items@)),
            Json::Obj(members) => JsonV::Obj(dv_members(members@)),
        }
    }
}

/// The models of a sequence of values, in order.
pub open spec fn dv_seq(items: Seq<Json>) -> Seq<JsonV>
    decreases items,
{
    if items.len() == 0 {
        Seq::empty()
    } else {
        seq![items[0].dv()] + dv_seq(items.drop_first())
    }
}

/// The models of a sequence of object members, in order.
pub open spec fn dv_members(members: Seq<(String, Json)>) -> Seq<(Seq<char>, JsonV)>
    decreases members,
{
    if members.len() == 0 {
        Seq::empty()
    } else {
        seq![(members[0].0@, members[0].1.dv())] + dv_members(members.drop_first())
    }
}

/// Unfolding [`dv_seq`] over a prepended element.
pub proof fn lemma_dv_seq_cons(v: Json, rest: Seq<Json>)
    ensures
        dv_seq(seq![v] + rest) == seq![v.dv()] + dv_seq(rest),
{
    let s = seq![v] + rest;
    assert(s.len() > 0);
    assert(s[0] == v);
    assert(s.drop_first() =~= rest);
}

/// Unfolding [`dv_members`] over a prepended member.
pub proof fn lemma_dv_members_cons(m: (String, Json), rest: Seq<(String, Json)>)
    ensures
        dv_members(seq![m] + rest) == seq![(m.0@, m.1.dv())] + dv_members(rest),
{
    let s = seq![m] + rest;
    assert(s.len() > 0);
    assert(s[0] == m);
    assert(s.drop_first() =~= rest);
}

/// [`dv_seq`] maps index-wise and keeps the length.
pub proof fn lemma_dv_seq_index(items: Seq<Json>, i: int)
    requires
        0 <= i < items.len(),
    ensures
        dv_seq(items).len() == items.len(),
        dv_seq(items)[i] == items[i].dv(),
    decreases items.len(),
{
    lemma_dv_seq_len(items);
    if i > 0 {
        lemma_dv_seq_index(items.drop_first(), i - 1);
    } else {
        lemma_dv_seq_len(items.drop_first());
    }
}

/// [`dv_seq`] keeps the length.
pub proof fn lemma_dv_seq_len(items: Seq<Json>)
    ensures
        dv_seq(items).len() == items.len(),
    decreases items.len(),
{
    if items.len() > 0 {
        lemma_dv_seq_len(items.drop_first());
    }
}

/// [`dv_members`] maps index-wise and keeps the length.
pub proof fn lemma_dv_members_index(members: Seq<(String, Json)>, i: int)
    requires
        0 <= i < members.len(),
    ensures
        dv_members(members).len() == members.len(),
        dv_members(members)[i] == (members[i].0@, members[i].1.dv()),
    decreases members.len(),
{
    lemma_dv_members_len(members);
    if i > 0 {
        lemma_dv_members_index(members.drop_first(), i - 1);
    }
}

/// [`dv_members`] keeps the length.
pub proof fn lemma_dv_members_len(members: Seq<(String, Json)>)
    ensures
        dv_members(members).len() == members.len(),
    decreases members.len(),
{
    if members.len() > 0 {
        lemma_dv_members_len(members.drop_first());
    }
}

/// JSON whitespace.
pub open spec fn is_ws(c: char) -> bool {
    c == ' ' || c == '\n' || c == '\r' || c == '\t'
}

/// A decimal digit.
pub open spec fn is_digit(c: char) -> bool {
    '0' as int <= c as int <= '9' as int
}

/// The first position at or after `i` holding a non-whitespace character,
/// or the end of the input.
pub open spec fn skip_ws(s: Seq<char>, i: int) -> int
    decreases s.len() - i when 0 <= i <= s.len()
{
    if i < s.len() && is_ws(s[i]) {
        skip_ws(s, i + 1)
    } else {
        i
    }
}

/// The value of one hexadecimal digit.
pub open spec fn hex_val(c: char) -> Option<int> {
    if '0' as int <= c as int <= '9' as int {
        Some(c as int - '0' as int)
    } else if 'a' as int <= c as int <= 'f' as int {
        Some(10 + c as int - 'a' as int)
    } else if 'A' as int <= c as int <= 'F' as int {
        Some(10 + c as int - 'A' as int)
    } else {
        None
    }
}

/// The value of the four hexadecimal digits at `i`, when they are there.
pub open spec fn hex4(s: Seq<char>, i: int) -> Option<int> {
    if i + 4 <= s.len() && hex_val(s[i]) is Some && hex_val(s[i + 1]) is Some && hex_val(
        s[i + 2],
    ) is Some && hex_val(s[i + 3]) is Some {
        Some(
            hex_val(s[i]).unwrap() * 4096 + hex_val(s[i + 1]).unwrap() * 256 + hex_val(
                s[i + 2],
            ).unwrap() * 16 + hex_val(s[i + 3]).unwrap(),
        )
    } else {
        None
    }
}

/// The character a simple (single-letter) escape stands for.
pub open spec fn simple_escape(c: char) -> Option<char> {
    if c == '"' {
        Some('"')
    } else if c == '\\' {
        Some('\\')
    } else if c == '/' {
        Some('/')
    } else if c == 'b' {
        Some('\u{0008}')
    } else if c == 'f' {
        Some('\u{000C}')
    } else if c == 'n' {
        Some('\n')
    } else if c == 'r' {
        Some('\r')
    } else if c == 't' {
        Some('\t')
    } else {
        None
    }
}

/// Parses the body of a string literal starting after its opening quote:
/// the decoded characters and the position after the closing quote.
/// Control characters must be escaped; `\uXXXX` escapes denote scalar
/// values directly, or an astral character through a surrogate pair; lone
/// surrogates are rejected.
pub open spec fn parse_string_rest(s: Seq<char>, i: int) -> Option<(Seq<char>, int)>
    decreases s.len() - i when 0 <= i <= s.len()
{
    if i >= s.len() {
        None
    } else if s[i] == '"' {
        Some((Seq::empty(), i + 1))
    } else if s[i] == '\\' {
        if i + 1 >= s.len() {
            None
        } else if s[i + 1] == 'u' {
            match hex4(s, i + 2) {
                None => None,
                Some(code) => {
                    if 0xD800 <= code < 0xDC00 {
                        if i + 12 <= s.len() && s[i + 6] == '\\' && s[i + 7] == 'u' {
                            match hex4(s, i + 8) {
                                None => None,
                                Some(lo) => {
                                    if 0xDC00 <= lo < 0xE000 {
                                        let c = ((0x10000 + (code - 0xD800) * 0x400 + (lo - 0xDC00))
                                            as u32) as char;
                                        match parse_string_rest(s, i + 12) {
                                            None => None,
                                            Some((rest, j)) => Some((seq![c] + rest, j)),
                                        }
                                    } else {
                                        None
                                    }
                                },
                            }
                        } else {
                            None
                        }
                    } else if 0xDC00 <= code < 0xE000 {
                        None
                    } else {
                        let c = (code as u32) as char;
                        match parse_string_rest(s, i + 6) {
                            None => None,
                            Some((rest, j)) => Some((seq![c] + rest, j)),
                        }
                    }
                },
            }
        } else {
            match simple_escape(s[i + 1]) {
                None => None,
                Some(c) => match parse_string_rest(s, i + 2) {
                    None => None,
                    Some((rest, j)) => Some((seq![c] + rest, j)),
                },
            }
        }
    } else if (s[i] as u32) < 0x20 {
        None
    } else {
        match parse_string_rest(s, i + 1) {
            None => None,
            Some((rest, j)) => Some((seq![s[i]] + rest, j)),
        }
    }
}

/// The end of the run of decimal digits starting at `i`.
pub open spec fn digit_run_end(s: Seq<char>, i: int) -> int
    decreases s.len() - i when 0 <= i <= s.len()
{
    if i < s.len() && is_digit(s[i]) {
        digit_run_end(s, i + 1)
    } else {
        i
    }
}

pub proof fn lemma_digit_run(s: Seq<char>, i: int)
    requires
        0 <= i <= s.len(),
    ensures
        i <= digit_run_end(s, i) <= s.len(),
        forall|k: int| i <= k < digit_run_end(s, i) ==> is_digit(#[trigger] s[k]),
        digit_run_end(s, i) < s.len() ==> !is_digit(s[digit_run_end(s, i)]),
    decreases s.len() - i,
{
    if i < s.len() && is_digit(s[i]) {
        lemma_digit_run(s, i + 1);
    }
}

/// The value of the decimal digits `s[i..j]`.
pub open spec fn digits_val(s: Seq<char>, i: int, j: int) -> int
    decreases j - i when i <= j
{
    if i >= j {
        0
    } else {
        digits_val(s, i, j - 1) * 10 + (s[j - 1] as int - '0' as int)
    }
}

pub proof fn lemma_digits_val_bounds(s: Seq<char>, i: int, j: int)
    requires
        0 <= i <= j <= s.len(),
        forall|k: int| i <= k < j ==> is_digit(#[trigger] s[k]),
    ensures
        0 <= digits_val(s, i, j),
    decreases j - i,
{
    if i < j {
        lemma_digits_val_bounds(s, i, j - 1);
        assert(digits_val(s, i, j - 1) * 10 >= 0) by (nonlinear_arith)
            requires
                digits_val(s, i, j - 1) >= 0,
        ;
    }
}

/// The position after a well-formed fraction part at `j`, or `j` itself
/// when none starts there; `None` for a dot without digits.
pub open spec fn after_frac(s: Seq<char>, j: int) -> Option<int> {
    if j < s.len() && s[j] == '.' {
        if j + 1 < s.len() && is_digit(s[j + 1]) {
            Some(digit_run_end(s, j + 1))
        } else {
            None
        }
    } else {
        Some(j)
    }
}

/// The position after a well-formed exponent part at `j`, or `j` itself
/// when none starts there; `None` for an exponent marker without digits.
pub open spec fn after_exp(s: Seq<char>, j: int) -> Option<int> {
    if j < s.len() && (s[j] == 'e' || s[j] == 'E') {
        let k = if j + 1 < s.len() && (s[j + 1] == '+' || s[j + 1] == '-') {
            j + 2
        } else {
            j + 1
        };
        if k < s.len() && is_digit(s[k]) {
            Some(digit_run_end(s, k))
        } else {
            None
        }
    } else {
        Some(j)
    }
}

/// Parses the number starting at `i` (a `-` or a digit): its [`JsonNum`]
/// and the position after it. The integer part must be `0` or start with a
/// non-zero digit; only a plain non-negative integer within `u64` keeps
/// its value.
pub open spec fn parse_number(s: Seq<char>, i: int) -> Option<(JsonNum, int)> {
    let start = if i < s.len() && s[i] == '-' {
        i + 1
    } else {
        i
    };
    if start >= s.len() || !is_digit(s[start]) {
        None
    } else {
        let int_end = digit_run_end(s, start);
        if s[start] == '0' && int_end != start + 1 {
            None
        } else {
            match after_frac(s, int_end) {
                None => None,
                Some(fe) => match after_exp(s, fe) {
                    None => None,
                    Some(end) => {
                        if start == i && fe == int_end && end == fe && digits_val(s, start, int_end)
                            <= u64::MAX {
                            Some((JsonNum::Int(digits_val(s, start, int_end) as u64), end))
                        } else {
                            Some((JsonNum::Other, end))
                        }
                    },
                },
            }
        }
    }
}

/// Parses the value starting at `i`, which must not be inside whitespace:
/// the value's model and the position just after it. The fuel bounds the
/// recursion into containers; the top-level entry supplies the input
/// length, which covers every nesting the input can spell.
pub open spec fn parse_value(s: Seq<char>, i: int, fuel: nat) -> Option<(JsonV, int)>
    decreases fuel, 0nat,
{
    if fuel == 0 {
        None
    } else if i < 0 || i >= s.len() {
        None
    } else if s[i] == 'n' {
        if i + 4 <= s.len() && s[i + 1] == 'u' && s[i + 2] == 'l' && s[i + 3] == 'l' {
            Some((JsonV::Null, i + 4))
        } else {
            None
        }
    } else if s[i] == 't' {
        if i + 4 <= s.len() && s[i + 1] == 'r' && s[i + 2] == 'u' && s[i + 3] == 'e' {
            Some((JsonV::Bool(true), i + 4))
        } else {
            None
        }
    } else if s[i] == 'f' {
        if i + 5 <= s.len() && s[i + 1] == 'a' && s[i + 2] == 'l' && s[i + 3] == 's' && s[i + 4]
            == 'e' {
            Some((JsonV::Bool(false), i + 5))
        } else {
            None
        }
    } else if s[i] == '"' {
        match parse_string_rest(s, i + 1) {
            None => None,
            Some((cs, j)) => Some((JsonV::Str(cs), j)),
        }
    } else if s[i] == '-' || is_digit(s[i]) {
        match parse_number(s, i) {
            None => None,
            Some((n, j)) => Some((JsonV::Num(n), j)),
        }
    } else if s[i] == '[' {
        let j = skip_ws(s, i + 1);
        if j < s.len() && s[j] == ']' {
            Some((JsonV::Arr(Seq::empty()), j + 1))
        } else {
            match parse_elems(s, j, (fuel - 1) as nat) {
                None => None,
                Some((items, k)) => Some((JsonV::Arr(items), k)),
            }
        }
    } else if s[i] == '{' {
        let j = skip_ws(s, i + 1);
        if j < s.len() && s[j] == '}' {
            Some((JsonV::Obj(Seq::empty()), j + 1))
        } else {
            match parse_membs(s, j, (fuel - 1) as nat) {
                None => None,
                Some((members, k)) => Some((JsonV::Obj(members), k)),
            }
        }
    } else {
        None
    }
}

/// Parses the non-empty element list of an array, starting at the first
/// element: the element models and the position after the closing bracket.
pub open spec fn parse_elems(s: Seq<char>, i: int, fuel: nat) -> Option<(Seq<JsonV>, int)>
    decreases fuel, 1nat,
{
    if fuel == 0 {
        None
    } else {
        match parse_value(s, i, fuel) {
            None => None,
            Some((v, j)) => {
                let k = skip_ws(s, j);
                if k < s.len() && s[k] == ',' {
                    match parse_elems(s, skip_ws(s, k + 1), (fuel - 1) as nat) {
                        None => None,
                        Some((rest, end)) => Some((seq![v] + rest, end)),
                    }
                } else if k < s.len() && s[k] == ']' {
                    Some((seq![v], k + 1))
                } else {
                    None
                }
            },
        }
    }
}

/// Parses the non-empty member list of an object, starting at the first
/// key: the member models in order and the position after the closing
/// brace.
pub open spec fn parse_membs(s: Seq<char>, i: int, fuel: nat) -> Option<
    (Seq<(Seq<char>, JsonV)>, int),
>
    decreases fuel, 1nat,
{
    if fuel == 0 {
        None
    } else if i < 0 || i >= s.len() || s[i] != '"' {
        None
    } else {
        match parse_string_rest(s, i + 1) {
            None => None,
            Some((key, j)) => {
                let k = skip_ws(s, j);
                if k < s.len() && s[k] == ':' {
                    match parse_value(s, skip_ws(s, k + 1), fuel) {
                        None => None,
                        Some((v, m)) => {
                            let p = skip_ws(s, m);
                            if p < s.len() && s[p] == ',' {
                                match parse_membs(s, skip_ws(s, p + 1), (fuel - 1) as nat) {
                                    None => None,
                                    Some((rest, end)) => Some((seq![(key, v)] + rest, end)),
                                }
                            } else if p < s.len() && s[p] == '}' {
                                Some((seq![(key, v)], p + 1))
                            } else {
                                None
                            }
                        },
                    }
                } else {
                    None
                }
            },
        }
    }
}

/// Parses a complete JSON document: one value, possibly surrounded by
/// whitespace, spanning the whole input.
pub open spec fn spec_parse_json(s: Seq<char>) -> Option<JsonV> {
    match parse_value(s, skip_ws(s, 0), s.len() as nat) {
        None => None,
        Some((v, j)) => if 0 <= j <= s.len() && skip_ws(s, j) == s.len() {
            Some(v)
        } else {
            None
        },
    }
}

fn is_ws_exec(c: char) -> (r: bool)
    ensures
        r == is_ws(c),
{
    c == ' ' || c == '\n' || c == '\r' || c == '\t'
}

fn is_digit_exec(c: char) -> (r: bool)
    ensures
        r == is_digit(c),
{
    c as u32 >= 48 && c as u32 <= 57
}

fn exec_skip_ws(s: &Vec<char>, i: usize) -> (r: usize)
    requires
        i <= s@.len(),
    ensures
        r == skip_ws(s@, i as int),
        i <= r <= s@.len(),
{
    let mut k = i;
    while k < s.len() && is_ws_exec(s[k])
        invariant
            i <= k <= s@.len(),
            skip_ws(s@, i as int) == skip_ws(s@, k as int),
        decreases s@.len() - k,
    {
        k += 1;
    }
    k
}

fn exec_digit_run_end(s: &Vec<char>, i: usize) -> (r: usize)
    requires
        i <= s@.len(),
    ensures
        r == digit_run_end(s@, i as int),
        i <= r <= s@.len(),
{
    let mut k = i;
    while k < s.len() && is_digit_exec(s[k])
        invariant
            i <= k <= s@.len(),
            digit_run_end(s@, i as int) == digit_run_end(s@, k as int),
        decreases s@.len() - k,
    {
        k += 1;
    }
    k
}

fn exec_hex_val(c: char) -> (r: Option<u32>)
    ensures
        match r {
            Some(v) => hex_val(c) == Some(v as int) && v < 16,
            None => hex_val(c) is None,
        },
{
    let u = c as u32;
    if u >= 48 && u <= 57 {
        Some(u - 48)
    } else if u >= 97 && u <= 102 {
        Some(10 + (u - 97))
    } else if u >= 65 && u <= 70 {
        Some(10 + (u - 65))
    } else {
        None
    }
}

fn exec_hex4(s: &Vec<char>, i: usize) -> (r: Option<u32>)
    requires
        i <= s@.len(),
    ensures
        match r {
            Some(v) => hex4(s@, i as int) == Some(v as int) && v < 0x10000,
            None => hex4(s@, i as int) is None,
        },
{
    if s.len() - i >= 4 {
        match (exec_hex_val(s[i]), exec_hex_val(s[i + 1]), exec_hex_val(s[i + 2]), exec_hex_val(
            s[i + 3],
        )) {
            (Some(h0), Some(h1), Some(h2), Some(h3)) => Some(
                h0 * 4096 + h1 * 256 + h2 * 16 + h3,
            ),
            _ => None,
        }
    } else {
        None
    }
}

#[verifier::rlimit(100)]
fn exec_parse_string_rest(s: &Vec<char>, i: usize) -> (r: Option<(Vec<char>, usize)>)
    requires
        i <= s@.len(),
    ensures
        match r {
            Some(p) => parse_string_rest(s@, i as int) == Some((p.0@, p.1 as int)) && i < p.1
                <= s@.len(),
            None => parse_string_rest(s@, i as int) is None,
        },
    decreases s@.len() - i,
{
    broadcast use vstd::utf8::char_u32_cast;

    if i >= s.len() {
        None
    } else if s[i] == '"' {
        let cs: Vec<char> = Vec::new();
        assert(cs@ =~= Seq::<char>::empty());
        Some((cs, i + 1))
    } else if s[i] == '\\' {
        if s.len() - i < 2 {
            None
        } else if s[i + 1] == 'u' {
            match exec_hex4(s, i + 2) {
                None => None,
                Some(code) => {
                    if 0xD800 <= code && code < 0xDC00 {
                        if s.len() - i >= 12 && s[i + 6] == '\\' && s[i + 7] == 'u' {
                            match exec_hex4(s, i + 8) {
                                None => None,
                                Some(lo) => {
                                    if 0xDC00 <= lo && lo < 0xE000 {
                                        let v: u32 = 0x10000 + (code - 0xD800) * 0x400 + (lo
                                            - 0xDC00);
                                        let c = match char_from_u32(v) {
                                            Some(c) => c,
                                            None => {
                                                // a value in 0x10000 ..= 0x10FFFF is a scalar
                                                assert(vstd::utf8::is_scalar(v));
                                                return None;
                                            },
                                        };
                                        proof {
                                            vstd::utf8::char_u32_cast(c, v);
                                        }
                                        match exec_parse_string_rest(s, i + 12) {
                                            None => None,
                                            Some((rest, j)) => {
                                                let ghost rest_view = rest@;
                                                let mut cs = rest;
                                                cs.insert(0, c);
                                                assert(cs@ =~= seq![c] + rest_view);
                                                Some((cs, j))
                                            },
                                        }
                                    } else {
                                        None
                                    }
                                },
                            }
                        } else {
                            None
                        }
                    } else if 0xDC00 <= code && code < 0xE000 {
                        None
                    } else {
                        let c = match char_from_u32(code) {
                            Some(c) => c,
                            None => {
                                // below 0x10000 and outside the surrogate range
                                assert(vstd::utf8::is_scalar(code));
                                return None;
                            },
                        };
                        proof {
                            vstd::utf8::char_u32_cast(c, code);
                        }
                        match exec_parse_string_rest(s, i + 6) {
                            None => None,
                            Some((rest, j)) => {
                                let ghost rest_view = rest@;
                                let mut cs = rest;
                                cs.insert(0, c);
                                assert(cs@ =~= seq![c] + rest_view);
                                Some((cs, j))
                            },
                        }
                    }
                },
            }
        } else {
            let e = s[i + 1];
            let c = if e == '"' {
                '"'
            } else if e == '\\' {
                '\\'
            } else if e == '/' {
                '/'
            } else if e == 'b' {
                '\u{0008}'
            } else if e == 'f' {
                '\u{000C}'
            } else if e == 'n' {
                '\n'
            } else if e == 'r' {
                '\r'
            } else if e == 't' {
                '\t'
            } else {
                return None;
            };
            match exec_parse_string_rest(s, i + 2) {
                None => None,
                Some((rest, j)) => {
                    let ghost rest_view = rest@;
                    let mut cs = rest;
                    cs.insert(0, c);
                    assert(cs@ =~= seq![c] + rest_view);
                    Some((cs, j))
                },
            }
        }
    } else if (s[i] as u32) < 0x20 {
        None
    } else {
        let c = s[i];
        match exec_parse_string_rest(s, i + 1) {
            None => None,
            Some((rest, j)) => {
                let ghost rest_view = rest@;
                let mut cs = rest;
                cs.insert(0, c);
                assert(cs@ =~= seq![c] + rest_view);
                Some((cs, j))
            },
        }
    }
}

/// The value of a digit run only grows as the run extends.
proof fn lemma_digits_val_mono(s: Seq<char>, i: int, k: int, m: int)
    requires
        0 <= i <= k <= m <= s.len(),
        forall|t: int| i <= t < m ==> is_digit(#[trigger] s[t]),
    ensures
        digits_val(s, i, k) <= digits_val(s, i, m),
    decreases m - k,
{
    if k < m {
        lemma_digits_val_mono(s, i, k, m - 1);
        lemma_digits_val_bounds(s, i, m - 1);
        assert(digits_val(s, i, m - 1) * 10 >= digits_val(s, i, m - 1)) by (nonlinear_arith)
            requires
                digits_val(s, i, m - 1) >= 0,
        ;
    }
}

fn exec_digits_to_u64(s: &Vec<char>, i: usize, j: usize) -> (r: Option<u64>)
    requires
        i <= j <= s@.len(),
        forall|k: int| i <= k < j ==> is_digit(#[trigger] s@[k]),
    ensures
        match r {
            Some(v) => v as int == digits_val(s@, i as int, j as int) && digits_val(
                s@,
                i as int,
                j as int,
            ) <= u64::MAX,
            None => digits_val(s@, i as int, j as int) > u64::MAX,
        },
{
    let mut acc: u64 = 0;
    let mut k = i;
    while k < j
        invariant
            i <= k <= j <= s@.len(),
            forall|t: int| i <= t < j ==> is_digit(#[trigger] s@[t]),
            acc as int == digits_val(s@, i as int, k as int),
        decreases j - k,
    {
        let d: u64 = (s[k] as u32 - 48) as u64;
        assert(d as int == s@[k as int] as int - '0' as int);
        let stepped = match acc.checked_mul(10) {
            Some(m) => m.checked_add(d),
            None => None,
        };
        match stepped {
            Some(a) => {
                acc = a;
            },
            None => {
                proof {
                    lemma_digits_val_bounds(s@, i as int, k as int);
                    assert(digits_val(s@, i as int, k as int + 1) > u64::MAX);
                    lemma_digits_val_mono(s@, i as int, k as int + 1, j as int);
                }
                return None;
            },
        }
        k += 1;
    }
    Some(acc)
}

fn exec_after_frac(s: &Vec<char>, j: usize) -> (r: Option<usize>)
    requires
        j <= s@.len(),
    ensures
        match r {
            Some(x) => after_frac(s@, j as int) == Some(x as int) && j <= x <= s@.len(),
            None => after_frac(s@, j as int) is None,
        },
{
    if j < s.len() && s[j] == '.' {
        if s.len() - j >= 2 && is_digit_exec(s[j + 1]) {
            Some(exec_digit_run_end(s, j + 1))
        } else {
            None
        }
    } else {
        Some(j)
    }
}

fn exec_after_exp(s: &Vec<char>, j: usize) -> (r: Option<usize>)
    requires
        j <= s@.len(),
    ensures
        match r {
            Some(x) => after_exp(s@, j as int) == Some(x as int) && j <= x <= s@.len(),
            None => after_exp(s@, j as int) is None,
        },
{
    if j < s.len() && (s[j] == 'e' || s[j] == 'E') {
        let k = if s.len() - j >= 2 && (s[j + 1] == '+' || s[j + 1] == '-') {
            j + 2
        } else {
            j + 1
        };
        if k < s.len() && is_digit_exec(s[k]) {
            Some(exec_digit_run_end(s, k))
        } else {
            None
        }
    } else {
        Some(j)
    }
}

fn exec_parse_number(s: &Vec<char>, i: usize) -> (r: Option<(JsonNum, usize)>)
    requires
        i < s@.len(),
    ensures
        match r {
            Some(p) => parse_number(s@, i as int) == Some((p.0, p.1 as int)) && i < p.1
                <= s@.len(),
            None => parse_number(s@, i as int) is None,
        },
{
    let n = s.len();
    let start = if s[i] == '-' {
        i + 1
    } else {
        i
    };
    if start >= s.len() || !is_digit_exec(s[start]) {
        return None;
    }
    let int_end = exec_digit_run_end(s, start);
    proof {
        lemma_digit_run(s@, start as int);
    }
    if s[start] == '0' && int_end != start + 1 {
        return None;
    }
    let fe = match exec_after_frac(s, int_end) {
        None => {
            return None;
        },
        Some(x) => x,
    };
    let end = match exec_after_exp(s, fe) {
        None => {
            return None;
        },
        Some(x) => x,
    };
    if start == i && fe == int_end && end == fe {
        match exec_digits_to_u64(s, start, int_end) {
            Some(v) => Some((JsonNum::Int(v), end)),
            None => Some((JsonNum::Other, end)),
        }
    } else {
        Some((JsonNum::Other, end))
    }
}

fn exec_parse_value(s: &Vec<char>, i: usize, fuel: usize) -> (r: Option<(Json, usize)>)
    requires
        i <= s@.len(),
    ensures
        match r {
            Some(p) => parse_value(s@, i as int, fuel as nat) == Some((p.0.dv(), p.1 as int))
                && p.1 <= s@.len(),
            None => parse_value(s@, i as int, fuel as nat) is None,
        },
    decreases fuel, 0int,
{
    if fuel == 0 {
        None
    } else if i >= s.len() {
        None
    } else if s[i] == 'n' {
        if s.len() - i >= 4 && s[i + 1] == 'u' && s[i + 2] == 'l' && s[i + 3] == 'l' {
            Some((Json::Null, i + 4))
        } else {
            None
        }
    } else if s[i] == 't' {
        if s.len() - i >= 4 && s[i + 1] == 'r' && s[i + 2] == 'u' && s[i + 3] == 'e' {
            Some((Json::Bool(true), i + 4))
        } else {
            None
        }
    } else if s[i] == 'f' {
        if s.len() - i >= 5 && s[i + 1] == 'a' && s[i + 2] == 'l' && s[i + 3] == 's' && s[i + 4]
            == 'e' {
            Some((Json::Bool(false), i + 5))
        } else {
            None
        }
    } else if s[i] == '"' {
        match exec_parse_string_rest(s, i + 1) {
            None => None,
            Some((cs, j)) => Some((Json::Str(string_from_chars(&cs)), j)),
        }
    } else if s[i] == '-' || is_digit_exec(s[i]) {
        match exec_parse_number(s, i) {
            None => None,
            Some((n, j)) => Some((Json::Num(n), j)),
        }
    } else if s[i] == '[' {
        let j = exec_skip_ws(s, i + 1);
        if j < s.len() && s[j] == ']' {
            let items: Vec<Json> = Vec::new();
            assert(dv_seq(items@) =~= Seq::<JsonV>::empty());
            Some((Json::Arr(items), j + 1))
        } else {
            match exec_parse_elems(s, j, fuel - 1) {
                None => None,
                Some((items, k)) => Some((Json::Arr(items), k)),
            }
        }
    } else if s[i] == '{' {
        let j = exec_skip_ws(s, i + 1);
        if j < s.len() && s[j] == '}' {
            let members: Vec<(String, Json)> = Vec::new();
            assert(dv_members(members@) =~= Seq::<(Seq<char>, JsonV)>::empty());
            Some((Json::Obj(members), j + 1))
        } else {
            match exec_parse_membs(s, j, fuel - 1) {
                None => None,
                Some((members, k)) => Some((Json::Obj(members), k)),
            }
        }
    } else {
        None
    }
}

fn exec_parse_elems(s: &Vec<char>, i: usize, fuel: usize) -> (r: Option<(Vec<Json>, usize)>)
    requires
        i <= s@.len(),
    ensures
        match r {
            Some(p) => parse_elems(s@, i as int, fuel as nat) == Some((dv_seq(p.0@), p.1 as int))
                && p.1 <= s@.len(),
            None => parse_elems(s@, i as int, fuel as nat) is None,
        },
    decreases fuel, 1int,
{
    if fuel == 0 {
        return None;
    }
    match exec_parse_value(s, i, fuel) {
        None => None,
        Some((v, j)) => {
            let k = exec_skip_ws(s, j);
            if k < s.len() && s[k] == ',' {
                let n = exec_skip_ws(s, k + 1);
                match exec_parse_elems(s, n, fuel - 1) {
                    None => None,
                    Some((rest, end)) => {
                        let ghost rest_dv = dv_seq(rest@);
                        let ghost rest_view = rest@;
                        let ghost v_spec = v.dv();
                        let mut items = rest;
                        items.insert(0, v);
                        proof {
                            assert(items@ =~= seq![v] + rest_view);
                            lemma_dv_seq_cons(v, rest_view);
                        }
                        assert(dv_seq(items@) == seq![v_spec] + rest_dv);
                        Some((items, end))
                    },
                }
            } else if k < s.len() && s[k] == ']' {
                let mut items: Vec<Json> = Vec::new();
                items.push(v);
                proof {
                    assert(items@ =~= seq![v] + Seq::<Json>::empty());
                    lemma_dv_seq_cons(v, Seq::<Json>::empty());
                    assert(dv_seq(Seq::<Json>::empty()) =~= Seq::<JsonV>::empty());
                    assert(dv_seq(items@) =~= seq![v.dv()]);
                }
                Some((items, k + 1))
            } else {
                None
            }
        },
    }
}

fn exec_parse_membs(s: &Vec<char>, i: usize, fuel: usize) -> (r: Option<
    (Vec<(String, Json)>, usize),
>)
    requires
        i <= s@.len(),
    ensures
        match r {
            Some(p) => parse_membs(s@, i as int, fuel as nat) == Some(
                (dv_members(p.0@), p.1 as int),
            ) && p.1 <= s@.len(),
            None => parse_membs(s@, i as int, fuel as nat) is None,
        },
    decreases fuel, 1int,
{
    if fuel == 0 {
        return None;
    }
    if i >= s.len() || s[i] != '"' {
        return None;
    }
    match exec_parse_string_rest(s, i + 1) {
        None => None,
        Some((key_cs, j)) => {
            let key = string_from_chars(&key_cs);
            let k = exec_skip_ws(s, j);
            if k < s.len() && s[k] == ':' {
                let n = exec_skip_ws(s, k + 1);
                match exec_parse_value(s, n, fuel) {
                    None => None,
                    Some((v, m)) => {
                        let p = exec_skip_ws(s, m);
                        if p < s.len() && s[p] == ',' {
                            let q = exec_skip_ws(s, p + 1);
                            match exec_parse_membs(s, q, fuel - 1) {
                                None => None,
                                Some((rest, end)) => {
                                    let ghost rest_dv = dv_members(rest@);
                                    let ghost rest_view = rest@;
                                    let ghost v_spec = v.dv();
                                    let ghost key_v = key@;
                                    let ghost kv = (key, v);
                                    let mut members = rest;
                                    members.insert(0, (key, v));
                                    proof {
                                        assert(members@ =~= seq![kv] + rest_view);
                                        lemma_dv_members_cons(kv, rest_view);
                                    }
                                    assert(dv_members(members@) == seq![(key_v, v_spec)]
                                        + rest_dv);
                                    Some((members, end))
                                },
                            }
                        } else if p < s.len() && s[p] == '}' {
                            let ghost v_spec = v.dv();
                            let ghost key_v = key@;
                            let mut members: Vec<(String, Json)> = Vec::new();
                            members.push((key, v));
                            proof {
                                assert(members@ =~= seq![members@[0]]
                                    + Seq::<(String, Json)>::empty());
                                lemma_dv_members_cons(
                                    members@[0],
                                    Seq::<(String, Json)>::empty(),
                                );
                                assert(dv_members(Seq::<(String, Json)>::empty()) =~= Seq::<
                                    (Seq<char>, JsonV),
                                >::empty());
                                assert(dv_members(members@) =~= seq![(key_v, v_spec)]);
                            }
                            Some((members, p + 1))
                        } else {
                            None
                        }
                    },
                }
            } else {
                None
            }
        },
    }
}

/// Parses a complete JSON document into its value tree; `None` exactly
/// when the input does not spell one whole JSON value.
pub fn parse_json(s: &str) -> (r: Option<Json>)
    ensures
        match r {
            Some(j) => spec_parse_json(s@) == Some(j.dv()),
            None => spec_parse_json(s@) is None,
        },
{
    let cs = chars_of(s);
    let i = exec_skip_ws(&cs, 0);
    let fuel = cs.len();
    match exec_parse_value(&cs, i, fuel) {
        None => None,
        Some((v, j)) => {
            let k = exec_skip_ws(&cs, j);
            if k == cs.len() {
                Some(v)
            } else {
                None
            }
        },
    }
}

} // verus!
