//! The health-check response and its decoder. The service answers the health
//! endpoint with a JSON object holding one status string per monitored
//! subsystem. The decoder accepts a JSON object in which the clickhouse and
//! postgres members each appear exactly once with a string value, in any
//! position; other members carry any JSON value and are skipped, as decoders
//! of such payloads conventionally ignore unknown fields. Strings take the
//! full JSON escapes, `\uXXXX` and surrogate pairs included; whitespace may
//! stand wherever JSON allows it.

use vstd::prelude::*;

use crate::error::{is_success_status, Error};
use crate::json::push_char;
use vstd::string::StringExecFns;
use vstd::utf8::{decode_utf8, is_scalar, valid_utf8};

verus! {

/// Response of the health endpoint: one status string per monitored
/// subsystem. A healthy subsystem conventionally reports the text `ok`;
/// the values are exposed verbatim, never interpreted.
#[derive(Debug, Clone)]
pub struct HealthResponse {
    /// Status reported for the clickhouse subsystem.
    pub clickhouse: String,
    /// Status reported for the postgres subsystem.
    pub postgres: String,
}

/// The whitespace JSON allows between tokens.
pub open spec fn is_json_ws(c: char) -> bool {
    c == ' ' || c == '\t' || c == '\n' || c == '\r'
}

/// The first position at or after `i` holding no whitespace (or the end).
pub open spec fn spec_skip_ws(s: Seq<char>, i: int) -> int
    decreases s.len() - i,
    when 0 <= i <= s.len()
{
    if i == s.len() || !is_json_ws(s[i]) {
        i
    } else {
        spec_skip_ws(s, i + 1)
    }
}

/// The value of one hexadecimal digit, upper or lower case; `None` for any
/// other character.
pub open spec fn spec_hex_digit(c: char) -> Option<int> {
    let x = c as int;
    if 48 <= x && x <= 57 {
        Some(x - 48)
    } else if 97 <= x && x <= 102 {
        Some(x - 87)
    } else if 65 <= x && x <= 70 {
        Some(x - 55)
    } else {
        None
    }
}

/// The value of the four hexadecimal digits at `i`; `None` where one of the
/// four characters is no hexadecimal digit.
pub open spec fn spec_hex4(s: Seq<char>, i: int) -> Option<int>
    recommends
        0 <= i,
        i + 4 <= s.len(),
{
    if spec_hex_digit(s[i]) is Some && spec_hex_digit(s[i + 1]) is Some && spec_hex_digit(
        s[i + 2],
    ) is Some && spec_hex_digit(s[i + 3]) is Some {
        Some(
            spec_hex_digit(s[i]).unwrap() * 4096 + spec_hex_digit(s[i + 1]).unwrap() * 256
                + spec_hex_digit(s[i + 2]).unwrap() * 16 + spec_hex_digit(s[i + 3]).unwrap(),
        )
    } else {
        None
    }
}

/// The character a single-letter JSON escape stands for; `None` for letters
/// that open no escape (`\u` escapes are handled separately).
pub open spec fn spec_unescape(c: char) -> Option<char> {
    if c == '"' {
        Some('"')
    } else if c == '\\' {
        Some('\\')
    } else if c == '/' {
        Some('/')
    } else if c == 'b' {
        Some('\u{8}')
    } else if c == 'f' {
        Some('\u{c}')
    } else if c == 'n' {
        Some('\n')
    } else if c == 'r' {
        Some('\r')
    } else if c == 't' {
        Some('\t')
    } else {
        None
    }
}

/// Parses the rest of a JSON string after its opening quote, accumulating the
/// unescaped characters: the parsed value and the position after the closing
/// quote, or `None` where no well-formed string starts at `i`. A `\uXXXX`
/// escape stands for its code point; a high surrogate must be followed by a
/// low-surrogate escape and the pair stands for one supplementary character,
/// as JSON wants it.
pub open spec fn spec_string_body(s: Seq<char>, i: int, acc: Seq<char>) -> Option<(Seq<char>, int)>
    decreases s.len() - i,
    when 0 <= i <= s.len()
{
    if i == s.len() {
        None
    } else if s[i] == '"' {
        Some((acc, i + 1))
    } else if s[i] == '\\' {
        if i + 2 <= s.len() {
            if s[i + 1] == 'u' {
                if i + 6 <= s.len() {
                    match spec_hex4(s, i + 2) {
                        None => None,
                        Some(code) => if !(0xd800 <= code && code <= 0xdfff) {
                            spec_string_body(s, i + 6, acc.push(((code as u32) as char)))
                        } else if code < 0xdc00 {
                            if i + 12 <= s.len() && s[i + 6] == '\\' && s[i + 7] == 'u' {
                                match spec_hex4(s, i + 8) {
                                    None => None,
                                    Some(lo) => if 0xdc00 <= lo && lo <= 0xdfff {
                                        spec_string_body(
                                            s,
                                            i + 12,
                                            acc.push(
                                                (((0x10000 + (code - 0xd800) * 0x400 + (lo
                                                    - 0xdc00)) as u32) as char),
                                            ),
                                        )
                                    } else {
                                        None
                                    },
                                }
                            } else {
                                None
                            }
                        } else {
                            None
                        },
                    }
                } else {
                    None
                }
            } else {
                match spec_unescape(s[i + 1]) {
                    Some(c) => spec_string_body(s, i + 2, acc.push(c)),
                    None => None,
                }
            }
        } else {
            None
        }
    } else if (s[i] as u32) < 0x20 {
        None
    } else {
        spec_string_body(s, i + 1, acc.push(s[i]))
    }
}

/// Parses a complete JSON string starting at `i`.
pub open spec fn spec_parse_string(s: Seq<char>, i: int) -> Option<(Seq<char>, int)> {
    if 0 <= i < s.len() && s[i] == '"' {
        spec_string_body(s, i + 1, Seq::empty())
    } else {
        None
    }
}

/// A decimal digit.
pub open spec fn is_digit(c: char) -> bool {
    48 <= (c as u32) && (c as u32) <= 57
}

/// The first position at or after `i` holding no decimal digit (or the end).
pub open spec fn spec_skip_digits(s: Seq<char>, i: int) -> int
    decreases s.len() - i,
    when 0 <= i <= s.len()
{
    if i == s.len() || !is_digit(s[i]) {
        i
    } else {
        spec_skip_digits(s, i + 1)
    }
}

/// The position after an optional JSON fraction part starting at `i`: a dot
/// must be followed by at least one digit.
pub open spec fn spec_skip_frac(s: Seq<char>, i: int) -> Option<int> {
    if i < s.len() && s[i] == '.' {
        if i + 1 < s.len() && is_digit(s[i + 1]) {
            Some(spec_skip_digits(s, i + 1))
        } else {
            None
        }
    } else {
        Some(i)
    }
}

/// The position after an optional JSON exponent part starting at `i`: an `e`
/// with an optional sign must be followed by at least one digit.
pub open spec fn spec_skip_exp(s: Seq<char>, i: int) -> Option<int> {
    if i < s.len() && (s[i] == 'e' || s[i] == 'E') {
        let j = if i + 1 < s.len() && (s[i + 1] == '+' || s[i + 1] == '-') {
            i + 2
        } else {
            i + 1
        };
        if j < s.len() && is_digit(s[j]) {
            Some(spec_skip_digits(s, j))
        } else {
            None
        }
    } else {
        Some(i)
    }
}

/// The position after a JSON number starting at `i`: an optional minus sign,
/// a zero or a nonzero-led digit run, then optional fraction and exponent.
pub open spec fn spec_skip_number(s: Seq<char>, i: int) -> Option<int>
    recommends
        0 <= i <= s.len(),
{
    let j = if i < s.len() && s[i] == '-' {
        i + 1
    } else {
        i
    };
    if j < s.len() && is_digit(s[j]) {
        let j2 = if s[j] == '0' {
            j + 1
        } else {
            spec_skip_digits(s, j)
        };
        match spec_skip_frac(s, j2) {
            None => None,
            Some(j3) => spec_skip_exp(s, j3),
        }
    } else {
        None
    }
}

/// The position after one complete JSON value starting at `i` (no leading
/// whitespace), or `None` where no value starts there. The bound checks on
/// the intermediate positions always hold; they stand in the definition so
/// that each recursive call visibly advances.
pub open spec fn spec_skip_value(s: Seq<char>, i: int) -> Option<int>
    decreases s.len() - i, 0int,
    when 0 <= i <= s.len()
{
    if i == s.len() {
        None
    } else if s[i] == '"' {
        match spec_parse_string(s, i) {
            Some((v, j)) => Some(j),
            None => None,
        }
    } else if s[i] == '{' {
        let j = spec_skip_ws(s, i + 1);
        if i < j && j <= s.len() {
            spec_skip_object_rest(s, j)
        } else {
            None
        }
    } else if s[i] == '[' {
        let j = spec_skip_ws(s, i + 1);
        if i < j && j <= s.len() {
            spec_skip_array_rest(s, j)
        } else {
            None
        }
    } else if s[i] == 't' {
        if i + 4 <= s.len() && s[i + 1] == 'r' && s[i + 2] == 'u' && s[i + 3] == 'e' {
            Some(i + 4)
        } else {
            None
        }
    } else if s[i] == 'f' {
        if i + 5 <= s.len() && s[i + 1] == 'a' && s[i + 2] == 'l' && s[i + 3] == 's' && s[i + 4]
            == 'e' {
            Some(i + 5)
        } else {
            None
        }
    } else if s[i] == 'n' {
        if i + 4 <= s.len() && s[i + 1] == 'u' && s[i + 2] == 'l' && s[i + 3] == 'l' {
            Some(i + 4)
        } else {
            None
        }
    } else if s[i] == '-' || is_digit(s[i]) {
        spec_skip_number(s, i)
    } else {
        None
    }
}

/// The position after the remainder of a JSON object whose opening brace and
/// following whitespace are already consumed: `i` stands at the closing brace
/// or at the first member.
pub open spec fn spec_skip_object_rest(s: Seq<char>, i: int) -> Option<int>
    decreases s.len() - i, 1int,
    when 0 <= i <= s.len()
{
    if i < s.len() && s[i] == '}' {
        Some(i + 1)
    } else {
        match spec_parse_string(s, i) {
            None => None,
            Some((key, j)) => {
                let jc = spec_skip_ws(s, j);
                if jc < s.len() && s[jc] == ':' {
                    let jv = spec_skip_ws(s, jc + 1);
                    if i < jv && jv <= s.len() {
                        match spec_skip_value(s, jv) {
                            None => None,
                            Some(jd) => {
                                let je = spec_skip_ws(s, jd);
                                if je < s.len() && s[je] == ',' {
                                    let jn = spec_skip_ws(s, je + 1);
                                    if i < jn && jn <= s.len() {
                                        spec_skip_object_rest(s, jn)
                                    } else {
                                        None
                                    }
                                } else if je < s.len() && s[je] == '}' {
                                    Some(je + 1)
                                } else {
                                    None
                                }
                            },
                        }
                    } else {
                        None
                    }
                } else {
                    None
                }
            },
        }
    }
}

/// The position after the remainder of a JSON array whose opening bracket and
/// following whitespace are already consumed: `i` stands at the closing
/// bracket or at the first element.
pub open spec fn spec_skip_array_rest(s: Seq<char>, i: int) -> Option<int>
    decreases s.len() - i, 1int,
    when 0 <= i <= s.len()
{
    if i < s.len() && s[i] == ']' {
        Some(i + 1)
    } else {
        match spec_skip_value(s, i) {
            None => None,
            Some(jd) => {
                let je = spec_skip_ws(s, jd);
                if je < s.len() && s[je] == ',' {
                    let jn = spec_skip_ws(s, je + 1);
                    if i < jn && jn <= s.len() {
                        spec_skip_array_rest(s, jn)
                    } else {
                        None
                    }
                } else if je < s.len() && s[je] == ']' {
                    Some(je + 1)
                } else {
                    None
                }
            },
        }
    }
}

/// The view of an optional text value.
pub open spec fn opt_chars(o: Option<String>) -> Option<Seq<char>> {
    match o {
        Some(t) => Some(t@),
        None => None,
    }
}

/// One pass over the object's members from `i` (standing at a member key),
/// carrying the clickhouse and postgres values seen so far: the two values
/// and the position after the closing brace. Each known key must carry a
/// string value and may appear once; an unknown key may carry any JSON value
/// and is skipped, as the service's decoders conventionally ignore unknown
/// members.
pub open spec fn spec_health_members(
    s: Seq<char>,
    i: int,
    clickhouse: Option<Seq<char>>,
    postgres: Option<Seq<char>>,
) -> Option<(Seq<char>, Seq<char>, int)>
    decreases s.len() - i, 0int,
    when 0 <= i <= s.len()
{
    match spec_parse_string(s, i) {
        None => None,
        Some((key, j)) => {
            let jc = spec_skip_ws(s, j);
            if jc < s.len() && s[jc] == ':' {
                let jv = spec_skip_ws(s, jc + 1);
                if i < jv && jv <= s.len() {
                    if key == "clickhouse"@ {
                        if clickhouse is Some {
                            None
                        } else {
                            match spec_parse_string(s, jv) {
                                None => None,
                                Some((v, jd)) => if i < jd && jd <= s.len() {
                                    spec_health_rest(s, jd, Some(v), postgres)
                                } else {
                                    None
                                },
                            }
                        }
                    } else if key == "postgres"@ {
                        if postgres is Some {
                            None
                        } else {
                            match spec_parse_string(s, jv) {
                                None => None,
                                Some((v, jd)) => if i < jd && jd <= s.len() {
                                    spec_health_rest(s, jd, clickhouse, Some(v))
                                } else {
                                    None
                                },
                            }
                        }
                    } else {
                        match spec_skip_value(s, jv) {
                            None => None,
                            Some(jd) => if i < jd && jd <= s.len() {
                                spec_health_rest(s, jd, clickhouse, postgres)
                            } else {
                                None
                            },
                        }
                    }
                } else {
                    None
                }
            } else {
                None
            }
        },
    }
}

/// After one member: a comma continues with the next member, a closing brace
/// ends the object, which must by then have yielded both fields.
pub open spec fn spec_health_rest(
    s: Seq<char>,
    i: int,
    clickhouse: Option<Seq<char>>,
    postgres: Option<Seq<char>>,
) -> Option<(Seq<char>, Seq<char>, int)>
    decreases s.len() - i, 1int,
    when 0 <= i <= s.len()
{
    let j = spec_skip_ws(s, i);
    if j < s.len() && s[j] == ',' {
        let jn = spec_skip_ws(s, j + 1);
        if i < jn && jn <= s.len() {
            spec_health_members(s, jn, clickhouse, postgres)
        } else {
            None
        }
    } else if j < s.len() && s[j] == '}' {
        match (clickhouse, postgres) {
            (Some(c), Some(p)) => Some((c, p, j + 1)),
            _ => None,
        }
    } else {
        None
    }
}

/// Parses a whole health body: a JSON object carrying a string-valued
/// clickhouse member and a string-valued postgres member, each exactly once,
/// in any position among other members (which are skipped), with whitespace
/// wherever JSON allows it; the result is the pair
/// (clickhouse value, postgres value).
pub open spec fn spec_parse_health(s: Seq<char>) -> Option<(Seq<char>, Seq<char>)> {
    let i0 = spec_skip_ws(s, 0);
    if i0 < s.len() && s[i0] == '{' {
        let i1 = spec_skip_ws(s, i0 + 1);
        if i1 <= s.len() {
            match spec_health_members(s, i1, None, None) {
                None => None,
                Some((c, p, jend)) => if 0 <= jend <= s.len() && spec_skip_ws(s, jend) == s.len() {
                    Some((c, p))
                } else {
                    None
                },
            }
        } else {
            None
        }
    } else {
        None
    }
}

/// True when the bytes are a decodable health body: valid UTF-8 whose text
/// the health grammar accepts.
pub open spec fn health_body_ok(bytes: Seq<u8>) -> bool {
    valid_utf8(bytes) && spec_parse_health(decode_utf8(bytes)) is Some
}

/// The (clickhouse, postgres) pair a decodable health body carries.
pub open spec fn spec_health_fields(bytes: Seq<u8>) -> (Seq<char>, Seq<char>) {
    spec_parse_health(decode_utf8(bytes)).unwrap()
}

/// Relies on core::str::from_utf8: returns the decoded text exactly when the
/// bytes are valid UTF-8, and nothing otherwise.
#[verifier::external_body]
fn utf8_to_str(bytes: &[u8]) -> (r: Option<&str>)
    ensures
        r is Some <==> valid_utf8(bytes@),
        r is Some ==> r.unwrap()@ == decode_utf8(bytes@),
{
    core::str::from_utf8(bytes).ok()
}

fn str_to_chars(s: &str) -> (r: Vec<char>)
    ensures
        r@ == s@,
{
    let n = s.unicode_len();
    let mut out: Vec<char> = Vec::new();
    let mut i: usize = 0;
    while i < n
        invariant
            i <= n,
            n == s@.len(),
            out@ =~= s@.subrange(0, i as int),
        decreases n - i,
    {
        let c = s.get_char(i);
        out.push(c);
        proof {
            assert(out@ =~= s@.subrange(0, i as int + 1));
        }
        i = i + 1;
    }
    assert(out@ =~= s@);
    out
}

fn skip_ws(s: &Vec<char>, i: usize) -> (r: usize)
    requires
        i <= s@.len(),
    ensures
        r as int == spec_skip_ws(s@, i as int),
        i <= r <= s@.len(),
    decreases s@.len() - i,
{
    if i == s.len() {
        i
    } else {
        let c = s[i];
        if c == ' ' || c == '\t' || c == '\n' || c == '\r' {
            skip_ws(s, i + 1)
        } else {
            i
        }
    }
}

/// Relies on char::from_u32: yields the character exactly on Unicode scalar
/// values (surrogates and values above the Unicode range give `None`).
#[verifier::external_body]
fn char_from_u32(x: u32) -> (r: Option<char>)
    ensures
        r is Some <==> is_scalar(x),
        r is Some ==> r.unwrap() == (x as char),
{
    char::from_u32(x)
}

fn hex_digit_val(c: char) -> (r: Option<u32>)
    ensures
        match spec_hex_digit(c) {
            Some(v) => r is Some && r.unwrap() as int == v,
            None => r is None,
        },
{
    let x = c as u32;
    if 48 <= x && x <= 57 {
        Some(x - 48)
    } else if 97 <= x && x <= 102 {
        Some(x - 87)
    } else if 65 <= x && x <= 70 {
        Some(x - 55)
    } else {
        None
    }
}

fn hex4_at(s: &Vec<char>, i: usize) -> (r: Option<u32>)
    requires
        i + 4 <= s@.len(),
    ensures
        match spec_hex4(s@, i as int) {
            Some(v) => r is Some && r.unwrap() as int == v && 0 <= v < 0x10000,
            None => r is None,
        },
{
    let n = s.len();
    assert(i + 4 <= n);
    let a = hex_digit_val(s[i]);
    let b = hex_digit_val(s[i + 1]);
    let c = hex_digit_val(s[i + 2]);
    let d = hex_digit_val(s[i + 3]);
    match (a, b, c, d) {
        (Some(a), Some(b), Some(c), Some(d)) => Some(a * 4096 + b * 256 + c * 16 + d),
        _ => None,
    }
}

fn parse_string_body(s: &Vec<char>, i: usize, acc: &mut String) -> (r: Option<usize>)
    requires
        i <= s@.len(),
    ensures
        match spec_string_body(s@, i as int, old(acc)@) {
            Some((v, j)) => r is Some && r.unwrap() as int == j && final(acc)@ == v && i < j
                <= s@.len(),
            None => r is None,
        },
    decreases s@.len() - i,
{
    if i == s.len() {
        None
    } else {
        let c = s[i];
        if c == '"' {
            Some(i + 1)
        } else if c == '\\' {
            if i + 1 < s.len() {
                let e = s[i + 1];
                if e == 'u' {
                    if s.len() - i >= 6 {
                        match hex4_at(s, i + 2) {
                            None => None,
                            Some(code) => {
                                if !(0xd800 <= code && code <= 0xdfff) {
                                    proof {
                                        assert(is_scalar(code));
                                    }
                                    match char_from_u32(code) {
                                        Some(u) => {
                                            push_char(acc, u);
                                            parse_string_body(s, i + 6, acc)
                                        },
                                        None => None,
                                    }
                                } else if code < 0xdc00 {
                                    if s.len() - i >= 12 && s[i + 6] == '\\' && s[i + 7] == 'u' {
                                        match hex4_at(s, i + 8) {
                                            None => None,
                                            Some(lo) => {
                                                if 0xdc00 <= lo && lo <= 0xdfff {
                                                    let combined: u32 = 0x10000 + (code - 0xd800)
                                                        * 0x400 + (lo - 0xdc00);
                                                    proof {
                                                        assert(is_scalar(combined));
                                                    }
                                                    match char_from_u32(combined) {
                                                        Some(u) => {
                                                            push_char(acc, u);
                                                            parse_string_body(s, i + 12, acc)
                                                        },
                                                        None => None,
                                                    }
                                                } else {
                                                    None
                                                }
                                            },
                                        }
                                    } else {
                                        None
                                    }
                                } else {
                                    None
                                }
                            },
                        }
                    } else {
                        None
                    }
                } else {
                    let unescaped: Option<char> = if e == '"' {
                    Some('"')
                } else if e == '\\' {
                    Some('\\')
                } else if e == '/' {
                    Some('/')
                } else if e == 'b' {
                    Some('\u{8}')
                } else if e == 'f' {
                    Some('\u{c}')
                } else if e == 'n' {
                    Some('\n')
                } else if e == 'r' {
                    Some('\r')
                } else if e == 't' {
                    Some('\t')
                } else {
                    None
                };
                    match unescaped {
                        Some(u) => {
                            push_char(acc, u);
                            parse_string_body(s, i + 2, acc)
                        },
                        None => None,
                    }
                }
            } else {
                None
            }
        } else if (c as u32) < 0x20 {
            None
        } else {
            push_char(acc, c);
            parse_string_body(s, i + 1, acc)
        }
    }
}

fn parse_string_at(s: &Vec<char>, i: usize) -> (r: Option<(String, usize)>)
    requires
        i <= s@.len(),
    ensures
        match spec_parse_string(s@, i as int) {
            Some((v, j)) => r is Some && r.unwrap().0@ == v && r.unwrap().1 as int == j && i < j
                <= s@.len(),
            None => r is None,
        },
{
    if i < s.len() {
        let c = s[i];
        if c == '"' {
            let mut acc = String::new();
            match parse_string_body(s, i + 1, &mut acc) {
                Some(j) => Some((acc, j)),
                None => None,
            }
        } else {
            None
        }
    } else {
        None
    }
}

fn skip_digits(s: &Vec<char>, i: usize) -> (r: usize)
    requires
        i <= s@.len(),
    ensures
        r as int == spec_skip_digits(s@, i as int),
        i <= r <= s@.len(),
        i < s@.len() && is_digit(s@[i as int]) ==> i < r,
    decreases s@.len() - i,
{
    if i == s.len() {
        i
    } else {
        let x = s[i] as u32;
        if 48 <= x && x <= 57 {
            skip_digits(s, i + 1)
        } else {
            i
        }
    }
}

fn skip_frac(s: &Vec<char>, i: usize) -> (r: Option<usize>)
    requires
        i <= s@.len(),
    ensures
        match spec_skip_frac(s@, i as int) {
            Some(j) => r is Some && r.unwrap() as int == j && i <= j <= s@.len(),
            None => r is None,
        },
{
    if i < s.len() {
        let c = s[i];
        if c == '.' {
            if i + 1 < s.len() {
                let d = s[i + 1] as u32;
                if 48 <= d && d <= 57 {
                    Some(skip_digits(s, i + 1))
                } else {
                    None
                }
            } else {
                None
            }
        } else {
            Some(i)
        }
    } else {
        Some(i)
    }
}

fn skip_exp(s: &Vec<char>, i: usize) -> (r: Option<usize>)
    requires
        i <= s@.len(),
    ensures
        match spec_skip_exp(s@, i as int) {
            Some(j) => r is Some && r.unwrap() as int == j && i <= j <= s@.len(),
            None => r is None,
        },
{
    if i < s.len() {
        let c = s[i];
        if c == 'e' || c == 'E' {
            let j = if i + 1 < s.len() && (s[i + 1] == '+' || s[i + 1] == '-') {
                i + 2
            } else {
                i + 1
            };
            if j < s.len() {
                let d = s[j] as u32;
                if 48 <= d && d <= 57 {
                    Some(skip_digits(s, j))
                } else {
                    None
                }
            } else {
                None
            }
        } else {
            Some(i)
        }
    } else {
        Some(i)
    }
}

fn skip_number(s: &Vec<char>, i: usize) -> (r: Option<usize>)
    requires
        i <= s@.len(),
    ensures
        match spec_skip_number(s@, i as int) {
            Some(j) => r is Some && r.unwrap() as int == j && i < j <= s@.len(),
            None => r is None,
        },
{
    let j = if i < s.len() && s[i] == '-' {
        i + 1
    } else {
        i
    };
    if j < s.len() {
        let d = s[j] as u32;
        if 48 <= d && d <= 57 {
            let j2 = if s[j] == '0' {
                j + 1
            } else {
                skip_digits(s, j)
            };
            match skip_frac(s, j2) {
                None => None,
                Some(j3) => skip_exp(s, j3),
            }
        } else {
            None
        }
    } else {
        None
    }
}

fn skip_value(s: &Vec<char>, i: usize) -> (r: Option<usize>)
    requires
        i <= s@.len(),
    ensures
        match spec_skip_value(s@, i as int) {
            Some(j) => r is Some && r.unwrap() as int == j && i < j <= s@.len(),
            None => r is None,
        },
    decreases s@.len() - i, 0int,
{
    let n = s.len();
    if i == n {
        return None;
    }
    let c = s[i];
    if c == '"' {
        match parse_string_at(s, i) {
            Some((_value, j)) => Some(j),
            None => None,
        }
    } else if c == '{' {
        let j = skip_ws(s, i + 1);
        skip_object_rest(s, j)
    } else if c == '[' {
        let j = skip_ws(s, i + 1);
        skip_array_rest(s, j)
    } else if c == 't' {
        if n - i >= 4 && s[i + 1] == 'r' && s[i + 2] == 'u' && s[i + 3] == 'e' {
            Some(i + 4)
        } else {
            None
        }
    } else if c == 'f' {
        if n - i >= 5 && s[i + 1] == 'a' && s[i + 2] == 'l' && s[i + 3] == 's' && s[i + 4] == 'e' {
            Some(i + 5)
        } else {
            None
        }
    } else if c == 'n' {
        if n - i >= 4 && s[i + 1] == 'u' && s[i + 2] == 'l' && s[i + 3] == 'l' {
            Some(i + 4)
        } else {
            None
        }
    } else {
        let x = c as u32;
        if c == '-' || (48 <= x && x <= 57) {
            skip_number(s, i)
        } else {
            None
        }
    }
}

fn skip_object_rest(s: &Vec<char>, i: usize) -> (r: Option<usize>)
    requires
        i <= s@.len(),
    ensures
        match spec_skip_object_rest(s@, i as int) {
            Some(j) => r is Some && r.unwrap() as int == j && i < j <= s@.len(),
            None => r is None,
        },
    decreases s@.len() - i, 1int,
{
    let n = s.len();
    if i < n && s[i] == '}' {
        return Some(i + 1);
    }
    match parse_string_at(s, i) {
        None => None,
        Some((_key, j)) => {
            let jc = skip_ws(s, j);
            if jc < n {
                let cc = s[jc];
                if cc == ':' {
                    let jv = skip_ws(s, jc + 1);
                    match skip_value(s, jv) {
                        None => None,
                        Some(jd) => {
                            let je = skip_ws(s, jd);
                            if je < n {
                                let ce = s[je];
                                if ce == ',' {
                                    let jn = skip_ws(s, je + 1);
                                    skip_object_rest(s, jn)
                                } else if ce == '}' {
                                    Some(je + 1)
                                } else {
                                    None
                                }
                            } else {
                                None
                            }
                        },
                    }
                } else {
                    None
                }
            } else {
                None
            }
        },
    }
}

fn skip_array_rest(s: &Vec<char>, i: usize) -> (r: Option<usize>)
    requires
        i <= s@.len(),
    ensures
        match spec_skip_array_rest(s@, i as int) {
            Some(j) => r is Some && r.unwrap() as int == j && i < j <= s@.len(),
            None => r is None,
        },
    decreases s@.len() - i, 1int,
{
    let n = s.len();
    if i < n && s[i] == ']' {
        return Some(i + 1);
    }
    match skip_value(s, i) {
        None => None,
        Some(jd) => {
            let je = skip_ws(s, jd);
            if je < n {
                let ce = s[je];
                if ce == ',' {
                    let jn = skip_ws(s, je + 1);
                    skip_array_rest(s, jn)
                } else if ce == ']' {
                    Some(je + 1)
                } else {
                    None
                }
            } else {
                None
            }
        },
    }
}

fn health_members(
    s: &Vec<char>,
    i: usize,
    clickhouse: Option<String>,
    postgres: Option<String>,
) -> (r: Option<(String, String, usize)>)
    requires
        i <= s@.len(),
    ensures
        match spec_health_members(s@, i as int, opt_chars(clickhouse), opt_chars(postgres)) {
            Some((c, p, j)) => r is Some && r.unwrap().0@ == c && r.unwrap().1@ == p
                && r.unwrap().2 as int == j && i < j <= s@.len(),
            None => r is None,
        },
    decreases s@.len() - i, 0int,
{
    match parse_string_at(s, i) {
        None => None,
        Some((key, j)) => {
            let jc = skip_ws(s, j);
            if jc < s.len() {
                let cc = s[jc];
                if cc == ':' {
                    let jv = skip_ws(s, jc + 1);
                    let clickhouse_key = String::from_str("clickhouse");
                    let postgres_key = String::from_str("postgres");
                    if key == clickhouse_key {
                        if clickhouse.is_some() {
                            None
                        } else {
                            match parse_string_at(s, jv) {
                                None => None,
                                Some((value, jd)) => health_rest(s, jd, Some(value), postgres),
                            }
                        }
                    } else if key == postgres_key {
                        if postgres.is_some() {
                            None
                        } else {
                            match parse_string_at(s, jv) {
                                None => None,
                                Some((value, jd)) => health_rest(s, jd, clickhouse, Some(value)),
                            }
                        }
                    } else {
                        match skip_value(s, jv) {
                            None => None,
                            Some(jd) => health_rest(s, jd, clickhouse, postgres),
                        }
                    }
                } else {
                    None
                }
            } else {
                None
            }
        },
    }
}

fn health_rest(
    s: &Vec<char>,
    i: usize,
    clickhouse: Option<String>,
    postgres: Option<String>,
) -> (r: Option<(String, String, usize)>)
    requires
        i <= s@.len(),
    ensures
        match spec_health_rest(s@, i as int, opt_chars(clickhouse), opt_chars(postgres)) {
            Some((c, p, j)) => r is Some && r.unwrap().0@ == c && r.unwrap().1@ == p
                && r.unwrap().2 as int == j && i < j <= s@.len(),
            None => r is None,
        },
    decreases s@.len() - i, 1int,
{
    let j = skip_ws(s, i);
    if j < s.len() {
        let c = s[j];
        if c == ',' {
            let jn = skip_ws(s, j + 1);
            health_members(s, jn, clickhouse, postgres)
        } else if c == '}' {
            match (clickhouse, postgres) {
                (Some(cv), Some(pv)) => Some((cv, pv, j + 1)),
                _ => None,
            }
        } else {
            None
        }
    } else {
        None
    }
}

fn parse_health_chars(s: &Vec<char>) -> (r: Option<HealthResponse>)
    ensures
        match spec_parse_health(s@) {
            Some((c, p)) => r is Some && r.unwrap().clickhouse@ == c && r.unwrap().postgres@ == p,
            None => r is None,
        },
{
    let i0 = skip_ws(s, 0);
    if !(i0 < s.len()) {
        return None;
    }
    if !(s[i0] == '{') {
        return None;
    }
    let i1 = skip_ws(s, i0 + 1);
    match health_members(s, i1, None, None) {
        None => None,
        Some((clickhouse, postgres, jend)) => {
            if skip_ws(s, jend) == s.len() {
                Some(HealthResponse { clickhouse, postgres })
            } else {
                None
            }
        },
    }
}

/// Decodes a health body: the response exactly when the bytes are valid
/// UTF-8 and the health grammar accepts the text, and nothing otherwise.
pub fn parse_health_body(body: &Vec<u8>) -> (r: Option<HealthResponse>)
    ensures
        health_body_ok(body@) ==> r is Some && r.unwrap().clickhouse@ == spec_health_fields(
            body@,
        ).0 && r.unwrap().postgres@ == spec_health_fields(body@).1,
        !health_body_ok(body@) ==> r is None,
{
    match utf8_to_str(body.as_slice()) {
        None => None,
        Some(s) => {
            let chars = str_to_chars(s);
            parse_health_chars(&chars)
        },
    }
}

/// Interprets a response of the health endpoint: a non-success status fails
/// with the status and raw body, a success status yields the decoded health
/// response, and a success whose body does not decode fails as a decode
/// error — never as a failed request.
pub fn interpret_health_response(status: u16, body: Vec<u8>) -> (r: Result<HealthResponse, Error>)
    ensures
        !is_success_status(status) ==> (r matches Err(
            Error::RequestFailed { status: st, body: b },
        ) && st == status && b@ == body@),
        is_success_status(status) && health_body_ok(body@) ==> (r matches Ok(h) && h.clickhouse@
            == spec_health_fields(body@).0 && h.postgres@ == spec_health_fields(body@).1),
        is_success_status(status) && !health_body_ok(body@) ==> (r matches Err(
            Error::Decode { body: b },
        ) && b@ == body@),
{
    if !(200 <= status && status < 300) {
        return Err(Error::RequestFailed { status, body });
    }
    match parse_health_body(&body) {
        Some(h) => Ok(h),
        None => Err(Error::Decode { body }),
    }
}

} // verus!
