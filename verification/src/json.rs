use vstd::prelude::*;
use vstd::string::StringSliceAdditionalSpecFns;
use vstd::utf8::decode_utf8;
use vstd::utf8::encode_scalar;
use vstd::utf8::is_scalar;
use vstd::utf8::valid_utf8;

use crate::status::FetchError;
use crate::status::StatusView;
use crate::status::VpnStatus;
use crate::status::view_opt_string;

verus! {

// ---------------------------------------------------------------------------
// Byte classes of the response grammar (a JSON document held as bytes).
// ---------------------------------------------------------------------------
pub open spec fn is_ws_byte(c: u8) -> bool {
    c == 0x20 || c == 0x09 || c == 0x0a || c == 0x0d
}

fn is_ws(c: u8) -> (r: bool)
    ensures
        r == is_ws_byte(c),
{
    c == 0x20 || c == 0x09 || c == 0x0a || c == 0x0d
}

pub open spec fn is_digit_byte(c: u8) -> bool {
    0x30 <= c <= 0x39
}

fn is_digit(c: u8) -> (r: bool)
    ensures
        r == is_digit_byte(c),
{
    0x30 <= c && c <= 0x39
}

/// The value of one hexadecimal digit, in either case.
pub open spec fn spec_hex_val(c: u8) -> Option<u32> {
    if 0x30 <= c <= 0x39 {
        Some((c - 0x30) as u32)
    } else if 0x41 <= c <= 0x46 {
        Some((c - 0x41 + 10) as u32)
    } else if 0x61 <= c <= 0x66 {
        Some((c - 0x61 + 10) as u32)
    } else {
        None
    }
}

fn hex_val(c: u8) -> (r: Option<u32>)
    ensures
        r == spec_hex_val(c),
{
    if 0x30 <= c && c <= 0x39 {
        Some((c - 0x30) as u32)
    } else if 0x41 <= c && c <= 0x46 {
        Some((c - 0x41 + 10) as u32)
    } else if 0x61 <= c && c <= 0x66 {
        Some((c - 0x61 + 10) as u32)
    } else {
        None
    }
}

/// The value of the four hexadecimal digits at `i`, if they are there.
pub open spec fn spec_hex4(s: Seq<u8>, i: int) -> Option<u32> {
    if 0 <= i && i + 4 <= s.len() {
        match (spec_hex_val(s[i]), spec_hex_val(s[i + 1]), spec_hex_val(s[i + 2]), spec_hex_val(
            s[i + 3],
        )) {
            (Some(a), Some(b), Some(c), Some(d)) => Some(
                (a * 0x1000 + b * 0x100 + c * 0x10 + d) as u32,
            ),
            _ => None,
        }
    } else {
        None
    }
}

fn hex4(s: &Vec<u8>, i: usize) -> (r: Option<u32>)
    requires
        i <= s@.len(),
    ensures
        r == spec_hex4(s@, i as int),
        r is Some ==> i + 4 <= s@.len(),
{
    if s.len() - i >= 4 {
        let (c0, c1, c2, c3) = (s[i], s[i + 1], s[i + 2], s[i + 3]);
        match (hex_val(c0), hex_val(c1), hex_val(c2), hex_val(c3)) {
            (Some(a), Some(b), Some(c), Some(d)) => Some(a * 0x1000 + b * 0x100 + c * 0x10 + d),
            _ => None,
        }
    } else {
        None
    }
}

/// What a one-character escape stands for: the named control characters
/// and the three characters that may also appear escaped.
pub open spec fn spec_escape_byte(e: u8) -> Option<u8> {
    if e == 0x22 {
        Some(0x22)
    } else if e == 0x5c {
        Some(0x5c)
    } else if e == 0x2f {
        Some(0x2f)
    } else if e == 0x62 {
        Some(0x08)
    } else if e == 0x66 {
        Some(0x0c)
    } else if e == 0x6e {
        Some(0x0a)
    } else if e == 0x72 {
        Some(0x0d)
    } else if e == 0x74 {
        Some(0x09)
    } else {
        None
    }
}

fn escape_byte(e: u8) -> (r: Option<u8>)
    ensures
        r == spec_escape_byte(e),
{
    if e == 0x22 {
        Some(0x22)
    } else if e == 0x5c {
        Some(0x5c)
    } else if e == 0x2f {
        Some(0x2f)
    } else if e == 0x62 {
        Some(0x08)
    } else if e == 0x66 {
        Some(0x0c)
    } else if e == 0x6e {
        Some(0x0a)
    } else if e == 0x72 {
        Some(0x0d)
    } else if e == 0x74 {
        Some(0x09)
    } else {
        None
    }
}

/// The UTF-8 encoding of a scalar value, as executable code.
fn encode_scalar_vec(v: u32) -> (r: Vec<u8>)
    requires
        is_scalar(v),
    ensures
        r@ == encode_scalar(v),
{
    let mut out: Vec<u8> = Vec::new();
    if v <= 0x7F {
        assert((v & 0x7F) <= 0x7F) by (bit_vector);
        out.push((v & 0x7F) as u8);
        assert(out@ =~= encode_scalar(v));
    } else if v <= 0x7FF {
        assert(((v >> 6) & 0x1F) <= 0x1F && (v & 0x3F) <= 0x3F) by (bit_vector);
        out.push(0xC0u8 | (((v >> 6) & 0x1F) as u8));
        out.push(0x80u8 | ((v & 0x3F) as u8));
        assert(out@ =~= encode_scalar(v));
    } else if v <= 0xFFFF {
        assert(((v >> 12) & 0x0F) <= 0x0F && ((v >> 6) & 0x3F) <= 0x3F && (v & 0x3F) <= 0x3F)
            by (bit_vector);
        out.push(0xE0u8 | (((v >> 12) & 0x0F) as u8));
        out.push(0x80u8 | (((v >> 6) & 0x3F) as u8));
        out.push(0x80u8 | ((v & 0x3F) as u8));
        assert(out@ =~= encode_scalar(v));
    } else {
        assert(((v >> 18) & 0x7) <= 0x7 && ((v >> 12) & 0x3F) <= 0x3F && ((v >> 6) & 0x3F) <= 0x3F
            && (v & 0x3F) <= 0x3F) by (bit_vector);
        out.push(0xF0u8 | (((v >> 18) & 0x7) as u8));
        out.push(0x80u8 | (((v >> 12) & 0x3F) as u8));
        out.push(0x80u8 | (((v >> 6) & 0x3F) as u8));
        out.push(0x80u8 | ((v & 0x3F) as u8));
        assert(out@ =~= encode_scalar(v));
    }
    out
}

/// A string body, read from just after the opening quote: the decoded
/// bytes (escapes resolved, escaped scalars in their UTF-8 encoding) and
/// the position just after the closing quote. `None` on an unterminated
/// string, a bad escape, a lone surrogate, or a raw control byte.
pub open spec fn spec_parse_string(s: Seq<u8>, i: int) -> Option<(Seq<u8>, int)>
    decreases s.len() - i,
{
    if !(0 <= i && i < s.len()) {
        None
    } else if s[i] == 0x22 {
        Some((seq![], i + 1))
    } else if s[i] == 0x5c {
        if i + 2 > s.len() {
            None
        } else if s[i + 1] == 0x75 {
            if i + 6 > s.len() {
                None
            } else {
                match spec_hex4(s, i + 2) {
                    None => None,
                    Some(cp) => if 0xD800 <= cp < 0xDC00 {
                        if i + 12 > s.len() || s[i + 6] != 0x5c || s[i + 7] != 0x75 {
                            None
                        } else {
                            match spec_hex4(s, i + 8) {
                                None => None,
                                Some(lo) => if 0xDC00 <= lo < 0xE000 {
                                    match spec_parse_string(s, i + 12) {
                                        None => None,
                                        Some(p) => Some(
                                            (
                                                encode_scalar(
                                                    (0x10000 + (cp - 0xD800) * 0x400 + (lo
                                                        - 0xDC00)) as u32,
                                                ) + p.0,
                                                p.1,
                                            ),
                                        ),
                                    }
                                } else {
                                    None
                                },
                            }
                        }
                    } else if 0xDC00 <= cp < 0xE000 {
                        None
                    } else {
                        match spec_parse_string(s, i + 6) {
                            None => None,
                            Some(p) => Some((encode_scalar(cp) + p.0, p.1)),
                        }
                    },
                }
            }
        } else {
            match spec_escape_byte(s[i + 1]) {
                None => None,
                Some(b) => match spec_parse_string(s, i + 2) {
                    None => None,
                    Some(p) => Some((seq![b] + p.0, p.1)),
                },
            }
        }
    } else if s[i] < 0x20 {
        None
    } else {
        match spec_parse_string(s, i + 1) {
            None => None,
            Some(p) => Some((seq![s[i]] + p.0, p.1)),
        }
    }
}

proof fn lemma_parse_string_bounds(s: Seq<u8>, i: int)
    ensures
        spec_parse_string(s, i) matches Some(p) ==> i < p.1 <= s.len(),
    decreases s.len() - i,
{
    if 0 <= i && i < s.len() {
        if s[i] == 0x5c {
            if i + 2 <= s.len() {
                if s[i + 1] == 0x75 {
                    if i + 6 <= s.len() {
                        match spec_hex4(s, i + 2) {
                            Some(cp) => {
                                if 0xD800 <= cp < 0xDC00 {
                                    if i + 12 <= s.len() {
                                        lemma_parse_string_bounds(s, i + 12);
                                    }
                                } else {
                                    lemma_parse_string_bounds(s, i + 6);
                                }
                            },
                            None => {},
                        }
                    }
                } else {
                    lemma_parse_string_bounds(s, i + 2);
                }
            }
        } else if s[i] != 0x22 {
            lemma_parse_string_bounds(s, i + 1);
        }
    }
}

fn parse_string(s: &Vec<u8>, i: usize) -> (r: Option<(Vec<u8>, usize)>)
    requires
        i <= s@.len(),
    ensures
        match r {
            Some(p) => spec_parse_string(s@, i as int) == Some((p.0@, p.1 as int)) && i < p.1
                <= s@.len(),
            None => spec_parse_string(s@, i as int) is None,
        },
    decreases s@.len() - i,
{
    proof {
        lemma_parse_string_bounds(s@, i as int);
    }
    if i >= s.len() {
        None
    } else {
        let c = s[i];
        if c == 0x22 {
            Some((Vec::new(), i + 1))
        } else if c == 0x5c {
            if s.len() - i < 2 {
                None
            } else if s[i + 1] == 0x75 {
                if s.len() - i < 6 {
                    None
                } else {
                    match hex4(s, i + 2) {
                        None => None,
                        Some(cp) => if 0xD800 <= cp && cp < 0xDC00 {
                            if s.len() - i < 12 || s[i + 6] != 0x5c || s[i + 7] != 0x75 {
                                None
                            } else {
                                match hex4(s, i + 8) {
                                    None => None,
                                    Some(lo) => if 0xDC00 <= lo && lo < 0xE000 {
                                        match parse_string(s, i + 12) {
                                            None => None,
                                            Some((rest, j)) => {
                                                let scalar = 0x10000 + (cp - 0xD800) * 0x400 + (lo
                                                    - 0xDC00);
                                                let mut out = encode_scalar_vec(scalar);
                                                let mut rest = rest;
                                                out.append(&mut rest);
                                                Some((out, j))
                                            },
                                        }
                                    } else {
                                        None
                                    },
                                }
                            }
                        } else if 0xDC00 <= cp && cp < 0xE000 {
                            None
                        } else {
                            match parse_string(s, i + 6) {
                                None => None,
                                Some((rest, j)) => {
                                    let mut out = encode_scalar_vec(cp);
                                    let mut rest = rest;
                                    out.append(&mut rest);
                                    Some((out, j))
                                },
                            }
                        },
                    }
                }
            } else {
                match escape_byte(s[i + 1]) {
                    None => None,
                    Some(b) => match parse_string(s, i + 2) {
                        None => None,
                        Some((rest, j)) => {
                            let mut out = rest;
                            out.insert(0, b);
                            Some((out, j))
                        },
                    },
                }
            }
        } else if c < 0x20 {
            None
        } else {
            match parse_string(s, i + 1) {
                None => None,
                Some((rest, j)) => {
                    let mut out = rest;
                    out.insert(0, c);
                    Some((out, j))
                },
            }
        }
    }
}

/// The first position at or after `i` that holds no whitespace.
pub open spec fn spec_skip_ws(s: Seq<u8>, i: int) -> int
    decreases s.len() - i,
{
    if 0 <= i && i < s.len() && is_ws_byte(s[i]) {
        spec_skip_ws(s, i + 1)
    } else {
        i
    }
}

fn skip_ws(s: &Vec<u8>, i: usize) -> (r: usize)
    requires
        i <= s@.len(),
    ensures
        r as int == spec_skip_ws(s@, i as int),
        i <= r <= s@.len(),
    decreases s@.len() - i,
{
    if i < s.len() && is_ws(s[i]) {
        skip_ws(s, i + 1)
    } else {
        i
    }
}

/// The first position at or after `i` that holds no decimal digit.
pub open spec fn spec_skip_digits(s: Seq<u8>, i: int) -> int
    decreases s.len() - i,
{
    if 0 <= i && i < s.len() && is_digit_byte(s[i]) {
        spec_skip_digits(s, i + 1)
    } else {
        i
    }
}

fn skip_digits(s: &Vec<u8>, i: usize) -> (r: usize)
    requires
        i <= s@.len(),
    ensures
        r as int == spec_skip_digits(s@, i as int),
        i <= r <= s@.len(),
    decreases s@.len() - i,
{
    if i < s.len() && is_digit(s[i]) {
        skip_digits(s, i + 1)
    } else {
        i
    }
}

/// The position after the fraction and exponent parts of a number, if the
/// bytes from `k` on are well-formed there.
pub open spec fn spec_skip_frac_exp(s: Seq<u8>, k: int) -> Option<int> {
    let k2 = if 0 <= k && k < s.len() && s[k] == 0x2e {
        if k + 1 < s.len() && is_digit_byte(s[k + 1]) {
            Some(spec_skip_digits(s, k + 1))
        } else {
            None
        }
    } else {
        Some(k)
    };
    match k2 {
        None => None,
        Some(k2) => if 0 <= k2 && k2 < s.len() && (s[k2] == 0x65 || s[k2] == 0x45) {
            let e = if k2 + 1 < s.len() && (s[k2 + 1] == 0x2b || s[k2 + 1] == 0x2d) {
                k2 + 2
            } else {
                k2 + 1
            };
            if e < s.len() && is_digit_byte(s[e]) {
                Some(spec_skip_digits(s, e))
            } else {
                None
            }
        } else {
            Some(k2)
        },
    }
}

fn skip_frac_exp(s: &Vec<u8>, k: usize) -> (r: Option<usize>)
    requires
        k <= s@.len(),
    ensures
        match r {
            Some(j) => spec_skip_frac_exp(s@, k as int) == Some(j as int) && j <= s@.len(),
            None => spec_skip_frac_exp(s@, k as int) is None,
        },
{
    let k2 = if k < s.len() && s[k] == 0x2e {
        if k + 1 < s.len() && is_digit(s[k + 1]) {
            Some(skip_digits(s, k + 1))
        } else {
            None
        }
    } else {
        Some(k)
    };
    match k2 {
        None => None,
        Some(k2) => {
            if k2 < s.len() && (s[k2] == 0x65 || s[k2] == 0x45) {
                let e = if k2 + 1 < s.len() && (s[k2 + 1] == 0x2b || s[k2 + 1] == 0x2d) {
                    k2 + 2
                } else {
                    k2 + 1
                };
                if e < s.len() && is_digit(s[e]) {
                    Some(skip_digits(s, e))
                } else {
                    None
                }
            } else {
                Some(k2)
            }
        },
    }
}

/// The position after a number whose first byte stands at `i`, if the
/// bytes there form one: an optional minus sign, an integer part with no
/// leading zero, then optional fraction and exponent parts.
pub open spec fn spec_skip_number(s: Seq<u8>, i: int) -> Option<int> {
    if !(0 <= i && i < s.len()) {
        None
    } else {
        let j = if s[i] == 0x2d {
            i + 1
        } else {
            i
        };
        if !(j < s.len()) {
            None
        } else if s[j] == 0x30 {
            spec_skip_frac_exp(s, j + 1)
        } else if is_digit_byte(s[j]) {
            spec_skip_frac_exp(s, spec_skip_digits(s, j))
        } else {
            None
        }
    }
}

fn skip_number(s: &Vec<u8>, i: usize) -> (r: Option<usize>)
    requires
        i <= s@.len(),
    ensures
        match r {
            Some(j) => spec_skip_number(s@, i as int) == Some(j as int) && j <= s@.len(),
            None => spec_skip_number(s@, i as int) is None,
        },
{
    if i >= s.len() {
        None
    } else {
        let j = if s[i] == 0x2d {
            i + 1
        } else {
            i
        };
        if j >= s.len() {
            None
        } else if s[j] == 0x30 {
            skip_frac_exp(s, j + 1)
        } else if is_digit(s[j]) {
            skip_frac_exp(s, skip_digits(s, j))
        } else {
            None
        }
    }
}

/// The position after the value whose first byte stands at `i`, if the
/// bytes there form one. The fuel bounds the recursion; one unit is spent
/// per nesting level and per member, each of which consumes at least one
/// byte, so a fuel of one more than the document's length never runs out.
pub open spec fn spec_skip_value(s: Seq<u8>, i: int, fuel: nat) -> Option<int>
    decreases fuel,
{
    if fuel == 0 {
        None
    } else if !(0 <= i && i < s.len()) {
        None
    } else {
        let c = s[i];
        if c == 0x74 {
            if i + 4 <= s.len() && s[i + 1] == 0x72 && s[i + 2] == 0x75 && s[i + 3] == 0x65 {
                Some(i + 4)
            } else {
                None
            }
        } else if c == 0x66 {
            if i + 5 <= s.len() && s[i + 1] == 0x61 && s[i + 2] == 0x6c && s[i + 3] == 0x73 && s[i
                + 4] == 0x65 {
                Some(i + 5)
            } else {
                None
            }
        } else if c == 0x6e {
            if i + 4 <= s.len() && s[i + 1] == 0x75 && s[i + 2] == 0x6c && s[i + 3] == 0x6c {
                Some(i + 4)
            } else {
                None
            }
        } else if c == 0x22 {
            match spec_parse_string(s, i + 1) {
                Some(p) => Some(p.1),
                None => None,
            }
        } else if c == 0x7b {
            let j = spec_skip_ws(s, i + 1);
            if j < s.len() && s[j] == 0x7d {
                Some(j + 1)
            } else {
                spec_skip_members(s, j, (fuel - 1) as nat)
            }
        } else if c == 0x5b {
            let j = spec_skip_ws(s, i + 1);
            if j < s.len() && s[j] == 0x5d {
                Some(j + 1)
            } else {
                spec_skip_elems(s, j, (fuel - 1) as nat)
            }
        } else if c == 0x2d || is_digit_byte(c) {
            spec_skip_number(s, i)
        } else {
            None
        }
    }
}

/// The position after a non-empty member list and its closing brace,
/// reading from the first byte of a key.
pub open spec fn spec_skip_members(s: Seq<u8>, i: int, fuel: nat) -> Option<int>
    decreases fuel,
{
    if fuel == 0 {
        None
    } else if !(0 <= i && i < s.len() && s[i] == 0x22) {
        None
    } else {
        match spec_parse_string(s, i + 1) {
            None => None,
            Some(p) => {
                let k = spec_skip_ws(s, p.1);
                if !(k < s.len() && s[k] == 0x3a) {
                    None
                } else {
                    match spec_skip_value(s, spec_skip_ws(s, k + 1), (fuel - 1) as nat) {
                        None => None,
                        Some(w) => {
                            let x = spec_skip_ws(s, w);
                            if x < s.len() && s[x] == 0x2c {
                                spec_skip_members(s, spec_skip_ws(s, x + 1), (fuel - 1) as nat)
                            } else if x < s.len() && s[x] == 0x7d {
                                Some(x + 1)
                            } else {
                                None
                            }
                        },
                    }
                }
            },
        }
    }
}

/// The position after a non-empty element list and its closing bracket,
/// reading from the first byte of an element.
pub open spec fn spec_skip_elems(s: Seq<u8>, i: int, fuel: nat) -> Option<int>
    decreases fuel,
{
    if fuel == 0 {
        None
    } else {
        match spec_skip_value(s, i, (fuel - 1) as nat) {
            None => None,
            Some(w) => {
                let x = spec_skip_ws(s, w);
                if x < s.len() && s[x] == 0x2c {
                    spec_skip_elems(s, spec_skip_ws(s, x + 1), (fuel - 1) as nat)
                } else if x < s.len() && s[x] == 0x5d {
                    Some(x + 1)
                } else {
                    None
                }
            },
        }
    }
}

fn skip_value(s: &Vec<u8>, i: usize, fuel: usize) -> (r: Option<usize>)
    requires
        i <= s@.len(),
    ensures
        match r {
            Some(j) => spec_skip_value(s@, i as int, fuel as nat) == Some(j as int) && j
                <= s@.len(),
            None => spec_skip_value(s@, i as int, fuel as nat) is None,
        },
    decreases fuel,
{
    if fuel == 0 {
        None
    } else if i >= s.len() {
        None
    } else {
        let c = s[i];
        if c == 0x74 {
            if s.len() - i >= 4 && s[i + 1] == 0x72 && s[i + 2] == 0x75 && s[i + 3] == 0x65 {
                Some(i + 4)
            } else {
                None
            }
        } else if c == 0x66 {
            if s.len() - i >= 5 && s[i + 1] == 0x61 && s[i + 2] == 0x6c && s[i + 3] == 0x73 && s[i
                + 4] == 0x65 {
                Some(i + 5)
            } else {
                None
            }
        } else if c == 0x6e {
            if s.len() - i >= 4 && s[i + 1] == 0x75 && s[i + 2] == 0x6c && s[i + 3] == 0x6c {
                Some(i + 4)
            } else {
                None
            }
        } else if c == 0x22 {
            match parse_string(s, i + 1) {
                Some((_, j)) => Some(j),
                None => None,
            }
        } else if c == 0x7b {
            let j = skip_ws(s, i + 1);
            if j < s.len() && s[j] == 0x7d {
                Some(j + 1)
            } else {
                skip_members(s, j, fuel - 1)
            }
        } else if c == 0x5b {
            let j = skip_ws(s, i + 1);
            if j < s.len() && s[j] == 0x5d {
                Some(j + 1)
            } else {
                skip_elems(s, j, fuel - 1)
            }
        } else if c == 0x2d || is_digit(c) {
            skip_number(s, i)
        } else {
            None
        }
    }
}

fn skip_members(s: &Vec<u8>, i: usize, fuel: usize) -> (r: Option<usize>)
    requires
        i <= s@.len(),
    ensures
        match r {
            Some(j) => spec_skip_members(s@, i as int, fuel as nat) == Some(j as int) && j
                <= s@.len(),
            None => spec_skip_members(s@, i as int, fuel as nat) is None,
        },
    decreases fuel,
{
    if fuel == 0 {
        None
    } else if !(i < s.len() && s[i] == 0x22) {
        None
    } else {
        match parse_string(s, i + 1) {
            None => None,
            Some((_, p1)) => {
                let k = skip_ws(s, p1);
                if !(k < s.len() && s[k] == 0x3a) {
                    None
                } else {
                    match skip_value(s, skip_ws(s, k + 1), fuel - 1) {
                        None => None,
                        Some(w) => {
                            let x = skip_ws(s, w);
                            if x < s.len() && s[x] == 0x2c {
                                skip_members(s, skip_ws(s, x + 1), fuel - 1)
                            } else if x < s.len() && s[x] == 0x7d {
                                Some(x + 1)
                            } else {
                                None
                            }
                        },
                    }
                }
            },
        }
    }
}

fn skip_elems(s: &Vec<u8>, i: usize, fuel: usize) -> (r: Option<usize>)
    requires
        i <= s@.len(),
    ensures
        match r {
            Some(j) => spec_skip_elems(s@, i as int, fuel as nat) == Some(j as int) && j
                <= s@.len(),
            None => spec_skip_elems(s@, i as int, fuel as nat) is None,
        },
    decreases fuel,
{
    if fuel == 0 {
        None
    } else {
        match skip_value(s, i, fuel - 1) {
            None => None,
            Some(w) => {
                let x = skip_ws(s, w);
                if x < s.len() && s[x] == 0x2c {
                    skip_elems(s, skip_ws(s, x + 1), fuel - 1)
                } else if x < s.len() && s[x] == 0x5d {
                    Some(x + 1)
                } else {
                    None
                }
            },
        }
    }
}

// ---------------------------------------------------------------------------
// The fields the status document is read for.
// ---------------------------------------------------------------------------
pub open spec fn key_exit_ip() -> Seq<u8> {
    "mullvad_exit_ip".spec_bytes()
}

pub open spec fn key_ip() -> Seq<u8> {
    "ip".spec_bytes()
}

pub open spec fn key_country() -> Seq<u8> {
    "country".spec_bytes()
}

pub open spec fn key_city() -> Seq<u8> {
    "city".spec_bytes()
}

pub open spec fn key_hostname() -> Seq<u8> {
    "mullvad_exit_ip_hostname".spec_bytes()
}

pub open spec fn key_server_type() -> Seq<u8> {
    "mullvad_server_type".spec_bytes()
}

/// The recognized fields as read so far: `None` while a field has not been
/// seen, so that a repeated field can be refused.
pub struct FieldsV {
    pub exit: Option<bool>,
    pub ip: Option<Option<Seq<u8>>>,
    pub country: Option<Option<Seq<u8>>>,
    pub city: Option<Option<Seq<u8>>>,
    pub hostname: Option<Option<Seq<u8>>>,
    pub server_type: Option<Option<Seq<u8>>>,
}

pub open spec fn empty_fields() -> FieldsV {
    FieldsV {
        exit: None,
        ip: None,
        country: None,
        city: None,
        hostname: None,
        server_type: None,
    }
}

struct Fields {
    exit: Option<bool>,
    ip: Option<Option<Vec<u8>>>,
    country: Option<Option<Vec<u8>>>,
    city: Option<Option<Vec<u8>>>,
    hostname: Option<Option<Vec<u8>>>,
    server_type: Option<Option<Vec<u8>>>,
}

spec fn view_bytes_field(o: Option<Option<Vec<u8>>>) -> Option<Option<Seq<u8>>> {
    match o {
        None => None,
        Some(None) => Some(None),
        Some(Some(v)) => Some(Some(v@)),
    }
}

spec fn fields_view(f: Fields) -> FieldsV {
    FieldsV {
        exit: f.exit,
        ip: view_bytes_field(f.ip),
        country: view_bytes_field(f.country),
        city: view_bytes_field(f.city),
        hostname: view_bytes_field(f.hostname),
        server_type: view_bytes_field(f.server_type),
    }
}

/// A metadata field's value: a string gives its decoded bytes, a `null`
/// counts as absent, anything else is refused.
pub open spec fn spec_string_field(s: Seq<u8>, v: int) -> Option<(Option<Seq<u8>>, int)> {
    if 0 <= v && v < s.len() && s[v] == 0x22 {
        match spec_parse_string(s, v + 1) {
            Some(p) => Some((Some(p.0), p.1)),
            None => None,
        }
    } else if 0 <= v && v + 4 <= s.len() && s[v] == 0x6e && s[v + 1] == 0x75 && s[v + 2] == 0x6c
        && s[v + 3] == 0x6c {
        Some((None, v + 4))
    } else {
        None
    }
}

fn string_field(s: &Vec<u8>, v: usize) -> (r: Option<(Option<Vec<u8>>, usize)>)
    requires
        v <= s@.len(),
    ensures
        match r {
            Some(p) => spec_string_field(s@, v as int) == Some(
                (
                    match p.0 {
                        Some(b) => Some(b@),
                        None => None,
                    },
                    p.1 as int,
                ),
            ) && p.1 <= s@.len(),
            None => spec_string_field(s@, v as int) is None,
        },
{
    if v < s.len() && s[v] == 0x22 {
        match parse_string(s, v + 1) {
            Some((b, j)) => Some((Some(b), j)),
            None => None,
        }
    } else if s.len() - v >= 4 && s[v] == 0x6e && s[v + 1] == 0x75 && s[v + 2] == 0x6c && s[v + 3]
        == 0x6c {
        Some((None, v + 4))
    } else {
        None
    }
}

/// How one member's value is read, given its key: a recognized field is
/// parsed at its type and recorded (a repeated one is refused), any other
/// member is checked and skipped.
pub open spec fn spec_field_value(
    s: Seq<u8>,
    v: int,
    acc: FieldsV,
    key: Seq<u8>,
    fuel: nat,
) -> Option<(FieldsV, int)> {
    if key == key_exit_ip() {
        if acc.exit is Some {
            None
        } else if 0 <= v && v + 4 <= s.len() && s[v] == 0x74 && s[v + 1] == 0x72 && s[v + 2]
            == 0x75 && s[v + 3] == 0x65 {
            Some((FieldsV { exit: Some(true), ..acc }, v + 4))
        } else if 0 <= v && v + 5 <= s.len() && s[v] == 0x66 && s[v + 1] == 0x61 && s[v + 2]
            == 0x6c && s[v + 3] == 0x73 && s[v + 4] == 0x65 {
            Some((FieldsV { exit: Some(false), ..acc }, v + 5))
        } else {
            None
        }
    } else if key == key_ip() {
        if acc.ip is Some {
            None
        } else {
            match spec_string_field(s, v) {
                Some((o, w)) => Some((FieldsV { ip: Some(o), ..acc }, w)),
                None => None,
            }
        }
    } else if key == key_country() {
        if acc.country is Some {
            None
        } else {
            match spec_string_field(s, v) {
                Some((o, w)) => Some((FieldsV { country: Some(o), ..acc }, w)),
                None => None,
            }
        }
    } else if key == key_city() {
        if acc.city is Some {
            None
        } else {
            match spec_string_field(s, v) {
                Some((o, w)) => Some((FieldsV { city: Some(o), ..acc }, w)),
                None => None,
            }
        }
    } else if key == key_hostname() {
        if acc.hostname is Some {
            None
        } else {
            match spec_string_field(s, v) {
                Some((o, w)) => Some((FieldsV { hostname: Some(o), ..acc }, w)),
                None => None,
            }
        }
    } else if key == key_server_type() {
        if acc.server_type is Some {
            None
        } else {
            match spec_string_field(s, v) {
                Some((o, w)) => Some((FieldsV { server_type: Some(o), ..acc }, w)),
                None => None,
            }
        }
    } else {
        match spec_skip_value(s, v, fuel) {
            Some(w) => Some((acc, w)),
            None => None,
        }
    }
}

fn bytes_eq(a: &Vec<u8>, b: &[u8]) -> (r: bool)
    ensures
        r == (a@ == b@),
{
    if a.len() != b.len() {
        return false;
    }
    let n = a.len();
    let mut i: usize = 0;
    while i < n
        invariant
            i <= n,
            n == a@.len() == b@.len(),
            forall|k: int| 0 <= k < i ==> a@[k] == b@[k],
        decreases n - i,
    {
        if a[i] != *vstd::slice::slice_index_get(b, i) {
            return false;
        }
        i += 1;
    }
    proof {
        assert(a@ =~= b@);
    }
    true
}

fn field_value(s: &Vec<u8>, v: usize, acc: Fields, key: &Vec<u8>, fuel: usize) -> (r: Option<
    (Fields, usize),
>)
    requires
        v <= s@.len(),
    ensures
        match r {
            Some(p) => spec_field_value(s@, v as int, fields_view(acc), key@, fuel as nat)
                == Some((fields_view(p.0), p.1 as int)) && p.1 <= s@.len(),
            None => spec_field_value(s@, v as int, fields_view(acc), key@, fuel as nat) is None,
        },
{
    let mut acc = acc;
    if bytes_eq(key, "mullvad_exit_ip".as_bytes()) {
        if acc.exit.is_some() {
            None
        } else if s.len() - v >= 4 && s[v] == 0x74 && s[v + 1] == 0x72 && s[v + 2] == 0x75 && s[v
            + 3] == 0x65 {
            acc.exit = Some(true);
            Some((acc, v + 4))
        } else if s.len() - v >= 5 && s[v] == 0x66 && s[v + 1] == 0x61 && s[v + 2] == 0x6c && s[v
            + 3] == 0x73 && s[v + 4] == 0x65 {
            acc.exit = Some(false);
            Some((acc, v + 5))
        } else {
            None
        }
    } else if bytes_eq(key, "ip".as_bytes()) {
        if acc.ip.is_some() {
            None
        } else {
            match string_field(s, v) {
                Some((o, w)) => {
                    acc.ip = Some(o);
                    Some((acc, w))
                },
                None => None,
            }
        }
    } else if bytes_eq(key, "country".as_bytes()) {
        if acc.country.is_some() {
            None
        } else {
            match string_field(s, v) {
                Some((o, w)) => {
                    acc.country = Some(o);
                    Some((acc, w))
                },
                None => None,
            }
        }
    } else if bytes_eq(key, "city".as_bytes()) {
        if acc.city.is_some() {
            None
        } else {
            match string_field(s, v) {
                Some((o, w)) => {
                    acc.city = Some(o);
                    Some((acc, w))
                },
                None => None,
            }
        }
    } else if bytes_eq(key, "mullvad_exit_ip_hostname".as_bytes()) {
        if acc.hostname.is_some() {
            None
        } else {
            match string_field(s, v) {
                Some((o, w)) => {
                    acc.hostname = Some(o);
                    Some((acc, w))
                },
                None => None,
            }
        }
    } else if bytes_eq(key, "mullvad_server_type".as_bytes()) {
        if acc.server_type.is_some() {
            None
        } else {
            match string_field(s, v) {
                Some((o, w)) => {
                    acc.server_type = Some(o);
                    Some((acc, w))
                },
                None => None,
            }
        }
    } else {
        match skip_value(s, v, fuel) {
            Some(w) => Some((acc, w)),
            None => None,
        }
    }
}

/// The member list of the status document, read for its recognized
/// fields from the first byte of a key.
pub open spec fn spec_decode_fields(
    s: Seq<u8>,
    i: int,
    acc: FieldsV,
    fuel: nat,
) -> Option<(FieldsV, int)>
    decreases fuel,
{
    if fuel == 0 {
        None
    } else if !(0 <= i && i < s.len() && s[i] == 0x22) {
        None
    } else {
        match spec_parse_string(s, i + 1) {
            None => None,
            Some(p) => {
                let k = spec_skip_ws(s, p.1);
                if !(k < s.len() && s[k] == 0x3a) {
                    None
                } else {
                    match spec_field_value(s, spec_skip_ws(s, k + 1), acc, p.0, (fuel - 1) as nat) {
                        None => None,
                        Some((acc2, w)) => {
                            let x = spec_skip_ws(s, w);
                            if x < s.len() && s[x] == 0x2c {
                                spec_decode_fields(s, spec_skip_ws(s, x + 1), acc2, (fuel - 1) as nat)
                            } else if x < s.len() && s[x] == 0x7d {
                                Some((acc2, x + 1))
                            } else {
                                None
                            }
                        },
                    }
                }
            },
        }
    }
}

fn decode_fields(s: &Vec<u8>, i: usize, acc: Fields, fuel: usize) -> (r: Option<(Fields, usize)>)
    requires
        i <= s@.len(),
    ensures
        match r {
            Some(p) => spec_decode_fields(s@, i as int, fields_view(acc), fuel as nat) == Some(
                (fields_view(p.0), p.1 as int),
            ) && p.1 <= s@.len(),
            None => spec_decode_fields(s@, i as int, fields_view(acc), fuel as nat) is None,
        },
    decreases fuel,
{
    if fuel == 0 {
        None
    } else if !(i < s.len() && s[i] == 0x22) {
        None
    } else {
        match parse_string(s, i + 1) {
            None => None,
            Some((key, p1)) => {
                let k = skip_ws(s, p1);
                if !(k < s.len() && s[k] == 0x3a) {
                    None
                } else {
                    match field_value(s, skip_ws(s, k + 1), acc, &key, fuel - 1) {
                        None => None,
                        Some((acc2, w)) => {
                            let x = skip_ws(s, w);
                            if x < s.len() && s[x] == 0x2c {
                                decode_fields(s, skip_ws(s, x + 1), acc2, fuel - 1)
                            } else if x < s.len() && s[x] == 0x7d {
                                Some((acc2, x + 1))
                            } else {
                                None
                            }
                        },
                    }
                }
            },
        }
    }
}

/// The whole status document: one object, surrounded by nothing but
/// whitespace, whose `mullvad_exit_ip` field must be present.
pub open spec fn spec_decode_raw(s: Seq<u8>) -> Option<FieldsV> {
    let i = spec_skip_ws(s, 0);
    if i < s.len() && s[i] == 0x7b {
        let j = spec_skip_ws(s, i + 1);
        let r = if j < s.len() && s[j] == 0x7d {
            Some((empty_fields(), j + 1))
        } else {
            spec_decode_fields(s, j, empty_fields(), (s.len() + 1) as nat)
        };
        match r {
            Some((f, k)) => if spec_skip_ws(s, k) == s.len() && f.exit is Some {
                Some(f)
            } else {
                None
            },
            None => None,
        }
    } else {
        None
    }
}

fn decode_raw(body: &Vec<u8>) -> (r: Option<Fields>)
    requires
        body@.len() < usize::MAX,
    ensures
        match r {
            Some(f) => spec_decode_raw(body@) == Some(fields_view(f)) && f.exit is Some,
            None => spec_decode_raw(body@) is None,
        },
{
    let empty = Fields {
        exit: None,
        ip: None,
        country: None,
        city: None,
        hostname: None,
        server_type: None,
    };
    let i = skip_ws(body, 0);
    if i < body.len() && body[i] == 0x7b {
        let j = skip_ws(body, i + 1);
        let r = if j < body.len() && body[j] == 0x7d {
            Some((empty, j + 1))
        } else {
            decode_fields(body, j, empty, body.len() + 1)
        };
        match r {
            Some((f, k)) => {
                if skip_ws(body, k) == body.len() && f.exit.is_some() {
                    Some(f)
                } else {
                    None
                }
            },
            None => None,
        }
    } else {
        None
    }
}

/// Relies on String::from_utf8: it returns `Ok` exactly when the bytes
/// are valid UTF-8, and the returned string then holds exactly those
/// bytes.
#[verifier::external_body]
fn bytes_to_string(v: Vec<u8>) -> (r: Option<String>)
    ensures
        r matches Some(s) ==> valid_utf8(v@) && s@ == decode_utf8(v@),
        r is None ==> !valid_utf8(v@),
{
    String::from_utf8(v).ok()
}

/// A recognized metadata field as it reaches the caller: absent stays
/// absent, present bytes must decode as UTF-8.
pub open spec fn spec_utf8_field(o: Option<Option<Seq<u8>>>) -> Option<Option<Seq<char>>> {
    match o {
        None => Some(None),
        Some(None) => Some(None),
        Some(Some(b)) => if valid_utf8(b) {
            Some(Some(decode_utf8(b)))
        } else {
            None
        },
    }
}

fn utf8_field(o: Option<Option<Vec<u8>>>) -> (r: Option<Option<String>>)
    ensures
        match r {
            Some(os) => spec_utf8_field(view_bytes_field(o)) == Some(view_opt_string(os)),
            None => spec_utf8_field(view_bytes_field(o)) is None,
        },
{
    match o {
        None => Some(None),
        Some(None) => Some(None),
        Some(Some(v)) => match bytes_to_string(v) {
            Some(s) => Some(Some(s)),
            None => None,
        },
    }
}

/// What the status endpoint's response body denotes, if anything: the
/// connectivity flag and the decoded metadata fields.
pub open spec fn spec_decode_status(s: Seq<u8>) -> Option<StatusView> {
    match spec_decode_raw(s) {
        None => None,
        Some(f) => match f.exit {
            None => None,
            Some(c) => match (
                spec_utf8_field(f.ip),
                spec_utf8_field(f.country),
                spec_utf8_field(f.city),
                spec_utf8_field(f.hostname),
                spec_utf8_field(f.server_type),
            ) {
                (Some(ip), Some(country), Some(city), Some(hostname), Some(server_type)) => Some(
                    StatusView { connected: c, ip, country, city, hostname, server_type },
                ),
                _ => None,
            },
        },
    }
}

/// Decode the response body of the status endpoint into the normalized
/// connection state. A body that does not denote a status document is a
/// decode failure, the one error this step can produce.
pub fn decode_status(body: &Vec<u8>) -> (r: Result<VpnStatus, FetchError>)
    requires
        body@.len() < usize::MAX,
    ensures
        r matches Ok(st) ==> spec_decode_status(body@) == Some(st@),
        r matches Err(e) ==> spec_decode_status(body@) is None && e == FetchError::Decode,
{
    match decode_raw(body) {
        None => Err(FetchError::Decode),
        Some(f) => {
            let connected = match f.exit {
                Some(c) => c,
                None => unreached(),
            };
            match (
                utf8_field(f.ip),
                utf8_field(f.country),
                utf8_field(f.city),
                utf8_field(f.hostname),
                utf8_field(f.server_type),
            ) {
                (Some(ip), Some(country), Some(city), Some(hostname), Some(server_type)) => Ok(
                    VpnStatus { connected, ip, country, city, hostname, server_type },
                ),
                _ => Err(FetchError::Decode),
            }
        },
    }
}

} // verus!
