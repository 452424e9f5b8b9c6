//! The textual JSON layer of the settings file: whitespace, strings with
//! escapes, numbers, the three literals, and a skipper for values of
//! unknown fields.  Each executable routine returns exactly what its
//! specification-level grammar function computes on the character
//! sequence.

use vstd::prelude::*;

verus! {

pub open spec fn is_ws(c: char) -> bool {
    c == ' ' || c == '\n' || c == '\r' || c == '\t'
}

pub open spec fn is_digit(c: char) -> bool {
    '0' <= c && c <= '9'
}

/// Numeric value of a decimal digit character.
pub open spec fn digit_of(c: char) -> nat {
    (c as int - '0' as int) as nat
}

pub open spec fn spec_skip_ws(s: Seq<char>, i: int) -> int
    decreases s.len() - i,
{
    if 0 <= i < s.len() && is_ws(s[i]) {
        spec_skip_ws(s, i + 1)
    } else {
        i
    }
}

pub fn skip_ws(s: &Vec<char>, i: usize) -> (r: usize)
    requires
        i <= s@.len(),
    ensures
        r == spec_skip_ws(s@, i as int),
        i <= r <= s@.len(),
    decreases s@.len() - i,
{
    if i < s.len() && is_ws_exec(s[i]) {
        skip_ws(s, i + 1)
    } else {
        i
    }
}

pub fn is_ws_exec(c: char) -> (r: bool)
    ensures
        r == is_ws(c),
{
    c == ' ' || c == '\n' || c == '\r' || c == '\t'
}

pub fn is_digit_exec(c: char) -> (r: bool)
    ensures
        r == is_digit(c),
{
    '0' <= c && c <= '9'
}

/// Numeric value of a decimal digit character.
pub fn digit_exec(c: char) -> (d: u64)
    requires
        is_digit(c),
    ensures
        d == digit_of(c),
{
    match c {
        '0' => 0,
        '1' => 1,
        '2' => 2,
        '3' => 3,
        '4' => 4,
        '5' => 5,
        '6' => 6,
        '7' => 7,
        '8' => 8,
        _ => 9,
    }
}

/// Value of a hexadecimal digit character, if it is one.
pub open spec fn hex_val(c: char) -> Option<int> {
    if is_digit(c) {
        Some(digit_of(c) as int)
    } else if 'a' <= c && c <= 'f' {
        Some(c as int - 'a' as int + 10)
    } else if 'A' <= c && c <= 'F' {
        Some(c as int - 'A' as int + 10)
    } else {
        None
    }
}

pub fn hex_exec(c: char) -> (r: Option<u32>)
    ensures
        match r {
            Some(v) => hex_val(c) == Some(v as int) && v < 16,
            None => hex_val(c) is None,
        },
{
    match c {
        '0' => Some(0),
        '1' => Some(1),
        '2' => Some(2),
        '3' => Some(3),
        '4' => Some(4),
        '5' => Some(5),
        '6' => Some(6),
        '7' => Some(7),
        '8' => Some(8),
        '9' => Some(9),
        'a' => Some(10),
        'b' => Some(11),
        'c' => Some(12),
        'd' => Some(13),
        'e' => Some(14),
        'f' => Some(15),
        'A' => Some(10),
        'B' => Some(11),
        'C' => Some(12),
        'D' => Some(13),
        'E' => Some(14),
        'F' => Some(15),
        _ => None,
    }
}

/// The character denoted by a single-character escape, if the escape is
/// a valid one.
pub open spec fn esc_char(c: char) -> Option<char> {
    match c {
        '"' => Some('"'),
        '\\' => Some('\\'),
        '/' => Some('/'),
        'b' => Some('\u{8}'),
        'f' => Some('\u{c}'),
        'n' => Some('\n'),
        'r' => Some('\r'),
        't' => Some('\t'),
        _ => None,
    }
}

pub fn esc_exec(c: char) -> (r: Option<char>)
    ensures
        r == esc_char(c),
{
    match c {
        '"' => Some('"'),
        '\\' => Some('\\'),
        '/' => Some('/'),
        'b' => Some('\u{8}'),
        'f' => Some('\u{c}'),
        'n' => Some('\n'),
        'r' => Some('\r'),
        't' => Some('\t'),
        _ => None,
    }
}

/// The body of a JSON string, read from just after the opening quote up
/// to and including the closing quote; yields the decoded characters.
pub open spec fn spec_string_body(s: Seq<char>, i: int) -> Option<(Seq<char>, int)>
    decreases s.len() - i,
{
    if i < 0 || i >= s.len() {
        None
    } else if s[i] == '"' {
        Some((Seq::empty(), i + 1))
    } else if s[i] == '\\' {
        if i + 1 >= s.len() {
            None
        } else if s[i + 1] == 'u' {
            if i + 5 >= s.len() {
                None
            } else {
                match (hex_val(s[i + 2]), hex_val(s[i + 3]), hex_val(s[i + 4]), hex_val(
                    s[i + 5],
                )) {
                    (Some(h3), Some(h2), Some(h1), Some(h0)) => {
                        let code = h3 * 4096 + h2 * 256 + h1 * 16 + h0;
                        if 0xDC00 <= code < 0xE000 {
                            None
                        } else if 0xD800 <= code < 0xDC00 {
                            spec_surrogate_pair_tail(s, i, code)
                        } else {
                            match spec_string_body(s, i + 6) {
                                Some((rest, j)) => Some((seq![code as char] + rest, j)),
                                None => None,
                            }
                        }
                    },
                    _ => None,
                }
            }
        } else {
            match esc_char(s[i + 1]) {
                Some(c) => match spec_string_body(s, i + 2) {
                    Some((rest, j)) => Some((seq![c] + rest, j)),
                    None => None,
                },
                None => None,
            }
        }
    } else if ' ' > s[i] {
        None
    } else {
        match spec_string_body(s, i + 1) {
            Some((rest, j)) => Some((seq![s[i]] + rest, j)),
            None => None,
        }
    }
}

/// The second half of a surrogate-pair escape: a high surrogate at `i`
/// must be followed by a low-surrogate escape, and the pair decodes to
/// one character beyond the basic plane.
pub open spec fn spec_surrogate_pair_tail(s: Seq<char>, i: int, code: int) -> Option<
    (Seq<char>, int),
>
    decreases s.len() - i - 6,
{
    if i + 11 >= s.len() {
        None
    } else if s[i + 6] == '\\' && s[i + 7] == 'u' {
        match (hex_val(s[i + 8]), hex_val(s[i + 9]), hex_val(s[i + 10]), hex_val(s[i + 11])) {
            (Some(g3), Some(g2), Some(g1), Some(g0)) => {
                let code2 = g3 * 4096 + g2 * 256 + g1 * 16 + g0;
                if 0xDC00 <= code2 < 0xE000 {
                    let combined = 0x10000 + (code - 0xD800) * 0x400 + (code2 - 0xDC00);
                    match spec_string_body(s, i + 12) {
                        Some((rest, j)) => Some((seq![combined as char] + rest, j)),
                        None => None,
                    }
                } else {
                    None
                }
            },
            _ => None,
        }
    } else {
        None
    }
}

/// A complete JSON string starting at `i`, opening quote included.
pub open spec fn spec_parse_string(s: Seq<char>, i: int) -> Option<(Seq<char>, int)> {
    if 0 <= i < s.len() && s[i] == '"' {
        spec_string_body(s, i + 1)
    } else {
        None
    }
}

/// Relies on `char::from_u32`: `Some` exactly for valid Unicode scalar
/// values, which are the code points outside the surrogate range.
#[verifier::external_body]
fn char_from_u32(u: u32) -> (r: Option<char>)
    ensures
        r == if u < 0xD800 || (0xE000 <= u && u <= 0x10FFFF) {
            Some(u as char)
        } else {
            None::<char>
        },
{
    char::from_u32(u)
}

fn string_body(s: &Vec<char>, i: usize) -> (r: Option<(Vec<char>, usize)>)
    requires
        i <= s@.len(),
    ensures
        match r {
            Some(p) => spec_string_body(s@, i as int) == Some((p.0@, p.1 as int)) && i < p.1
                <= s@.len(),
            None => spec_string_body(s@, i as int) is None,
        },
    decreases s@.len() - i,
{
    if i >= s.len() {
        return None;
    }
    let c = s[i];
    if c == '"' {
        return Some((Vec::new(), i + 1));
    }
    if c == '\\' {
        if s.len() - i < 2 {
            return None;
        }
        let e = s[i + 1];
        if e == 'u' {
            if s.len() - i < 6 {
                return None;
            }
            let h3 = hex_exec(s[i + 2]);
            let h2 = hex_exec(s[i + 3]);
            let h1 = hex_exec(s[i + 4]);
            let h0 = hex_exec(s[i + 5]);
            match (h3, h2, h1, h0) {
                (Some(a), Some(b), Some(cc), Some(d)) => {
                    let code: u32 = a * 4096 + b * 256 + cc * 16 + d;
                    if code >= 0xDC00 && code < 0xE000 {
                        None
                    } else if code >= 0xD800 && code < 0xDC00 {
                        surrogate_pair_tail(s, i, code)
                    } else {
                        match char_from_u32(code) {
                            Some(decoded) => {
                                match string_body(s, i + 6) {
                                    Some((mut rest, j)) => {
                                        let ghost prev = rest@;
                                        rest.insert(0, decoded);
                                        proof {
                                            assert(rest@ =~= seq![decoded] + prev);
                                        }
                                        Some((rest, j))
                                    },
                                    None => None,
                                }
                            },
                            None => None,
                        }
                    }
                },
                _ => None,
            }
        } else {
            match esc_exec(e) {
                Some(decoded) => {
                    match string_body(s, i + 2) {
                        Some((mut rest, j)) => {
                            let ghost prev = rest@;
                            rest.insert(0, decoded);
                            proof {
                                assert(rest@ =~= seq![decoded] + prev);
                            }
                            Some((rest, j))
                        },
                        None => None,
                    }
                },
                None => None,
            }
        }
    } else if ' ' > c {
        None
    } else {
        match string_body(s, i + 1) {
            Some((mut rest, j)) => {
                let ghost prev = rest@;
                rest.insert(0, c);
                proof {
                    assert(rest@ =~= seq![c] + prev);
                }
                Some((rest, j))
            },
            None => None,
        }
    }
}

fn surrogate_pair_tail(s: &Vec<char>, i: usize, code: u32) -> (r: Option<(Vec<char>, usize)>)
    requires
        i + 6 <= s@.len(),
        0xD800 <= code < 0xDC00,
    ensures
        match r {
            Some(p) => spec_surrogate_pair_tail(s@, i as int, code as int) == Some(
                (p.0@, p.1 as int),
            ) && i < p.1 <= s@.len(),
            None => spec_surrogate_pair_tail(s@, i as int, code as int) is None,
        },
    decreases s@.len() - i - 6,
{
    if s.len() - i < 12 {
        return None;
    }
    if s[i + 6] == '\\' && s[i + 7] == 'u' {
        let g3 = hex_exec(s[i + 8]);
        let g2 = hex_exec(s[i + 9]);
        let g1 = hex_exec(s[i + 10]);
        let g0 = hex_exec(s[i + 11]);
        match (g3, g2, g1, g0) {
            (Some(a), Some(b), Some(cc), Some(d)) => {
                let code2: u32 = a * 4096 + b * 256 + cc * 16 + d;
                if code2 >= 0xDC00 && code2 < 0xE000 {
                    let combined: u32 = 0x10000 + (code - 0xD800) * 0x400 + (code2 - 0xDC00);
                    match char_from_u32(combined) {
                        Some(decoded) => {
                            match string_body(s, i + 12) {
                                Some((mut rest, j)) => {
                                    let ghost prev = rest@;
                                    rest.insert(0, decoded);
                                    proof {
                                        assert(rest@ =~= seq![decoded] + prev);
                                    }
                                    Some((rest, j))
                                },
                                None => None,
                            }
                        },
                        None => None,
                    }
                } else {
                    None
                }
            },
            _ => None,
        }
    } else {
        None
    }
}

/// A complete JSON string starting at `i`, decoded.
pub fn parse_string(s: &Vec<char>, i: usize) -> (r: Option<(Vec<char>, usize)>)
    requires
        i <= s@.len(),
    ensures
        match r {
            Some(p) => spec_parse_string(s@, i as int) == Some((p.0@, p.1 as int)) && i < p.1
                <= s@.len(),
            None => spec_parse_string(s@, i as int) is None,
        },
{
    if i < s.len() && s[i] == '"' {
        string_body(s, i + 1)
    } else {
        None
    }
}

pub open spec fn spec_scan_digits(s: Seq<char>, i: int) -> int
    decreases s.len() - i,
{
    if 0 <= i < s.len() && is_digit(s[i]) {
        spec_scan_digits(s, i + 1)
    } else {
        i
    }
}

pub proof fn lemma_scan_digits(s: Seq<char>, i: int)
    requires
        0 <= i <= s.len(),
    ensures
        i <= spec_scan_digits(s, i) <= s.len(),
        forall|k: int| i <= k < spec_scan_digits(s, i) ==> is_digit(s[k]),
    decreases s.len() - i,
{
    if i < s.len() && is_digit(s[i]) {
        lemma_scan_digits(s, i + 1);
    }
}

pub fn scan_digits(s: &Vec<char>, i: usize) -> (r: usize)
    requires
        i <= s@.len(),
    ensures
        r == spec_scan_digits(s@, i as int),
        i <= r <= s@.len(),
    decreases s@.len() - i,
{
    if i < s.len() && is_digit_exec(s[i]) {
        scan_digits(s, i + 1)
    } else {
        i
    }
}

/// Value of the decimal digit run `s[i..j)`.
pub open spec fn digits_val(s: Seq<char>, i: int, j: int) -> nat
    decreases j - i,
{
    if j <= i {
        0
    } else {
        digits_val(s, i, j - 1) * 10 + digit_of(s[j - 1])
    }
}

/// A JSON number token: optional minus, integer part without leading
/// zeros, optional fraction, optional exponent.  The value reported is
/// the integer part, for a non-negative number without an exponent
/// whose integer part fits in `u64`; any other valid number token
/// scans as `None`.
pub open spec fn spec_number(s: Seq<char>, i: int) -> Option<(Option<u64>, int)> {
    let i1 = if 0 <= i < s.len() && s[i] == '-' {
        i + 1
    } else {
        i
    };
    let neg = i1 != i;
    if !(0 <= i1 < s.len() && is_digit(s[i1])) {
        None
    } else {
        let i2 = if s[i1] == '0' {
            i1 + 1
        } else {
            spec_scan_digits(s, i1)
        };
        let frac = i2 < s.len() && s[i2] == '.';
        if frac && !(i2 + 1 < s.len() && is_digit(s[i2 + 1])) {
            None
        } else {
            let i3 = if frac {
                spec_scan_digits(s, i2 + 1)
            } else {
                i2
            };
            let has_exp = i3 < s.len() && (s[i3] == 'e' || s[i3] == 'E');
            if has_exp {
                let i4 = if i3 + 1 < s.len() && (s[i3 + 1] == '+' || s[i3 + 1] == '-') {
                    i3 + 2
                } else {
                    i3 + 1
                };
                if !(i4 < s.len() && is_digit(s[i4])) {
                    None
                } else {
                    Some((None, spec_scan_digits(s, i4)))
                }
            } else {
                if !neg && digits_val(s, i1, i2) <= u64::MAX {
                    Some((Some(digits_val(s, i1, i2) as u64), i3))
                } else {
                    Some((None, i3))
                }
            }
        }
    }
}

/// The digit-run value computed exactly, or the report that it exceeds
/// `u64::MAX`.
fn digits_value_exec(s: &Vec<char>, i: usize, j: usize) -> (r: Option<u64>)
    requires
        i <= j <= s@.len(),
        forall|k: int| i <= k < j ==> is_digit(s@[k]),
    ensures
        match r {
            Some(v) => digits_val(s@, i as int, j as int) == v,
            None => digits_val(s@, i as int, j as int) > u64::MAX,
        },
{
    let mut acc: u128 = 0;
    let mut big = false;
    let mut k: usize = i;
    while k < j
        invariant
            i <= k <= j <= s@.len(),
            forall|m: int| i <= m < j ==> is_digit(s@[m]),
            !big ==> acc == digits_val(s@, i as int, k as int) && acc <= u64::MAX as u128,
            big ==> digits_val(s@, i as int, k as int) > u64::MAX,
        decreases j - k,
    {
        proof {
            assert(digits_val(s@, i as int, k as int + 1) == digits_val(s@, i as int, k as int)
                * 10 + digit_of(s@[k as int]));
        }
        if !big {
            let d = digit_exec(s[k]);
            let next: u128 = acc * 10 + d as u128;
            if next > u64::MAX as u128 {
                big = true;
            } else {
                acc = next;
            }
        } else {
            proof {
                let prev = digits_val(s@, i as int, k as int);
                assert(prev * 10 >= prev) by (nonlinear_arith)
                    requires
                        prev >= 0,
                ;
            }
        }
        k = k + 1;
    }
    if big {
        None
    } else {
        Some(acc as u64)
    }
}

/// A JSON number token; the value reported is the integer part, for a
/// non-negative number without an exponent whose integer part fits in
/// `u64`.
pub fn parse_number(s: &Vec<char>, i: usize) -> (r: Option<(Option<u64>, usize)>)
    requires
        i <= s@.len(),
    ensures
        match r {
            Some(p) => spec_number(s@, i as int) == Some((p.0, p.1 as int)) && i < p.1 <= s@.len(),
            None => spec_number(s@, i as int) is None,
        },
{
    let i1 = if i < s.len() && s[i] == '-' {
        i + 1
    } else {
        i
    };
    let neg = i1 != i;
    if !(i1 < s.len() && is_digit_exec(s[i1])) {
        return None;
    }
    let i2 = if s[i1] == '0' {
        i1 + 1
    } else {
        scan_digits(s, i1)
    };
    proof {
        lemma_scan_digits(s@, i1 as int);
        if s@[i1 as int] != '0' {
            assert(spec_scan_digits(s@, i1 as int) == spec_scan_digits(s@, i1 as int + 1));
            lemma_scan_digits(s@, i1 as int + 1);
        }
    }
    let frac = i2 < s.len() && s[i2] == '.';
    if frac && !(i2 + 1 < s.len() && is_digit_exec(s[i2 + 1])) {
        return None;
    }
    let i3 = if frac {
        scan_digits(s, i2 + 1)
    } else {
        i2
    };
    let has_exp = i3 < s.len() && (s[i3] == 'e' || s[i3] == 'E');
    if has_exp {
        let i4 = if i3 + 1 < s.len() && (s[i3 + 1] == '+' || s[i3 + 1] == '-') {
            i3 + 2
        } else {
            i3 + 1
        };
        if !(i4 < s.len() && is_digit_exec(s[i4])) {
            return None;
        }
        let end = scan_digits(s, i4);
        return Some((None, end));
    }
    if !neg {
        match digits_value_exec(s, i1, i2) {
            Some(v) => Some((Some(v), i3)),
            None => Some((None, i3)),
        }
    } else {
        Some((None, i3))
    }
}

pub open spec fn spec_true_at(s: Seq<char>, i: int) -> bool {
    0 <= i && i + 4 <= s.len() && s[i] == 't' && s[i + 1] == 'r' && s[i + 2] == 'u' && s[i + 3]
        == 'e'
}

pub open spec fn spec_false_at(s: Seq<char>, i: int) -> bool {
    0 <= i && i + 5 <= s.len() && s[i] == 'f' && s[i + 1] == 'a' && s[i + 2] == 'l' && s[i + 3]
        == 's' && s[i + 4] == 'e'
}

pub open spec fn spec_null_at(s: Seq<char>, i: int) -> bool {
    0 <= i && i + 4 <= s.len() && s[i] == 'n' && s[i + 1] == 'u' && s[i + 2] == 'l' && s[i + 3]
        == 'l'
}

pub fn true_at(s: &Vec<char>, i: usize) -> (r: bool)
    requires
        i <= s@.len(),
    ensures
        r == spec_true_at(s@, i as int),
{
    s.len() - i >= 4 && s[i] == 't' && s[i + 1] == 'r' && s[i + 2] == 'u' && s[i + 3] == 'e'
}

pub fn false_at(s: &Vec<char>, i: usize) -> (r: bool)
    requires
        i <= s@.len(),
    ensures
        r == spec_false_at(s@, i as int),
{
    s.len() - i >= 5 && s[i] == 'f' && s[i + 1] == 'a' && s[i + 2] == 'l' && s[i + 3] == 's' && s[i
        + 4] == 'e'
}

pub fn null_at(s: &Vec<char>, i: usize) -> (r: bool)
    requires
        i <= s@.len(),
    ensures
        r == spec_null_at(s@, i as int),
{
    s.len() - i >= 4 && s[i] == 'n' && s[i + 1] == 'u' && s[i + 2] == 'l' && s[i + 3] == 'l'
}

/// Extent of any well-formed JSON value starting at `i`; used to step
/// over the values of unknown fields.
pub open spec fn spec_skip_value(s: Seq<char>, i: int, fuel: nat) -> Option<int>
    decreases fuel,
{
    if fuel == 0 {
        None
    } else if i < 0 || i >= s.len() {
        None
    } else if s[i] == '"' {
        match spec_string_body(s, i + 1) {
            Some((_, j)) => Some(j),
            None => None,
        }
    } else if s[i] == '{' {
        spec_skip_obj_tail(s, i + 1, (fuel - 1) as nat)
    } else if s[i] == '[' {
        spec_skip_arr_tail(s, i + 1, (fuel - 1) as nat)
    } else if spec_true_at(s, i) {
        Some(i + 4)
    } else if spec_false_at(s, i) {
        Some(i + 5)
    } else if spec_null_at(s, i) {
        Some(i + 4)
    } else {
        match spec_number(s, i) {
            Some((_, j)) => Some(j),
            None => None,
        }
    }
}

/// Rest of an object, from just after `{`: either the closing brace or
/// a first member.
pub open spec fn spec_skip_obj_tail(s: Seq<char>, i: int, fuel: nat) -> Option<int>
    decreases fuel,
{
    if fuel == 0 {
        None
    } else {
        let k = spec_skip_ws(s, i);
        if k < s.len() && s[k] == '}' {
            Some(k + 1)
        } else {
            spec_skip_member(s, k, (fuel - 1) as nat)
        }
    }
}

/// One `"key": value` member starting at `k`, then a comma and another
/// member, or the closing brace.
pub open spec fn spec_skip_member(s: Seq<char>, k: int, fuel: nat) -> Option<int>
    decreases fuel,
{
    if fuel == 0 {
        None
    } else {
        match spec_parse_string(s, k) {
            Some((_, after_key)) => {
                let c = spec_skip_ws(s, after_key);
                if c < s.len() && s[c] == ':' {
                    match spec_skip_value(s, spec_skip_ws(s, c + 1), (fuel - 1) as nat) {
                        Some(after_val) => {
                            let e = spec_skip_ws(s, after_val);
                            if e < s.len() && s[e] == ',' {
                                spec_skip_member(s, spec_skip_ws(s, e + 1), (fuel - 1) as nat)
                            } else if e < s.len() && s[e] == '}' {
                                Some(e + 1)
                            } else {
                                None
                            }
                        },
                        None => None,
                    }
                } else {
                    None
                }
            },
            None => None,
        }
    }
}

/// Rest of an array, from just after `[`: either the closing bracket or
/// a first element.
pub open spec fn spec_skip_arr_tail(s: Seq<char>, i: int, fuel: nat) -> Option<int>
    decreases fuel,
{
    if fuel == 0 {
        None
    } else {
        let k = spec_skip_ws(s, i);
        if k < s.len() && s[k] == ']' {
            Some(k + 1)
        } else {
            spec_skip_elem(s, k, (fuel - 1) as nat)
        }
    }
}

/// One array element starting at `k`, then a comma and another element,
/// or the closing bracket.
pub open spec fn spec_skip_elem(s: Seq<char>, k: int, fuel: nat) -> Option<int>
    decreases fuel,
{
    if fuel == 0 {
        None
    } else {
        match spec_skip_value(s, k, (fuel - 1) as nat) {
            Some(after_val) => {
                let e = spec_skip_ws(s, after_val);
                if e < s.len() && s[e] == ',' {
                    spec_skip_elem(s, spec_skip_ws(s, e + 1), (fuel - 1) as nat)
                } else if e < s.len() && s[e] == ']' {
                    Some(e + 1)
                } else {
                    None
                }
            },
            None => None,
        }
    }
}

pub fn skip_value(s: &Vec<char>, i: usize, fuel: usize) -> (r: Option<usize>)
    requires
        i <= s@.len(),
    ensures
        match r {
            Some(j) => spec_skip_value(s@, i as int, fuel as nat) == Some(j as int) && i < j
                <= s@.len(),
            None => spec_skip_value(s@, i as int, fuel as nat) is None,
        },
    decreases fuel,
{
    if fuel == 0 {
        return None;
    }
    if i >= s.len() {
        return None;
    }
    let c = s[i];
    if c == '"' {
        match string_body(s, i + 1) {
            Some((_, j)) => Some(j),
            None => None,
        }
    } else if c == '{' {
        skip_obj_tail(s, i + 1, fuel - 1)
    } else if c == '[' {
        skip_arr_tail(s, i + 1, fuel - 1)
    } else if true_at(s, i) {
        Some(i + 4)
    } else if false_at(s, i) {
        Some(i + 5)
    } else if null_at(s, i) {
        Some(i + 4)
    } else {
        match parse_number(s, i) {
            Some((_, j)) => Some(j),
            None => None,
        }
    }
}

pub fn skip_obj_tail(s: &Vec<char>, i: usize, fuel: usize) -> (r: Option<usize>)
    requires
        i <= s@.len(),
    ensures
        match r {
            Some(j) => spec_skip_obj_tail(s@, i as int, fuel as nat) == Some(j as int) && i <= j
                <= s@.len(),
            None => spec_skip_obj_tail(s@, i as int, fuel as nat) is None,
        },
    decreases fuel,
{
    if fuel == 0 {
        return None;
    }
    let k = skip_ws(s, i);
    if k < s.len() && s[k] == '}' {
        Some(k + 1)
    } else {
        skip_member(s, k, fuel - 1)
    }
}

pub fn skip_member(s: &Vec<char>, k: usize, fuel: usize) -> (r: Option<usize>)
    requires
        k <= s@.len(),
    ensures
        match r {
            Some(j) => spec_skip_member(s@, k as int, fuel as nat) == Some(j as int) && k <= j
                <= s@.len(),
            None => spec_skip_member(s@, k as int, fuel as nat) is None,
        },
    decreases fuel,
{
    if fuel == 0 {
        return None;
    }
    match parse_string(s, k) {
        Some((_, after_key)) => {
            let c = skip_ws(s, after_key);
            if c < s.len() && s[c] == ':' {
                let v = skip_ws(s, c + 1);
                match skip_value(s, v, fuel - 1) {
                    Some(after_val) => {
                        let e = skip_ws(s, after_val);
                        if e < s.len() && s[e] == ',' {
                            let n = skip_ws(s, e + 1);
                            skip_member(s, n, fuel - 1)
                        } else if e < s.len() && s[e] == '}' {
                            Some(e + 1)
                        } else {
                            None
                        }
                    },
                    None => None,
                }
            } else {
                None
            }
        },
        None => None,
    }
}

pub fn skip_arr_tail(s: &Vec<char>, i: usize, fuel: usize) -> (r: Option<usize>)
    requires
        i <= s@.len(),
    ensures
        match r {
            Some(j) => spec_skip_arr_tail(s@, i as int, fuel as nat) == Some(j as int) && i <= j
                <= s@.len(),
            None => spec_skip_arr_tail(s@, i as int, fuel as nat) is None,
        },
    decreases fuel,
{
    if fuel == 0 {
        return None;
    }
    let k = skip_ws(s, i);
    if k < s.len() && s[k] == ']' {
        Some(k + 1)
    } else {
        skip_elem(s, k, fuel - 1)
    }
}

pub fn skip_elem(s: &Vec<char>, k: usize, fuel: usize) -> (r: Option<usize>)
    requires
        k <= s@.len(),
    ensures
        match r {
            Some(j) => spec_skip_elem(s@, k as int, fuel as nat) == Some(j as int) && k <= j
                <= s@.len(),
            None => spec_skip_elem(s@, k as int, fuel as nat) is None,
        },
    decreases fuel,
{
    if fuel == 0 {
        return None;
    }
    match skip_value(s, k, fuel - 1) {
        Some(after_val) => {
            let e = skip_ws(s, after_val);
            if e < s.len() && s[e] == ',' {
                let n = skip_ws(s, e + 1);
                skip_elem(s, n, fuel - 1)
            } else if e < s.len() && s[e] == ']' {
                Some(e + 1)
            } else {
                None
            }
        },
        None => None,
    }
}

} // verus!
