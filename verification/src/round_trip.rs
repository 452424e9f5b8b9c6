//! The durable form reads back: what the renderer writes for a value,
//! the parser decodes to the same value.  The string encoding is the
//! subtle part — escapes must invert exactly — and is proved here for
//! every character sequence.

use vstd::prelude::*;

use crate::codec::{
    spec_parse_bool, spec_parse_opt_str, spec_parse_opt_u64, spec_parse_str_array,
    spec_parse_str_elems,
};
use crate::json::{
    digit_of, digits_val, esc_char, hex_val, is_digit, is_ws, spec_null_at, spec_number,
    spec_parse_string, spec_scan_digits, spec_skip_ws, spec_string_body,
};
use crate::render::{
    escape_char, escape_seq, hex_digit_char, mods_joined, spec_render_bool, spec_render_mods,
    spec_render_nat, spec_render_opt_str, spec_render_opt_u64, spec_render_string,
};

verus! {

proof fn lemma_escape_seq_concat(a: Seq<char>, b: Seq<char>)
    ensures
        escape_seq(a + b) == escape_seq(a) + escape_seq(b),
    decreases b.len(),
{
    if b.len() == 0 {
        assert(a + b =~= a);
        assert(escape_seq(a) + escape_seq(b) =~= escape_seq(a));
    } else {
        lemma_escape_seq_concat(a, b.drop_last());
        assert((a + b).drop_last() =~= a + b.drop_last());
        assert((a + b).len() > 0);
        assert(escape_seq(a + b) == escape_seq(a + b.drop_last()) + escape_char((a + b).last()));
        assert((a + b).last() == b.last());
        assert(escape_seq(a) + escape_seq(b) =~= (escape_seq(a) + escape_seq(b.drop_last()))
            + escape_char(b.last()));
    }
}

proof fn lemma_escape_seq_first(x: Seq<char>)
    requires
        x.len() > 0,
    ensures
        escape_seq(x) == escape_char(x[0]) + escape_seq(x.drop_first()),
{
    assert(x =~= seq![x[0]] + x.drop_first());
    lemma_escape_seq_concat(seq![x[0]], x.drop_first());
    assert(seq![x[0]].drop_last() =~= Seq::<char>::empty());
    assert(escape_seq(seq![x[0]]) == escape_seq(Seq::<char>::empty()) + escape_char(x[0]));
    assert(escape_seq(seq![x[0]]) =~= escape_char(x[0]));
}

proof fn lemma_hex_val_inverts(n: int)
    requires
        0 <= n < 16,
    ensures
        hex_val(hex_digit_char(n)) == Some(n),
{
}

proof fn lemma_string_body_decodes(s: Seq<char>, i: int, x: Seq<char>)
    requires
        0 <= i,
        i + escape_seq(x).len() + 1 <= s.len(),
        s.subrange(i, i + escape_seq(x).len() as int) == escape_seq(x),
        s[i + escape_seq(x).len()] == '"',
    ensures
        spec_string_body(s, i) == Some((x, i + escape_seq(x).len() + 1)),
    decreases x.len(),
{
    broadcast use vstd::utf8::char_is_scalar;
    broadcast use vstd::utf8::char_u32_cast;

    let full = escape_seq(x);
    if x.len() == 0 {
        assert(full.len() == 0);
        assert(s[i] == '"');
    } else {
        let c = x[0];
        let e = escape_char(c);
        let tail = x.drop_first();
        let etail = escape_seq(tail);
        lemma_escape_seq_first(x);
        assert(full == e + etail);
        assert(full.len() == e.len() + etail.len());
        assert forall|k: int| 0 <= k < full.len() implies s[i + k] == full[k] by {
            assert(s.subrange(i, i + full.len() as int)[k] == s[i + k]);
        }
        assert forall|k: int| 0 <= k < e.len() implies s[i + k] == e[k] by {
            assert(full[k] == e[k]);
        }
        let j = i + e.len();
        assert(s.subrange(j, j + etail.len() as int) =~= etail) by {
            assert forall|k: int| 0 <= k < etail.len() implies s.subrange(
                j,
                j + etail.len() as int,
            )[k] == etail[k] by {
                assert(s[j + k] == full[e.len() + k]);
                assert(full[e.len() + k] == etail[k]);
            }
        }
        assert(s[j + etail.len()] == '"');
        lemma_string_body_decodes(s, j, tail);
        assert(spec_string_body(s, j) == Some((tail, j + etail.len() + 1)));
        assert(seq![c] + tail =~= x);
        if c == '"' {
            assert(s[i] == '\\' && s[i + 1] == '"');
            assert(esc_char('"') == Some('"'));
        } else if c == '\\' {
            assert(s[i] == '\\' && s[i + 1] == '\\');
        } else if c == '\u{8}' {
            assert(s[i] == '\\' && s[i + 1] == 'b');
        } else if c == '\u{c}' {
            assert(s[i] == '\\' && s[i + 1] == 'f');
        } else if c == '\n' {
            assert(s[i] == '\\' && s[i + 1] == 'n');
        } else if c == '\r' {
            assert(s[i] == '\\' && s[i + 1] == 'r');
        } else if c == '\t' {
            assert(s[i] == '\\' && s[i + 1] == 't');
        } else if ' ' > c {
            assert((' ' as int) == 32);
            assert((c as int) < (' ' as int));
            assert((c as int) < 32);
            vstd::utf8::char_is_scalar(c);
            vstd::utf8::char_u32_cast(c, c as u32);
            assert((c as u32) as int == c as int);
            assert(0 <= (c as int));
            assert(s[i] == '\\' && s[i + 1] == 'u' && s[i + 2] == '0' && s[i + 3] == '0');
            assert(s[i + 4] == hex_digit_char(c as int / 16));
            assert(s[i + 5] == hex_digit_char(c as int % 16));
            lemma_hex_val_inverts(c as int / 16);
            lemma_hex_val_inverts(c as int % 16);
            assert(hex_val(s[i + 2]) == Some(0int));
            assert(hex_val(s[i + 3]) == Some(0int));
            let code = 0 * 4096 + 0 * 256 + (c as int / 16) * 16 + c as int % 16;
            assert(code == c as int);
            assert(!(0xD800 <= code < 0xE000));
            assert(code as char == c);
        } else {
            assert(e == seq![c]);
            assert(s[i] == c);
            assert(s[i] != '"' && s[i] != '\\' && !(' ' > s[i]));
        }
    }
}

/// The JSON string encoding round-trips: wherever the rendered form of
/// a character sequence stands in a document, parsing a string there
/// yields back exactly that sequence.
pub proof fn lemma_string_round_trip(x: Seq<char>, pre: Seq<char>, post: Seq<char>)
    ensures
        ({
            let s = pre + spec_render_string(x) + post;
            spec_parse_string(s, pre.len() as int) == Some(
                (x, pre.len() + spec_render_string(x).len() as int),
            )
        }),
{
    let r = spec_render_string(x);
    let s = pre + r + post;
    let i = pre.len() as int;
    let esc = escape_seq(x);
    assert(r == seq!['"'] + esc + seq!['"']);
    assert(r.len() == esc.len() + 2);
    assert forall|k: int| 0 <= k < r.len() implies s[i + k] == r[k] by {
        assert((pre + r)[i + k] == r[k]);
    }
    assert(s[i] == r[0]);
    assert(r[0] == '"');
    assert(s.subrange(i + 1, i + 1 + esc.len() as int) =~= esc) by {
        assert forall|k: int| 0 <= k < esc.len() implies s.subrange(
            i + 1,
            i + 1 + esc.len() as int,
        )[k] == esc[k] by {
            assert(s[i + 1 + k] == r[1 + k]);
            assert(r[1 + k] == esc[k]);
        }
    }
    assert(s[i + 1 + esc.len() as int] == r[1 + esc.len() as int]);
    assert(r[1 + esc.len() as int] == '"');
    lemma_string_body_decodes(s, i + 1, x);
}



proof fn lemma_render_nat_digits(n: nat)
    ensures
        spec_render_nat(n).len() >= 1,
        forall|k: int| 0 <= k < spec_render_nat(n).len() ==> is_digit(#[trigger] spec_render_nat(
            n,
        )[k]),
        n >= 1 ==> spec_render_nat(n)[0] != '0',
    decreases n,
{
    if n < 10 {
    } else {
        lemma_render_nat_digits(n / 10);
        let r = spec_render_nat(n);
        let rp = spec_render_nat(n / 10);
        assert(r == rp + seq![hex_digit_char((n % 10) as int)]);
        assert(r[0] == rp[0]);
        assert forall|k: int| 0 <= k < r.len() implies is_digit(#[trigger] r[k]) by {
            if k < rp.len() {
                assert(r[k] == rp[k]);
            } else {
                assert(r[k] == hex_digit_char((n % 10) as int));
            }
        }
    }
}

proof fn lemma_digits_val_render(n: nat, s: Seq<char>, i: int)
    requires
        0 <= i,
        i + spec_render_nat(n).len() <= s.len(),
        s.subrange(i, i + spec_render_nat(n).len() as int) == spec_render_nat(n),
    ensures
        digits_val(s, i, i + spec_render_nat(n).len() as int) == n,
    decreases n,
{
    let r = spec_render_nat(n);
    assert forall|k: int| 0 <= k < r.len() implies s[i + k] == r[k] by {
        assert(s.subrange(i, i + r.len() as int)[k] == s[i + k]);
    }
    if n < 10 {
        assert(r == seq![hex_digit_char(n as int)]);
        assert(s[i + 0] == r[0]);
        assert(s[i] == hex_digit_char(n as int));
        assert(digits_val(s, i, i) == 0);
        assert(digits_val(s, i, i + 1) == digits_val(s, i, i) * 10 + digit_of(s[i]));
        assert(digit_of(hex_digit_char(n as int)) == n);
    } else {
        let rp = spec_render_nat(n / 10);
        assert(r == rp + seq![hex_digit_char((n % 10) as int)]);
        assert(s.subrange(i, i + rp.len() as int) =~= rp) by {
            assert forall|k: int| 0 <= k < rp.len() implies s.subrange(
                i,
                i + rp.len() as int,
            )[k] == rp[k] by {
                assert(s[i + k] == r[k]);
                assert(r[k] == rp[k]);
            }
        }
        lemma_digits_val_render(n / 10, s, i);
        let j = i + r.len() as int;
        assert(s[j - 1] == r[r.len() - 1]);
        assert(r[r.len() - 1] == hex_digit_char((n % 10) as int));
        assert(digit_of(hex_digit_char((n % 10) as int)) == n % 10);
        assert(digits_val(s, i, j) == digits_val(s, i, j - 1) * 10 + digit_of(s[j - 1]));
        assert(digits_val(s, i, j - 1) == n / 10);
        assert(n / 10 * 10 + n % 10 == n);
    }
}

proof fn lemma_scan_digits_stops(s: Seq<char>, i: int, j: int)
    requires
        0 <= i <= j <= s.len(),
        forall|k: int| i <= k < j ==> is_digit(s[k]),
        j == s.len() || !is_digit(s[j]),
    ensures
        spec_scan_digits(s, i) == j,
    decreases j - i,
{
    if i < j {
        lemma_scan_digits_stops(s, i + 1, j);
    }
}

/// The decimal encoding of a stored timeout round-trips: wherever the
/// rendered digits of a value stand, followed by a character that
/// cannot extend a number token, parsing a number yields back exactly
/// that value.
pub proof fn lemma_nat_round_trip(n: u64, pre: Seq<char>, post: Seq<char>)
    requires
        post.len() > 0,
        !is_digit(post[0]),
        post[0] != '.',
        post[0] != 'e',
        post[0] != 'E',
    ensures
        ({
            let s = pre + spec_render_nat(n as nat) + post;
            spec_number(s, pre.len() as int) == Some(
                (Some(n), pre.len() + spec_render_nat(n as nat).len() as int),
            )
        }),
{
    let r = spec_render_nat(n as nat);
    let s = pre + r + post;
    let i = pre.len() as int;
    lemma_render_nat_digits(n as nat);
    assert forall|k: int| 0 <= k < r.len() implies s[i + k] == r[k] by {
        assert((pre + r)[i + k] == r[k]);
    }
    let j = i + r.len() as int;
    assert(s[j] == post[0]);
    assert(s.subrange(i, j) =~= r) by {
        assert forall|k: int| 0 <= k < r.len() implies s.subrange(i, j)[k] == r[k] by {
            assert(s[i + k] == r[k]);
        }
    }
    assert(is_digit(s[i]));
    assert(s[i] != '-') by {
        assert(('-' as int) < ('0' as int));
        assert(('0' as int) <= (s[i] as int));
    }
    lemma_digits_val_render(n as nat, s, i);
    assert forall|k: int| i <= k < j implies is_digit(s[k]) by {
        assert(s[k] == r[k - i]);
    }
    lemma_scan_digits_stops(s, i, j);
    if s[i] == '0' {
        assert(r[0] == '0');
        assert((n as nat) < 10) by {
            if n >= 1 && n >= 10 {
            }
            if n >= 1 {
                assert(r[0] != '0');
            }
        }
        assert(n == 0) by {
            if n >= 1 {
                assert(r[0] != '0');
            }
        }
        assert(r == seq![hex_digit_char(0int)]);
        assert(j == i + 1);
        assert(digits_val(s, i, i + 1) == 0);
    } else {
        assert(spec_scan_digits(s, i) == j);
    }
    assert(!(j < s.len() && s[j] == '.'));
    assert(!(j < s.len() && (s[j] == 'e' || s[j] == 'E')));
    assert(digits_val(s, i, j) == n as nat);
    assert(digits_val(s, i, j) <= u64::MAX);
}


/// A persisted document that holds an empty object — every field
/// missing — loads as the fully-defaulted record.
pub proof fn lemma_empty_object_defaults()
    ensures
        crate::codec::spec_parse_settings("{}"@) == Some(
            crate::settings::default_settings_spec(),
        ),
{
    reveal_strlit("{}");
    let s = "{}"@;
    assert(s.len() == 2);
    assert(s[0] == '{');
    assert(s[1] == '}');
    assert(spec_skip_ws(s, 0) == 0);
    assert(spec_skip_ws(s, 1) == 1);
    assert(spec_skip_ws(s, 2) == 2);
}


/// The boolean encoding round-trips wherever it stands in a document.
pub proof fn lemma_bool_round_trip(b: bool, pre: Seq<char>, post: Seq<char>)
    ensures
        ({
            let s = pre + spec_render_bool(b) + post;
            spec_parse_bool(s, pre.len() as int) == Some(
                (b, pre.len() + spec_render_bool(b).len() as int),
            )
        }),
{
    reveal_strlit("true");
    reveal_strlit("false");
    let r = spec_render_bool(b);
    let s = pre + r + post;
    let i = pre.len() as int;
    assert forall|k: int| 0 <= k < r.len() implies s[i + k] == r[k] by {
        assert((pre + r)[i + k] == r[k]);
    }
    if b {
        assert(s[i] == 't' && s[i + 1] == 'r' && s[i + 2] == 'u' && s[i + 3] == 'e');
    } else {
        assert(s[i] == 'f' && s[i + 1] == 'a' && s[i + 2] == 'l' && s[i + 3] == 's' && s[i + 4]
            == 'e');
    }
}

/// The encoding of an optional string — `null` or a JSON string —
/// round-trips wherever it stands in a document.
pub proof fn lemma_opt_str_round_trip(o: Option<Seq<char>>, pre: Seq<char>, post: Seq<char>)
    ensures
        ({
            let s = pre + spec_render_opt_str(o) + post;
            spec_parse_opt_str(s, pre.len() as int) == Some(
                (o, pre.len() + spec_render_opt_str(o).len() as int),
            )
        }),
{
    reveal_strlit("null");
    let r = spec_render_opt_str(o);
    let s = pre + r + post;
    let i = pre.len() as int;
    assert forall|k: int| 0 <= k < r.len() implies s[i + k] == r[k] by {
        assert((pre + r)[i + k] == r[k]);
    }
    match o {
        None => {
            assert(s[i] == 'n' && s[i + 1] == 'u' && s[i + 2] == 'l' && s[i + 3] == 'l');
        },
        Some(v) => {
            assert(s[i] == '"');
            assert(!spec_null_at(s, i));
            lemma_string_round_trip(v, pre, post);
        },
    }
}

/// The encoding of an optional timeout — `null` or plain digits —
/// round-trips wherever it stands, followed by a character that cannot
/// extend a number token.
pub proof fn lemma_opt_u64_round_trip(o: Option<u64>, pre: Seq<char>, post: Seq<char>)
    requires
        post.len() > 0,
        !is_digit(post[0]),
        post[0] != '.',
        post[0] != 'e',
        post[0] != 'E',
    ensures
        ({
            let s = pre + spec_render_opt_u64(o) + post;
            spec_parse_opt_u64(s, pre.len() as int) == Some(
                (o, pre.len() + spec_render_opt_u64(o).len() as int),
            )
        }),
{
    reveal_strlit("null");
    let r = spec_render_opt_u64(o);
    let s = pre + r + post;
    let i = pre.len() as int;
    assert forall|k: int| 0 <= k < r.len() implies s[i + k] == r[k] by {
        assert((pre + r)[i + k] == r[k]);
    }
    match o {
        None => {
            assert(s[i] == 'n' && s[i + 1] == 'u' && s[i + 2] == 'l' && s[i + 3] == 'l');
        },
        Some(n) => {
            lemma_render_nat_digits(n as nat);
            assert(s[i] == spec_render_nat(n as nat)[0]);
            assert(is_digit(s[i]));
            assert(s[i] != 'n') by {
                assert(('9' as int) < ('n' as int));
            }
            assert(!spec_null_at(s, i));
            lemma_nat_round_trip(n, pre, post);
        },
    }
}


proof fn lemma_skip_ws_stops(s: Seq<char>, i: int, j: int)
    requires
        0 <= i <= j <= s.len(),
        forall|k: int| i <= k < j ==> is_ws(s[k]),
        j == s.len() || !is_ws(s[j]),
    ensures
        spec_skip_ws(s, i) == j,
    decreases j - i,
{
    if i < j {
        lemma_skip_ws_stops(s, i + 1, j);
    }
}

proof fn lemma_mods_joined_front(mods: Seq<Seq<char>>)
    requires
        mods.len() >= 2,
    ensures
        mods_joined(mods) == ("      "@ + spec_render_string(mods[0]) + ",\n"@) + mods_joined(
            mods.drop_first(),
        ),
    decreases mods.len(),
{
    let df = mods.drop_first();
    if mods.len() == 2 {
        assert(mods.drop_last() =~= seq![mods[0]]);
        assert(seq![mods[0]].drop_last() =~= Seq::<Seq<char>>::empty());
        assert(mods_joined(seq![mods[0]]) == "      "@ + spec_render_string(mods[0]));
        assert(df =~= seq![mods[1]]);
        assert(mods_joined(df) == "      "@ + spec_render_string(mods[1]));
        assert(mods.last() == mods[1]);
        assert(mods_joined(mods) =~= ("      "@ + spec_render_string(mods[0]) + ",\n"@)
            + mods_joined(df));
    } else {
        let dl = mods.drop_last();
        lemma_mods_joined_front(dl);
        assert(dl.len() >= 2);
        assert(dl[0] == mods[0]);
        assert(dl.drop_first() =~= df.drop_last());
        assert(mods_joined(mods) == mods_joined(dl) + ",\n"@ + "      "@ + spec_render_string(
            mods.last(),
        ));
        assert(df.len() >= 2);
        assert(df.last() == mods.last());
        assert(mods_joined(df) == mods_joined(df.drop_last()) + ",\n"@ + "      "@
            + spec_render_string(mods.last()));
        assert(mods_joined(mods) =~= ("      "@ + spec_render_string(mods[0]) + ",\n"@)
            + mods_joined(df));
    }
}

#[verifier::rlimit(100)]
#[verifier::spinoff_prover]
proof fn lemma_str_elems_round_trip(
    mods: Seq<Seq<char>>,
    pre: Seq<char>,
    post: Seq<char>,
    fuel: nat,
)
    requires
        mods.len() >= 1,
        fuel >= mods.len(),
    ensures
        ({
            let s = pre + mods_joined(mods) + "\n    ]"@ + post;
            spec_parse_str_elems(s, pre.len() + 6int, fuel) == Some(
                (mods, pre.len() + mods_joined(mods).len() + 6int),
            )
        }),
    decreases mods.len(),
{
    reveal_strlit("      ");
    reveal_strlit(",\n");
    reveal_strlit("\n    ]");
    let joined = mods_joined(mods);
    let s = pre + joined + "\n    ]"@ + post;
    let k: int = pre.len() + 6int;
    let m0 = mods[0];
    let r0 = spec_render_string(m0);
    if mods.len() == 1 {
        assert(mods.drop_last() =~= Seq::<Seq<char>>::empty());
        assert(joined == "      "@ + r0);
        let pre1 = pre + "      "@;
        let post1 = "\n    ]"@ + post;
        assert(s =~= pre1 + r0 + post1);
        lemma_string_round_trip(m0, pre1, post1);
        assert(pre1.len() == k);
        let j: int = k + r0.len() as int;
        assert(spec_parse_string(s, k as int) == Some((m0, j)));
        assert forall|x: int| 0 <= x < post1.len() implies s[j + x] == post1[x] by {
            assert((pre1 + r0 + post1)[j + x] == post1[x]);
        }
        assert(s[j] == '\n' && s[j + 1] == ' ' && s[j + 2] == ' ' && s[j + 3] == ' ' && s[j + 4]
            == ' ');
        assert(s[j + 5] == ']');
        assert forall|x: int| j <= x < j + 5 implies is_ws(s[x]) by {
            assert(s[x] == post1[x - j]);
        }
        lemma_skip_ws_stops(s, j, j + 5);
        assert(s[j + 5] != ',');
        assert(seq![m0] =~= mods);
        assert(j + 6 == pre.len() + joined.len() + 6);
    } else {
        lemma_mods_joined_front(mods);
        let df = mods.drop_first();
        let head = "      "@ + r0 + ",\n"@;
        assert(joined == head + mods_joined(df));
        let pre1 = pre + "      "@;
        let post1 = ",\n"@ + mods_joined(df) + "\n    ]"@ + post;
        assert(s =~= pre1 + r0 + post1);
        lemma_string_round_trip(m0, pre1, post1);
        assert(pre1.len() == k);
        let j: int = k + r0.len() as int;
        assert(spec_parse_string(s, k as int) == Some((m0, j)));
        assert forall|x: int| 0 <= x < post1.len() implies s[j + x] == post1[x] by {
            assert((pre1 + r0 + post1)[j + x] == post1[x]);
        }
        assert(s[j] == ',');
        assert(!is_ws(s[j]));
        lemma_skip_ws_stops(s, j, j);
        let pre2 = pre + ("      "@ + r0 + ",\n"@);
        let jd = mods_joined(df);
        assert(s =~= pre2 + jd + "\n    ]"@ + post);
        let s2 = pre2 + jd + "\n    ]"@ + post;
        assert(pre2.len() == j + 2);
        let k2: int = pre2.len() + 6int;
        lemma_mods_joined_shape(df);
        assert forall|x: int| 0 <= x < jd.len() implies s[pre2.len() + x] == jd[x] by {
            assert((pre2 + jd)[pre2.len() + x] == jd[x]);
            assert(s2[pre2.len() + x] == (pre2 + jd)[pre2.len() + x]);
        }
        assert(s[j + 1] == post1[1]);
        assert(s[j + 1] == '\n');
        assert forall|x: int| j + 1 <= x < k2 implies is_ws(s[x]) by {
            if x == j + 1 {
            } else {
                assert(s[x] == jd[x - pre2.len()]);
                assert(jd[x - pre2.len()] == ' ');
            }
        }
        assert(s[k2] == jd[6]);
        assert(!is_ws(s[k2]));
        lemma_skip_ws_stops(s, j + 1, k2);
        lemma_str_elems_round_trip(df, pre2, post, (fuel - 1) as nat);
        assert(spec_parse_str_elems(s2, pre2.len() + 6int, (fuel - 1) as nat) == Some(
            (df, pre2.len() + jd.len() + 6int),
        ));
        assert(s == s2);
        assert(spec_parse_str_elems(s, k2, (fuel - 1) as nat) == Some(
            (df, pre2.len() + jd.len() + 6int),
        ));
        assert(seq![m0] + df =~= mods);
        assert(joined.len() == 6 + r0.len() + 2 + jd.len());
        assert(pre2.len() + jd.len() + 6 == pre.len() + joined.len() + 6);
    }
}

proof fn lemma_mods_joined_shape(mods: Seq<Seq<char>>)
    requires
        mods.len() >= 1,
    ensures
        mods_joined(mods).len() >= 7,
        forall|x: int| 0 <= x < 6 ==> #[trigger] mods_joined(mods)[x] == ' ',
        mods_joined(mods)[6] == '"',
    decreases mods.len(),
{
    reveal_strlit("      ");
    if mods.len() == 1 {
        let r = spec_render_string(mods[0]);
        assert(mods_joined(mods) == "      "@ + r);
        assert(r.len() >= 2);
        assert(r[0] == '"');
        assert(mods_joined(mods)[6] == r[0]);
    } else {
        lemma_mods_joined_shape(mods.drop_last());
        let jd = mods_joined(mods.drop_last());
        assert(mods_joined(mods) == jd + ",\n"@ + "      "@ + spec_render_string(mods.last()));
        assert forall|x: int| 0 <= x < 6 implies #[trigger] mods_joined(mods)[x] == ' ' by {
            assert(mods_joined(mods)[x] == jd[x]);
        }
        assert(mods_joined(mods)[6] == jd[6]);
    }
}


/// The encoding of a modifier list round-trips: wherever the rendered
/// array stands in a document, parsing an array of strings there
/// yields back exactly the same modifiers in the same order.
pub proof fn lemma_mods_round_trip(
    mods: Seq<Seq<char>>,
    pre: Seq<char>,
    post: Seq<char>,
    fuel: nat,
)
    requires
        fuel >= mods.len(),
    ensures
        ({
            let s = pre + spec_render_mods(mods) + post;
            spec_parse_str_array(s, pre.len() as int, fuel) == Some(
                (mods, pre.len() + spec_render_mods(mods).len() as int),
            )
        }),
{
    reveal_strlit("[]");
    reveal_strlit("[\n");
    reveal_strlit("\n    ]");
    let r = spec_render_mods(mods);
    let s = pre + r + post;
    let i = pre.len() as int;
    assert forall|x: int| 0 <= x < r.len() implies s[i + x] == r[x] by {
        assert((pre + r)[i + x] == r[x]);
    }
    if mods.len() == 0 {
        assert(r == "[]"@);
        assert(s[i] == '[');
        assert(s[i + 1] == ']');
        assert(!is_ws(s[i + 1]));
        lemma_skip_ws_stops(s, i + 1, i + 1);
        assert(mods =~= Seq::<Seq<char>>::empty());
    } else {
        let joined = mods_joined(mods);
        assert(r == "[\n"@ + joined + "\n    ]"@);
        assert(s[i] == '[');
        assert(s[i + 1] == '\n');
        lemma_mods_joined_shape(mods);
        assert forall|x: int| 0 <= x < joined.len() implies s[i + 2 + x] == joined[x] by {
            assert(r[2 + x] == joined[x]);
        }
        assert forall|x: int| i + 1 <= x < i + 8 implies is_ws(s[x]) by {
            if x > i + 1 {
                assert(s[x] == joined[x - (i + 2)]);
                assert(joined[x - (i + 2)] == ' ');
            }
        }
        assert(s[i + 8] == joined[6]);
        assert(!is_ws(s[i + 8]));
        lemma_skip_ws_stops(s, i + 1, i + 8);
        assert(s[i + 8] == '"');
        assert(s[i + 8] != ']');
        let pre1 = pre + "[\n"@;
        let s1 = pre1 + joined + "\n    ]"@ + post;
        assert(s =~= s1);
        lemma_str_elems_round_trip(mods, pre1, post, fuel);
        assert(spec_parse_str_elems(s1, pre1.len() + 6int, fuel) == Some(
            (mods, pre1.len() + joined.len() + 6int),
        ));
        assert(s == s1);
        assert(pre1.len() + 6int == i + 8);
        assert(r.len() == 2 + joined.len() + 6);
        assert(pre1.len() + joined.len() + 6int == pre.len() + r.len() as int);
    }
}

} // verus!
