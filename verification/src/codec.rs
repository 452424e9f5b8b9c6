//! Reading a settings record out of JSON text.  The top-level object is
//! taken field by field: a missing field keeps its default, an unknown
//! field is skipped, and any malformed text makes the whole document
//! invalid, in which case loading falls back to the fully-defaulted
//! record.

use vstd::prelude::*;

use crate::chars::{chars_to_string, str_to_chars};
use crate::hotkey::HotkeyV;
use crate::hotkey::HotkeyConfig;
use crate::json::{
    false_at, null_at, parse_number, parse_string, skip_value, skip_ws, spec_false_at,
    spec_null_at, spec_number, spec_parse_string, spec_skip_value, spec_skip_ws, spec_true_at,
    true_at,
};
use crate::settings::{
    default_settings_spec, AppSettings, AppSettingsV, CleanupPromptSections,
    CleanupPromptSectionsV, PromptSection, PromptSectionV,
};

verus! {

pub open spec fn spec_parse_bool(s: Seq<char>, i: int) -> Option<(bool, int)> {
    if spec_true_at(s, i) {
        Some((true, i + 4))
    } else if spec_false_at(s, i) {
        Some((false, i + 5))
    } else {
        None
    }
}

/// `null` or a JSON string.
pub open spec fn spec_parse_opt_str(s: Seq<char>, i: int) -> Option<(Option<Seq<char>>, int)> {
    if spec_null_at(s, i) {
        Some((None, i + 4))
    } else {
        match spec_parse_string(s, i) {
            Some((v, j)) => Some((Some(v), j)),
            None => None,
        }
    }
}

/// `null` or any JSON number.  The stored value is the number's
/// integer part when the number is non-negative, has no exponent, and
/// that part fits in `u64`; any other number — negative, with an
/// exponent, or with an oversized integer part — yields no stored
/// value rather than failing the document.
pub open spec fn spec_parse_opt_u64(s: Seq<char>, i: int) -> Option<(Option<u64>, int)> {
    if spec_null_at(s, i) {
        Some((None, i + 4))
    } else {
        match spec_number(s, i) {
            Some((v, j)) => Some((v, j)),
            None => None,
        }
    }
}

/// Elements of an array of strings, from the first element on.
pub open spec fn spec_parse_str_elems(s: Seq<char>, k: int, fuel: nat) -> Option<
    (Seq<Seq<char>>, int),
>
    decreases fuel,
{
    if fuel == 0 {
        None
    } else {
        match spec_parse_string(s, k) {
            Some((v, j)) => {
                let e = spec_skip_ws(s, j);
                if e < s.len() && s[e] == ',' {
                    match spec_parse_str_elems(s, spec_skip_ws(s, e + 1), (fuel - 1) as nat) {
                        Some((rest, end)) => Some((seq![v] + rest, end)),
                        None => None,
                    }
                } else if e < s.len() && s[e] == ']' {
                    Some((seq![v], e + 1))
                } else {
                    None
                }
            },
            None => None,
        }
    }
}

/// A JSON array whose elements are all strings.
pub open spec fn spec_parse_str_array(s: Seq<char>, i: int, fuel: nat) -> Option<
    (Seq<Seq<char>>, int),
> {
    if 0 <= i < s.len() && s[i] == '[' {
        let k = spec_skip_ws(s, i + 1);
        if k < s.len() && s[k] == ']' {
            Some((Seq::empty(), k + 1))
        } else {
            spec_parse_str_elems(s, k, fuel)
        }
    } else {
        None
    }
}

/// After a member's value: a comma and another member, or the closing
/// brace, which requires both fields to have been seen.
pub open spec fn spec_hotkey_after(
    s: Seq<char>,
    e: int,
    mods: Option<Seq<Seq<char>>>,
    key: Option<Seq<char>>,
    fuel: nat,
) -> Option<(HotkeyV, int)>
    decreases fuel,
{
    if fuel == 0 {
        None
    } else {
        let t = spec_skip_ws(s, e);
        if t < s.len() && s[t] == ',' {
            spec_hotkey_members(s, spec_skip_ws(s, t + 1), mods, key, (fuel - 1) as nat)
        } else if t < s.len() && s[t] == '}' {
            match (mods, key) {
                (Some(m), Some(kk)) => Some((HotkeyV { modifiers: m, key: kk }, t + 1)),
                _ => None,
            }
        } else {
            None
        }
    }
}

/// One `"name": value` member of a hotkey object, starting at the key.
pub open spec fn spec_hotkey_members(
    s: Seq<char>,
    k: int,
    mods: Option<Seq<Seq<char>>>,
    key: Option<Seq<char>>,
    fuel: nat,
) -> Option<(HotkeyV, int)>
    decreases fuel,
{
    if fuel == 0 {
        None
    } else {
        match spec_parse_string(s, k) {
            Some((name, j)) => {
                let c = spec_skip_ws(s, j);
                if c < s.len() && s[c] == ':' {
                    let v = spec_skip_ws(s, c + 1);
                    if name == "modifiers"@ {
                        match spec_parse_str_array(s, v, (fuel - 1) as nat) {
                            Some((m, e)) => spec_hotkey_after(
                                s,
                                e,
                                Some(m),
                                key,
                                (fuel - 1) as nat,
                            ),
                            None => None,
                        }
                    } else if name == "key"@ {
                        match spec_parse_string(s, v) {
                            Some((kk, e)) => spec_hotkey_after(
                                s,
                                e,
                                mods,
                                Some(kk),
                                (fuel - 1) as nat,
                            ),
                            None => None,
                        }
                    } else {
                        match spec_skip_value(s, v, (fuel - 1) as nat) {
                            Some(e) => spec_hotkey_after(s, e, mods, key, (fuel - 1) as nat),
                            None => None,
                        }
                    }
                } else {
                    None
                }
            },
            None => None,
        }
    }
}

/// A hotkey object: `modifiers` and `key` are both required.
pub open spec fn spec_parse_hotkey(s: Seq<char>, i: int, fuel: nat) -> Option<(HotkeyV, int)> {
    if 0 <= i < s.len() && s[i] == '{' {
        let k = spec_skip_ws(s, i + 1);
        if k < s.len() && s[k] == '}' {
            None
        } else {
            spec_hotkey_members(s, k, None, None, fuel)
        }
    } else {
        None
    }
}

/// After a member of a prompt-section object.
pub open spec fn spec_section_after(
    s: Seq<char>,
    e: int,
    enabled: Option<bool>,
    content: Option<Seq<char>>,
    fuel: nat,
) -> Option<(PromptSectionV, int)>
    decreases fuel,
{
    if fuel == 0 {
        None
    } else {
        let t = spec_skip_ws(s, e);
        if t < s.len() && s[t] == ',' {
            spec_section_members(s, spec_skip_ws(s, t + 1), enabled, content, (fuel - 1) as nat)
        } else if t < s.len() && s[t] == '}' {
            match enabled {
                Some(en) => Some((PromptSectionV { enabled: en, content }, t + 1)),
                None => None,
            }
        } else {
            None
        }
    }
}

/// One member of a prompt-section object: `enabled` is required,
/// `content` may be a string or `null` and defaults to none.
pub open spec fn spec_section_members(
    s: Seq<char>,
    k: int,
    enabled: Option<bool>,
    content: Option<Seq<char>>,
    fuel: nat,
) -> Option<(PromptSectionV, int)>
    decreases fuel,
{
    if fuel == 0 {
        None
    } else {
        match spec_parse_string(s, k) {
            Some((name, j)) => {
                let c = spec_skip_ws(s, j);
                if c < s.len() && s[c] == ':' {
                    let v = spec_skip_ws(s, c + 1);
                    if name == "enabled"@ {
                        match spec_parse_bool(s, v) {
                            Some((b, e)) => spec_section_after(
                                s,
                                e,
                                Some(b),
                                content,
                                (fuel - 1) as nat,
                            ),
                            None => None,
                        }
                    } else if name == "content"@ {
                        match spec_parse_opt_str(s, v) {
                            Some((cc, e)) => spec_section_after(
                                s,
                                e,
                                enabled,
                                cc,
                                (fuel - 1) as nat,
                            ),
                            None => None,
                        }
                    } else {
                        match spec_skip_value(s, v, (fuel - 1) as nat) {
                            Some(e) => spec_section_after(s, e, enabled, content, (fuel - 1) as nat),
                            None => None,
                        }
                    }
                } else {
                    None
                }
            },
            None => None,
        }
    }
}

/// A prompt-section object.
pub open spec fn spec_parse_section(s: Seq<char>, i: int, fuel: nat) -> Option<
    (PromptSectionV, int),
> {
    if 0 <= i < s.len() && s[i] == '{' {
        let k = spec_skip_ws(s, i + 1);
        if k < s.len() && s[k] == '}' {
            None
        } else {
            spec_section_members(s, k, None, None, fuel)
        }
    } else {
        None
    }
}

/// After a member of the cleanup-sections object.
pub open spec fn spec_sections_after(
    s: Seq<char>,
    e: int,
    main: Option<PromptSectionV>,
    advanced: Option<PromptSectionV>,
    dictionary: Option<PromptSectionV>,
    fuel: nat,
) -> Option<(CleanupPromptSectionsV, int)>
    decreases fuel,
{
    if fuel == 0 {
        None
    } else {
        let t = spec_skip_ws(s, e);
        if t < s.len() && s[t] == ',' {
            spec_sections_members(
                s,
                spec_skip_ws(s, t + 1),
                main,
                advanced,
                dictionary,
                (fuel - 1) as nat,
            )
        } else if t < s.len() && s[t] == '}' {
            match (main, advanced, dictionary) {
                (Some(m), Some(a), Some(d)) => Some(
                    (CleanupPromptSectionsV { main: m, advanced: a, dictionary: d }, t + 1),
                ),
                _ => None,
            }
        } else {
            None
        }
    }
}

/// One member of the cleanup-sections object: `main`, `advanced` and
/// `dictionary` are all required.
pub open spec fn spec_sections_members(
    s: Seq<char>,
    k: int,
    main: Option<PromptSectionV>,
    advanced: Option<PromptSectionV>,
    dictionary: Option<PromptSectionV>,
    fuel: nat,
) -> Option<(CleanupPromptSectionsV, int)>
    decreases fuel,
{
    if fuel == 0 {
        None
    } else {
        match spec_parse_string(s, k) {
            Some((name, j)) => {
                let c = spec_skip_ws(s, j);
                if c < s.len() && s[c] == ':' {
                    let v = spec_skip_ws(s, c + 1);
                    if name == "main"@ {
                        match spec_parse_section(s, v, (fuel - 1) as nat) {
                            Some((sec, e)) => spec_sections_after(
                                s,
                                e,
                                Some(sec),
                                advanced,
                                dictionary,
                                (fuel - 1) as nat,
                            ),
                            None => None,
                        }
                    } else if name == "advanced"@ {
                        match spec_parse_section(s, v, (fuel - 1) as nat) {
                            Some((sec, e)) => spec_sections_after(
                                s,
                                e,
                                main,
                                Some(sec),
                                dictionary,
                                (fuel - 1) as nat,
                            ),
                            None => None,
                        }
                    } else if name == "dictionary"@ {
                        match spec_parse_section(s, v, (fuel - 1) as nat) {
                            Some((sec, e)) => spec_sections_after(
                                s,
                                e,
                                main,
                                advanced,
                                Some(sec),
                                (fuel - 1) as nat,
                            ),
                            None => None,
                        }
                    } else {
                        match spec_skip_value(s, v, (fuel - 1) as nat) {
                            Some(e) => spec_sections_after(
                                s,
                                e,
                                main,
                                advanced,
                                dictionary,
                                (fuel - 1) as nat,
                            ),
                            None => None,
                        }
                    }
                } else {
                    None
                }
            },
            None => None,
        }
    }
}

/// The cleanup-sections object.
pub open spec fn spec_parse_sections(s: Seq<char>, i: int, fuel: nat) -> Option<
    (CleanupPromptSectionsV, int),
> {
    if 0 <= i < s.len() && s[i] == '{' {
        let k = spec_skip_ws(s, i + 1);
        if k < s.len() && s[k] == '}' {
            None
        } else {
            spec_sections_members(s, k, None, None, None, fuel)
        }
    } else {
        None
    }
}

/// `null` or the cleanup-sections object.
pub open spec fn spec_parse_opt_sections(s: Seq<char>, i: int, fuel: nat) -> Option<
    (Option<CleanupPromptSectionsV>, int),
> {
    if spec_null_at(s, i) {
        Some((None, i + 4))
    } else {
        match spec_parse_sections(s, i, fuel) {
            Some((v, j)) => Some((Some(v), j)),
            None => None,
        }
    }
}

/// After a member of the top-level settings object.
pub open spec fn spec_settings_after(s: Seq<char>, e: int, acc: AppSettingsV, fuel: nat) -> Option<
    (AppSettingsV, int),
>
    decreases fuel,
{
    if fuel == 0 {
        None
    } else {
        let t = spec_skip_ws(s, e);
        if t < s.len() && s[t] == ',' {
            spec_settings_members(s, spec_skip_ws(s, t + 1), acc, (fuel - 1) as nat)
        } else if t < s.len() && s[t] == '}' {
            Some((acc, t + 1))
        } else {
            None
        }
    }
}

/// One member of the top-level settings object: every known field
/// overwrites its slot in the record built so far, every unknown field
/// is skipped.
pub open spec fn spec_settings_members(s: Seq<char>, k: int, acc: AppSettingsV, fuel: nat) -> Option<
    (AppSettingsV, int),
>
    decreases fuel,
{
    if fuel == 0 {
        None
    } else {
        match spec_parse_string(s, k) {
            Some((name, j)) => {
                let c = spec_skip_ws(s, j);
                if c < s.len() && s[c] == ':' {
                    let v = spec_skip_ws(s, c + 1);
                    if name == "toggle_hotkey"@ {
                        match spec_parse_hotkey(s, v, (fuel - 1) as nat) {
                            Some((h, e)) => spec_settings_after(
                                s,
                                e,
                                AppSettingsV { toggle_hotkey: h, ..acc },
                                (fuel - 1) as nat,
                            ),
                            None => None,
                        }
                    } else if name == "hold_hotkey"@ {
                        match spec_parse_hotkey(s, v, (fuel - 1) as nat) {
                            Some((h, e)) => spec_settings_after(
                                s,
                                e,
                                AppSettingsV { hold_hotkey: h, ..acc },
                                (fuel - 1) as nat,
                            ),
                            None => None,
                        }
                    } else if name == "paste_last_hotkey"@ {
                        match spec_parse_hotkey(s, v, (fuel - 1) as nat) {
                            Some((h, e)) => spec_settings_after(
                                s,
                                e,
                                AppSettingsV { paste_last_hotkey: h, ..acc },
                                (fuel - 1) as nat,
                            ),
                            None => None,
                        }
                    } else if name == "selected_mic_id"@ {
                        match spec_parse_opt_str(s, v) {
                            Some((m, e)) => spec_settings_after(
                                s,
                                e,
                                AppSettingsV { selected_mic_id: m, ..acc },
                                (fuel - 1) as nat,
                            ),
                            None => None,
                        }
                    } else if name == "sound_enabled"@ {
                        match spec_parse_bool(s, v) {
                            Some((b, e)) => spec_settings_after(
                                s,
                                e,
                                AppSettingsV { sound_enabled: b, ..acc },
                                (fuel - 1) as nat,
                            ),
                            None => None,
                        }
                    } else if name == "cleanup_prompt_sections"@ {
                        match spec_parse_opt_sections(s, v, (fuel - 1) as nat) {
                            Some((cs, e)) => spec_settings_after(
                                s,
                                e,
                                AppSettingsV { cleanup_prompt_sections: cs, ..acc },
                                (fuel - 1) as nat,
                            ),
                            None => None,
                        }
                    } else if name == "stt_provider"@ {
                        match spec_parse_opt_str(s, v) {
                            Some((p, e)) => spec_settings_after(
                                s,
                                e,
                                AppSettingsV { stt_provider: p, ..acc },
                                (fuel - 1) as nat,
                            ),
                            None => None,
                        }
                    } else if name == "llm_provider"@ {
                        match spec_parse_opt_str(s, v) {
                            Some((p, e)) => spec_settings_after(
                                s,
                                e,
                                AppSettingsV { llm_provider: p, ..acc },
                                (fuel - 1) as nat,
                            ),
                            None => None,
                        }
                    } else if name == "auto_mute_audio"@ {
                        match spec_parse_bool(s, v) {
                            Some((b, e)) => spec_settings_after(
                                s,
                                e,
                                AppSettingsV { auto_mute_audio: b, ..acc },
                                (fuel - 1) as nat,
                            ),
                            None => None,
                        }
                    } else if name == "stt_timeout_seconds"@ {
                        match spec_parse_opt_u64(s, v) {
                            Some((n, e)) => spec_settings_after(
                                s,
                                e,
                                AppSettingsV { stt_timeout_seconds: n, ..acc },
                                (fuel - 1) as nat,
                            ),
                            None => None,
                        }
                    } else {
                        match spec_skip_value(s, v, (fuel - 1) as nat) {
                            Some(e) => spec_settings_after(s, e, acc, (fuel - 1) as nat),
                            None => None,
                        }
                    }
                } else {
                    None
                }
            },
            None => None,
        }
    }
}

/// The whole settings document: one object, nothing but whitespace
/// around it, each missing field keeping its default.
pub open spec fn spec_parse_settings(s: Seq<char>) -> Option<AppSettingsV> {
    let i = spec_skip_ws(s, 0);
    if i < s.len() && s[i] == '{' {
        let k = spec_skip_ws(s, i + 1);
        if k < s.len() && s[k] == '}' {
            let e = spec_skip_ws(s, k + 1);
            if e == s.len() {
                Some(default_settings_spec())
            } else {
                None
            }
        } else {
            match spec_settings_members(s, k, default_settings_spec(), s.len() as nat) {
                Some((v, j)) => {
                    let e = spec_skip_ws(s, j);
                    if e == s.len() {
                        Some(v)
                    } else {
                        None
                    }
                },
                None => None,
            }
        }
    } else {
        None
    }
}

/// What loading yields for given file contents: the parsed record, or
/// the fully-defaulted record when the file is absent or not valid.
pub open spec fn spec_load_settings(content: Option<Seq<char>>) -> AppSettingsV {
    match content {
        None => default_settings_spec(),
        Some(s) => match spec_parse_settings(s) {
            Some(v) => v,
            None => default_settings_spec(),
        },
    }
}

/// Character-sequence equality between a parsed name and a literal.
pub fn chars_eq_str(v: &Vec<char>, s: &str) -> (r: bool)
    ensures
        r == (v@ == s@),
{
    let len = s.unicode_len();
    if v.len() != len {
        return false;
    }
    let mut i: usize = 0;
    while i < len
        invariant
            i <= len,
            len == s@.len(),
            len == v@.len(),
            forall|k: int| 0 <= k < i ==> v@[k] == s@[k],
        decreases len - i,
    {
        if v[i] != s.get_char(i) {
            return false;
        }
        i = i + 1;
    }
    proof {
        assert(v@ =~= s@);
    }
    true
}

fn prepend_string(v: String, rest: Vec<String>) -> (out: Vec<String>)
    ensures
        out.deep_view() == seq![v@] + rest.deep_view(),
{
    let ghost prevdv = rest.deep_view();
    let ghost vview = v@;
    let ghost restview = rest@;
    let mut tail = rest;
    let mut out: Vec<String> = Vec::new();
    out.push(v);
    out.append(&mut tail);
    proof {
        assert forall|x: int| 0 <= x < out.deep_view().len() implies out.deep_view()[x] == (
        seq![vview] + prevdv)[x] by {
            if x == 0 {
                assert(out@[0]@ == vview);
            } else {
                assert(out@[x] == restview[x - 1]);
            }
        }
        assert(out.deep_view() =~= seq![vview] + prevdv);
    }
    out
}

pub fn parse_bool(s: &Vec<char>, i: usize) -> (r: Option<(bool, usize)>)
    requires
        i <= s@.len(),
    ensures
        match r {
            Some(p) => spec_parse_bool(s@, i as int) == Some((p.0, p.1 as int)) && p.1 <= s@.len(),
            None => spec_parse_bool(s@, i as int) is None,
        },
{
    let n: usize = s.len();
    if true_at(s, i) {
        Some((true, i + 4))
    } else if false_at(s, i) {
        Some((false, i + 5))
    } else {
        None
    }
}

/// A string parsed into an owned `String`.
fn parse_string_owned(s: &Vec<char>, i: usize) -> (r: Option<(String, usize)>)
    requires
        i <= s@.len(),
    ensures
        match r {
            Some(p) => spec_parse_string(s@, i as int) == Some((p.0@, p.1 as int)) && i < p.1
                <= s@.len(),
            None => spec_parse_string(s@, i as int) is None,
        },
{
    match parse_string(s, i) {
        Some((v, j)) => Some((chars_to_string(&v), j)),
        None => None,
    }
}

pub fn parse_opt_str(s: &Vec<char>, i: usize) -> (r: Option<(Option<String>, usize)>)
    requires
        i <= s@.len(),
    ensures
        match r {
            Some(p) => spec_parse_opt_str(s@, i as int) == Some(
                (crate::settings::opt_str_view(p.0), p.1 as int),
            ) && p.1 <= s@.len(),
            None => spec_parse_opt_str(s@, i as int) is None,
        },
{
    let n: usize = s.len();
    if null_at(s, i) {
        Some((None, i + 4))
    } else {
        match parse_string_owned(s, i) {
            Some((v, j)) => Some((Some(v), j)),
            None => None,
        }
    }
}

pub fn parse_opt_u64(s: &Vec<char>, i: usize) -> (r: Option<(Option<u64>, usize)>)
    requires
        i <= s@.len(),
    ensures
        match r {
            Some(p) => spec_parse_opt_u64(s@, i as int) == Some((p.0, p.1 as int)) && p.1
                <= s@.len(),
            None => spec_parse_opt_u64(s@, i as int) is None,
        },
{
    let n: usize = s.len();
    if null_at(s, i) {
        Some((None, i + 4))
    } else {
        match parse_number(s, i) {
            Some((v, j)) => Some((v, j)),
            None => None,
        }
    }
}

fn parse_str_elems(s: &Vec<char>, k: usize, fuel: usize) -> (r: Option<(Vec<String>, usize)>)
    requires
        k <= s@.len(),
    ensures
        match r {
            Some(p) => spec_parse_str_elems(s@, k as int, fuel as nat) == Some(
                (p.0.deep_view(), p.1 as int),
            ) && p.1 <= s@.len(),
            None => spec_parse_str_elems(s@, k as int, fuel as nat) is None,
        },
    decreases fuel,
{
    if fuel == 0 {
        return None;
    }
    match parse_string_owned(s, k) {
        Some((v, j)) => {
            let e = skip_ws(s, j);
            if e < s.len() && s[e] == ',' {
                let n = skip_ws(s, e + 1);
                match parse_str_elems(s, n, fuel - 1) {
                    Some((rest, end)) => Some((prepend_string(v, rest), end)),
                    None => None,
                }
            } else if e < s.len() && s[e] == ']' {
                let mut one: Vec<String> = Vec::new();
                one.push(v);
                proof {
                    assert(one.deep_view() =~= seq![one@[0]@]);
                }
                Some((one, e + 1))
            } else {
                None
            }
        },
        None => None,
    }
}

pub fn parse_str_array(s: &Vec<char>, i: usize, fuel: usize) -> (r: Option<(Vec<String>, usize)>)
    requires
        i <= s@.len(),
    ensures
        match r {
            Some(p) => spec_parse_str_array(s@, i as int, fuel as nat) == Some(
                (p.0.deep_view(), p.1 as int),
            ) && p.1 <= s@.len(),
            None => spec_parse_str_array(s@, i as int, fuel as nat) is None,
        },
{
    if i < s.len() && s[i] == '[' {
        let k = skip_ws(s, i + 1);
        if k < s.len() && s[k] == ']' {
            let none: Vec<String> = Vec::new();
            proof {
                assert(none.deep_view() =~= Seq::<Seq<char>>::empty());
            }
            Some((none, k + 1))
        } else {
            parse_str_elems(s, k, fuel)
        }
    } else {
        None
    }
}

fn hotkey_after(
    s: &Vec<char>,
    e: usize,
    mods: Option<Vec<String>>,
    key: Option<String>,
    fuel: usize,
) -> (r: Option<(HotkeyConfig, usize)>)
    requires
        e <= s@.len(),
    ensures
        match r {
            Some(p) => spec_hotkey_after(
                s@,
                e as int,
                opt_mods_view(mods),
                opt_key_view(key),
                fuel as nat,
            ) == Some((p.0@, p.1 as int)) && p.1 <= s@.len(),
            None => spec_hotkey_after(
                s@,
                e as int,
                opt_mods_view(mods),
                opt_key_view(key),
                fuel as nat,
            ) is None,
        },
    decreases fuel,
{
    if fuel == 0 {
        return None;
    }
    let t = skip_ws(s, e);
    if t < s.len() && s[t] == ',' {
        let n = skip_ws(s, t + 1);
        hotkey_members(s, n, mods, key, fuel - 1)
    } else if t < s.len() && s[t] == '}' {
        match (mods, key) {
            (Some(m), Some(kk)) => Some((HotkeyConfig { modifiers: m, key: kk }, t + 1)),
            _ => None,
        }
    } else {
        None
    }
}

fn hotkey_members(
    s: &Vec<char>,
    k: usize,
    mods: Option<Vec<String>>,
    key: Option<String>,
    fuel: usize,
) -> (r: Option<(HotkeyConfig, usize)>)
    requires
        k <= s@.len(),
    ensures
        match r {
            Some(p) => spec_hotkey_members(
                s@,
                k as int,
                opt_mods_view(mods),
                opt_key_view(key),
                fuel as nat,
            ) == Some((p.0@, p.1 as int)) && p.1 <= s@.len(),
            None => spec_hotkey_members(
                s@,
                k as int,
                opt_mods_view(mods),
                opt_key_view(key),
                fuel as nat,
            ) is None,
        },
    decreases fuel,
{
    if fuel == 0 {
        return None;
    }
    match parse_string(s, k) {
        Some((name, j)) => {
            let c = skip_ws(s, j);
            if c < s.len() && s[c] == ':' {
                let v = skip_ws(s, c + 1);
                if chars_eq_str(&name, "modifiers") {
                    match parse_str_array(s, v, fuel - 1) {
                        Some((m, e)) => hotkey_after(s, e, Some(m), key, fuel - 1),
                        None => None,
                    }
                } else if chars_eq_str(&name, "key") {
                    match parse_string_owned(s, v) {
                        Some((kk, e)) => hotkey_after(s, e, mods, Some(kk), fuel - 1),
                        None => None,
                    }
                } else {
                    match skip_value(s, v, fuel - 1) {
                        Some(e) => hotkey_after(s, e, mods, key, fuel - 1),
                        None => None,
                    }
                }
            } else {
                None
            }
        },
        None => None,
    }
}

pub fn parse_hotkey(s: &Vec<char>, i: usize, fuel: usize) -> (r: Option<(HotkeyConfig, usize)>)
    requires
        i <= s@.len(),
    ensures
        match r {
            Some(p) => spec_parse_hotkey(s@, i as int, fuel as nat) == Some((p.0@, p.1 as int))
                && p.1 <= s@.len(),
            None => spec_parse_hotkey(s@, i as int, fuel as nat) is None,
        },
{
    if i < s.len() && s[i] == '{' {
        let k = skip_ws(s, i + 1);
        if k < s.len() && s[k] == '}' {
            None
        } else {
            hotkey_members(s, k, None, None, fuel)
        }
    } else {
        None
    }
}

fn section_after(
    s: &Vec<char>,
    e: usize,
    enabled: Option<bool>,
    content: Option<String>,
    fuel: usize,
) -> (r: Option<(PromptSection, usize)>)
    requires
        e <= s@.len(),
    ensures
        match r {
            Some(p) => spec_section_after(
                s@,
                e as int,
                enabled,
                crate::settings::opt_str_view(content),
                fuel as nat,
            ) == Some((p.0@, p.1 as int)) && p.1 <= s@.len(),
            None => spec_section_after(
                s@,
                e as int,
                enabled,
                crate::settings::opt_str_view(content),
                fuel as nat,
            ) is None,
        },
    decreases fuel,
{
    if fuel == 0 {
        return None;
    }
    let t = skip_ws(s, e);
    if t < s.len() && s[t] == ',' {
        let n = skip_ws(s, t + 1);
        section_members(s, n, enabled, content, fuel - 1)
    } else if t < s.len() && s[t] == '}' {
        match enabled {
            Some(en) => Some((PromptSection { enabled: en, content }, t + 1)),
            None => None,
        }
    } else {
        None
    }
}

fn section_members(
    s: &Vec<char>,
    k: usize,
    enabled: Option<bool>,
    content: Option<String>,
    fuel: usize,
) -> (r: Option<(PromptSection, usize)>)
    requires
        k <= s@.len(),
    ensures
        match r {
            Some(p) => spec_section_members(
                s@,
                k as int,
                enabled,
                crate::settings::opt_str_view(content),
                fuel as nat,
            ) == Some((p.0@, p.1 as int)) && p.1 <= s@.len(),
            None => spec_section_members(
                s@,
                k as int,
                enabled,
                crate::settings::opt_str_view(content),
                fuel as nat,
            ) is None,
        },
    decreases fuel,
{
    if fuel == 0 {
        return None;
    }
    match parse_string(s, k) {
        Some((name, j)) => {
            let c = skip_ws(s, j);
            if c < s.len() && s[c] == ':' {
                let v = skip_ws(s, c + 1);
                if chars_eq_str(&name, "enabled") {
                    match parse_bool(s, v) {
                        Some((b, e)) => section_after(s, e, Some(b), content, fuel - 1),
                        None => None,
                    }
                } else if chars_eq_str(&name, "content") {
                    match parse_opt_str(s, v) {
                        Some((cc, e)) => section_after(s, e, enabled, cc, fuel - 1),
                        None => None,
                    }
                } else {
                    match skip_value(s, v, fuel - 1) {
                        Some(e) => section_after(s, e, enabled, content, fuel - 1),
                        None => None,
                    }
                }
            } else {
                None
            }
        },
        None => None,
    }
}

pub fn parse_section(s: &Vec<char>, i: usize, fuel: usize) -> (r: Option<(PromptSection, usize)>)
    requires
        i <= s@.len(),
    ensures
        match r {
            Some(p) => spec_parse_section(s@, i as int, fuel as nat) == Some((p.0@, p.1 as int))
                && p.1 <= s@.len(),
            None => spec_parse_section(s@, i as int, fuel as nat) is None,
        },
{
    if i < s.len() && s[i] == '{' {
        let k = skip_ws(s, i + 1);
        if k < s.len() && s[k] == '}' {
            None
        } else {
            section_members(s, k, None, None, fuel)
        }
    } else {
        None
    }
}

fn sections_after(
    s: &Vec<char>,
    e: usize,
    main: Option<PromptSection>,
    advanced: Option<PromptSection>,
    dictionary: Option<PromptSection>,
    fuel: usize,
) -> (r: Option<(CleanupPromptSections, usize)>)
    requires
        e <= s@.len(),
    ensures
        match r {
            Some(p) => spec_sections_after(
                s@,
                e as int,
                opt_section_view(main),
                opt_section_view(advanced),
                opt_section_view(dictionary),
                fuel as nat,
            ) == Some((p.0@, p.1 as int)) && p.1 <= s@.len(),
            None => spec_sections_after(
                s@,
                e as int,
                opt_section_view(main),
                opt_section_view(advanced),
                opt_section_view(dictionary),
                fuel as nat,
            ) is None,
        },
    decreases fuel,
{
    if fuel == 0 {
        return None;
    }
    let t = skip_ws(s, e);
    if t < s.len() && s[t] == ',' {
        let n = skip_ws(s, t + 1);
        sections_members(s, n, main, advanced, dictionary, fuel - 1)
    } else if t < s.len() && s[t] == '}' {
        match (main, advanced, dictionary) {
            (Some(m), Some(a), Some(d)) => Some(
                (CleanupPromptSections { main: m, advanced: a, dictionary: d }, t + 1),
            ),
            _ => None,
        }
    } else {
        None
    }
}

fn sections_members(
    s: &Vec<char>,
    k: usize,
    main: Option<PromptSection>,
    advanced: Option<PromptSection>,
    dictionary: Option<PromptSection>,
    fuel: usize,
) -> (r: Option<(CleanupPromptSections, usize)>)
    requires
        k <= s@.len(),
    ensures
        match r {
            Some(p) => spec_sections_members(
                s@,
                k as int,
                opt_section_view(main),
                opt_section_view(advanced),
                opt_section_view(dictionary),
                fuel as nat,
            ) == Some((p.0@, p.1 as int)) && p.1 <= s@.len(),
            None => spec_sections_members(
                s@,
                k as int,
                opt_section_view(main),
                opt_section_view(advanced),
                opt_section_view(dictionary),
                fuel as nat,
            ) is None,
        },
    decreases fuel,
{
    if fuel == 0 {
        return None;
    }
    match parse_string(s, k) {
        Some((name, j)) => {
            let c = skip_ws(s, j);
            if c < s.len() && s[c] == ':' {
                let v = skip_ws(s, c + 1);
                if chars_eq_str(&name, "main") {
                    match parse_section(s, v, fuel - 1) {
                        Some((sec, e)) => sections_after(
                            s,
                            e,
                            Some(sec),
                            advanced,
                            dictionary,
                            fuel - 1,
                        ),
                        None => None,
                    }
                } else if chars_eq_str(&name, "advanced") {
                    match parse_section(s, v, fuel - 1) {
                        Some((sec, e)) => sections_after(s, e, main, Some(sec), dictionary, fuel - 1),
                        None => None,
                    }
                } else if chars_eq_str(&name, "dictionary") {
                    match parse_section(s, v, fuel - 1) {
                        Some((sec, e)) => sections_after(s, e, main, advanced, Some(sec), fuel - 1),
                        None => None,
                    }
                } else {
                    match skip_value(s, v, fuel - 1) {
                        Some(e) => sections_after(s, e, main, advanced, dictionary, fuel - 1),
                        None => None,
                    }
                }
            } else {
                None
            }
        },
        None => None,
    }
}

pub fn parse_sections(s: &Vec<char>, i: usize, fuel: usize) -> (r: Option<
    (CleanupPromptSections, usize),
>)
    requires
        i <= s@.len(),
    ensures
        match r {
            Some(p) => spec_parse_sections(s@, i as int, fuel as nat) == Some((p.0@, p.1 as int))
                && p.1 <= s@.len(),
            None => spec_parse_sections(s@, i as int, fuel as nat) is None,
        },
{
    if i < s.len() && s[i] == '{' {
        let k = skip_ws(s, i + 1);
        if k < s.len() && s[k] == '}' {
            None
        } else {
            sections_members(s, k, None, None, None, fuel)
        }
    } else {
        None
    }
}

pub fn parse_opt_sections(s: &Vec<char>, i: usize, fuel: usize) -> (r: Option<
    (Option<CleanupPromptSections>, usize),
>)
    requires
        i <= s@.len(),
    ensures
        match r {
            Some(p) => spec_parse_opt_sections(s@, i as int, fuel as nat) == Some(
                (crate::settings::opt_sections_view(p.0), p.1 as int),
            ) && p.1 <= s@.len(),
            None => spec_parse_opt_sections(s@, i as int, fuel as nat) is None,
        },
{
    let n: usize = s.len();
    if null_at(s, i) {
        Some((None, i + 4))
    } else {
        match parse_sections(s, i, fuel) {
            Some((v, j)) => Some((Some(v), j)),
            None => None,
        }
    }
}

fn settings_after(s: &Vec<char>, e: usize, acc: AppSettings, fuel: usize) -> (r: Option<
    (AppSettings, usize),
>)
    requires
        e <= s@.len(),
    ensures
        match r {
            Some(p) => spec_settings_after(s@, e as int, acc@, fuel as nat) == Some(
                (p.0@, p.1 as int),
            ) && p.1 <= s@.len(),
            None => spec_settings_after(s@, e as int, acc@, fuel as nat) is None,
        },
    decreases fuel,
{
    if fuel == 0 {
        return None;
    }
    let t = skip_ws(s, e);
    if t < s.len() && s[t] == ',' {
        let n = skip_ws(s, t + 1);
        settings_members(s, n, acc, fuel - 1)
    } else if t < s.len() && s[t] == '}' {
        Some((acc, t + 1))
    } else {
        None
    }
}

fn settings_members(s: &Vec<char>, k: usize, acc: AppSettings, fuel: usize) -> (r: Option<
    (AppSettings, usize),
>)
    requires
        k <= s@.len(),
    ensures
        match r {
            Some(p) => spec_settings_members(s@, k as int, acc@, fuel as nat) == Some(
                (p.0@, p.1 as int),
            ) && p.1 <= s@.len(),
            None => spec_settings_members(s@, k as int, acc@, fuel as nat) is None,
        },
    decreases fuel,
{
    if fuel == 0 {
        return None;
    }
    let mut acc = acc;
    match parse_string(s, k) {
        Some((name, j)) => {
            let c = skip_ws(s, j);
            if c < s.len() && s[c] == ':' {
                let v = skip_ws(s, c + 1);
                if chars_eq_str(&name, "toggle_hotkey") {
                    match parse_hotkey(s, v, fuel - 1) {
                        Some((h, e)) => {
                            acc.toggle_hotkey = h;
                            settings_after(s, e, acc, fuel - 1)
                        },
                        None => None,
                    }
                } else if chars_eq_str(&name, "hold_hotkey") {
                    match parse_hotkey(s, v, fuel - 1) {
                        Some((h, e)) => {
                            acc.hold_hotkey = h;
                            settings_after(s, e, acc, fuel - 1)
                        },
                        None => None,
                    }
                } else if chars_eq_str(&name, "paste_last_hotkey") {
                    match parse_hotkey(s, v, fuel - 1) {
                        Some((h, e)) => {
                            acc.paste_last_hotkey = h;
                            settings_after(s, e, acc, fuel - 1)
                        },
                        None => None,
                    }
                } else if chars_eq_str(&name, "selected_mic_id") {
                    match parse_opt_str(s, v) {
                        Some((m, e)) => {
                            acc.selected_mic_id = m;
                            settings_after(s, e, acc, fuel - 1)
                        },
                        None => None,
                    }
                } else if chars_eq_str(&name, "sound_enabled") {
                    match parse_bool(s, v) {
                        Some((b, e)) => {
                            acc.sound_enabled = b;
                            settings_after(s, e, acc, fuel - 1)
                        },
                        None => None,
                    }
                } else if chars_eq_str(&name, "cleanup_prompt_sections") {
                    match parse_opt_sections(s, v, fuel - 1) {
                        Some((cs, e)) => {
                            acc.cleanup_prompt_sections = cs;
                            settings_after(s, e, acc, fuel - 1)
                        },
                        None => None,
                    }
                } else if chars_eq_str(&name, "stt_provider") {
                    match parse_opt_str(s, v) {
                        Some((pv, e)) => {
                            acc.stt_provider = pv;
                            settings_after(s, e, acc, fuel - 1)
                        },
                        None => None,
                    }
                } else if chars_eq_str(&name, "llm_provider") {
                    match parse_opt_str(s, v) {
                        Some((pv, e)) => {
                            acc.llm_provider = pv;
                            settings_after(s, e, acc, fuel - 1)
                        },
                        None => None,
                    }
                } else if chars_eq_str(&name, "auto_mute_audio") {
                    match parse_bool(s, v) {
                        Some((b, e)) => {
                            acc.auto_mute_audio = b;
                            settings_after(s, e, acc, fuel - 1)
                        },
                        None => None,
                    }
                } else if chars_eq_str(&name, "stt_timeout_seconds") {
                    match parse_opt_u64(s, v) {
                        Some((n, e)) => {
                            acc.stt_timeout_seconds = n;
                            settings_after(s, e, acc, fuel - 1)
                        },
                        None => None,
                    }
                } else {
                    match skip_value(s, v, fuel - 1) {
                        Some(e) => settings_after(s, e, acc, fuel - 1),
                        None => None,
                    }
                }
            } else {
                None
            }
        },
        None => None,
    }
}

/// The whole settings document, parsed from its characters.
pub fn parse_settings_chars(s: &Vec<char>) -> (r: Option<AppSettings>)
    ensures
        match r {
            Some(v) => spec_parse_settings(s@) == Some(v@),
            None => spec_parse_settings(s@) is None,
        },
{
    let i = skip_ws(s, 0);
    if i < s.len() && s[i] == '{' {
        let k = skip_ws(s, i + 1);
        if k < s.len() && s[k] == '}' {
            let e = skip_ws(s, k + 1);
            if e == s.len() {
                Some(AppSettings::default())
            } else {
                None
            }
        } else {
            match settings_members(s, k, AppSettings::default(), s.len()) {
                Some((v, j)) => {
                    let e = skip_ws(s, j);
                    if e == s.len() {
                        Some(v)
                    } else {
                        None
                    }
                },
                None => None,
            }
        }
    } else {
        None
    }
}

/// Load a settings record from file contents: an absent or invalid
/// document silently yields the fully-defaulted record, never an error.
pub fn load_settings(content: Option<&str>) -> (r: AppSettings)
    ensures
        r@ == spec_load_settings(
            match content {
                Some(c) => Some(c@),
                None => None,
            },
        ),
{
    match content {
        None => AppSettings::default(),
        Some(c) => {
            let chars = str_to_chars(c);
            match parse_settings_chars(&chars) {
                Some(v) => v,
                None => AppSettings::default(),
            }
        },
    }
}

pub open spec fn opt_mods_view(o: Option<Vec<String>>) -> Option<Seq<Seq<char>>> {
    match o {
        Some(v) => Some(v.deep_view()),
        None => None,
    }
}

pub open spec fn opt_key_view(o: Option<String>) -> Option<Seq<char>> {
    match o {
        Some(v) => Some(v@),
        None => None,
    }
}

pub open spec fn opt_section_view(o: Option<PromptSection>) -> Option<PromptSectionV> {
    match o {
        Some(v) => Some(v@),
        None => None,
    }
}


} // verus!
