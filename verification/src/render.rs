//! Writing a settings record as pretty-printed JSON text.  Every
//! routine appends exactly what its specification-level render function
//! describes, so the serialized form of a record is pinned down
//! character by character.

use vstd::prelude::*;

use crate::chars::{append_str, chars_to_string};
use crate::hotkey::{HotkeyConfig, HotkeyV};
use crate::settings::{
    opt_sections_view, opt_str_view, AppSettings, AppSettingsV, CleanupPromptSections,
    CleanupPromptSectionsV, PromptSection, PromptSectionV,
};

verus! {

pub open spec fn hex_digit_char(n: int) -> char {
    if n == 0 {
        '0'
    } else if n == 1 {
        '1'
    } else if n == 2 {
        '2'
    } else if n == 3 {
        '3'
    } else if n == 4 {
        '4'
    } else if n == 5 {
        '5'
    } else if n == 6 {
        '6'
    } else if n == 7 {
        '7'
    } else if n == 8 {
        '8'
    } else if n == 9 {
        '9'
    } else if n == 10 {
        'a'
    } else if n == 11 {
        'b'
    } else if n == 12 {
        'c'
    } else if n == 13 {
        'd'
    } else if n == 14 {
        'e'
    } else {
        'f'
    }
}

fn hex_digit_exec(n: u32) -> (r: char)
    requires
        n < 16,
    ensures
        r == hex_digit_char(n as int),
{
    match n {
        0 => '0',
        1 => '1',
        2 => '2',
        3 => '3',
        4 => '4',
        5 => '5',
        6 => '6',
        7 => '7',
        8 => '8',
        9 => '9',
        10 => 'a',
        11 => 'b',
        12 => 'c',
        13 => 'd',
        14 => 'e',
        _ => 'f',
    }
}

/// How one character is written inside a JSON string: quote, backslash
/// and control characters are escaped, everything else stands as it is.
pub open spec fn escape_char(c: char) -> Seq<char> {
    if c == '"' {
        seq!['\\', '"']
    } else if c == '\\' {
        seq!['\\', '\\']
    } else if c == '\u{8}' {
        seq!['\\', 'b']
    } else if c == '\u{c}' {
        seq!['\\', 'f']
    } else if c == '\n' {
        seq!['\\', 'n']
    } else if c == '\r' {
        seq!['\\', 'r']
    } else if c == '\t' {
        seq!['\\', 't']
    } else if ' ' > c {
        seq!['\\', 'u', '0', '0', hex_digit_char(c as int / 16), hex_digit_char(c as int % 16)]
    } else {
        seq![c]
    }
}

pub open spec fn escape_seq(s: Seq<char>) -> Seq<char>
    decreases s.len(),
{
    if s.len() == 0 {
        Seq::empty()
    } else {
        escape_seq(s.drop_last()) + escape_char(s.last())
    }
}

pub open spec fn spec_render_string(s: Seq<char>) -> Seq<char> {
    seq!['"'] + escape_seq(s) + seq!['"']
}

pub open spec fn spec_render_bool(b: bool) -> Seq<char> {
    if b {
        "true"@
    } else {
        "false"@
    }
}

pub open spec fn spec_render_opt_str(o: Option<Seq<char>>) -> Seq<char> {
    match o {
        None => "null"@,
        Some(v) => spec_render_string(v),
    }
}

pub open spec fn spec_render_nat(n: nat) -> Seq<char>
    decreases n,
{
    if n < 10 {
        seq![hex_digit_char(n as int)]
    } else {
        spec_render_nat(n / 10) + seq![hex_digit_char((n % 10) as int)]
    }
}

pub open spec fn spec_render_opt_u64(o: Option<u64>) -> Seq<char> {
    match o {
        None => "null"@,
        Some(n) => spec_render_nat(n as nat),
    }
}

/// The modifier strings, one per line, separated by commas.
pub open spec fn mods_joined(mods: Seq<Seq<char>>) -> Seq<char>
    decreases mods.len(),
{
    if mods.len() == 0 {
        Seq::empty()
    } else if mods.len() == 1 {
        "      "@ + spec_render_string(mods[0])
    } else {
        mods_joined(mods.drop_last()) + ",\n"@ + "      "@ + spec_render_string(mods.last())
    }
}

pub open spec fn spec_render_mods(mods: Seq<Seq<char>>) -> Seq<char> {
    if mods.len() == 0 {
        "[]"@
    } else {
        "[\n"@ + mods_joined(mods) + "\n    ]"@
    }
}

pub open spec fn spec_render_hotkey(h: HotkeyV) -> Seq<char> {
    "{\n    \"modifiers\": "@ + spec_render_mods(h.modifiers) + ",\n    \"key\": "@
        + spec_render_string(h.key) + "\n  }"@
}

pub open spec fn spec_render_section(sec: PromptSectionV) -> Seq<char> {
    "{\n      \"enabled\": "@ + spec_render_bool(sec.enabled) + ",\n      \"content\": "@
        + spec_render_opt_str(sec.content) + "\n    }"@
}

pub open spec fn spec_render_sections(c: CleanupPromptSectionsV) -> Seq<char> {
    "{\n    \"main\": "@ + spec_render_section(c.main) + ",\n    \"advanced\": "@
        + spec_render_section(c.advanced) + ",\n    \"dictionary\": "@ + spec_render_section(
        c.dictionary,
    ) + "\n  }"@
}

pub open spec fn spec_render_opt_sections(o: Option<CleanupPromptSectionsV>) -> Seq<char> {
    match o {
        None => "null"@,
        Some(c) => spec_render_sections(c),
    }
}

/// The whole settings document as pretty JSON, fields in the record's
/// declared order.
pub open spec fn spec_render_settings(v: AppSettingsV) -> Seq<char> {
    "{\n  \"toggle_hotkey\": "@ + spec_render_hotkey(v.toggle_hotkey) + ",\n  \"hold_hotkey\": "@
        + spec_render_hotkey(v.hold_hotkey) + ",\n  \"paste_last_hotkey\": "@
        + spec_render_hotkey(v.paste_last_hotkey) + ",\n  \"selected_mic_id\": "@
        + spec_render_opt_str(v.selected_mic_id) + ",\n  \"sound_enabled\": "@ + spec_render_bool(
        v.sound_enabled,
    ) + ",\n  \"cleanup_prompt_sections\": "@ + spec_render_opt_sections(v.cleanup_prompt_sections)
        + ",\n  \"stt_provider\": "@ + spec_render_opt_str(v.stt_provider)
        + ",\n  \"llm_provider\": "@ + spec_render_opt_str(v.llm_provider)
        + ",\n  \"auto_mute_audio\": "@ + spec_render_bool(v.auto_mute_audio)
        + ",\n  \"stt_timeout_seconds\": "@ + spec_render_opt_u64(v.stt_timeout_seconds) + "\n}"@
}

fn append_escaped_char(out: &mut Vec<char>, c: char)
    ensures
        final(out)@ == old(out)@ + escape_char(c),
{
    if c == '"' {
        out.push('\\');
        out.push('"');
        assert(out@ =~= old(out)@ + escape_char(c));
    } else if c == '\\' {
        out.push('\\');
        out.push('\\');
        assert(out@ =~= old(out)@ + escape_char(c));
    } else if c == '\u{8}' {
        out.push('\\');
        out.push('b');
        assert(out@ =~= old(out)@ + escape_char(c));
    } else if c == '\u{c}' {
        out.push('\\');
        out.push('f');
        assert(out@ =~= old(out)@ + escape_char(c));
    } else if c == '\n' {
        out.push('\\');
        out.push('n');
        assert(out@ =~= old(out)@ + escape_char(c));
    } else if c == '\r' {
        out.push('\\');
        out.push('r');
        assert(out@ =~= old(out)@ + escape_char(c));
    } else if c == '\t' {
        out.push('\\');
        out.push('t');
        assert(out@ =~= old(out)@ + escape_char(c));
    } else if ' ' > c {
        out.push('\\');
        out.push('u');
        out.push('0');
        out.push('0');
        let u = c as u32;
        out.push(hex_digit_exec(u / 16));
        out.push(hex_digit_exec(u % 16));
        assert(out@ =~= old(out)@ + escape_char(c));
    } else {
        out.push(c);
        assert(out@ =~= old(out)@ + escape_char(c));
    }
}

fn append_escaped(out: &mut Vec<char>, s: &str)
    ensures
        final(out)@ == old(out)@ + escape_seq(s@),
{
    let len = s.unicode_len();
    let mut k: usize = 0;
    while k < len
        invariant
            k <= len,
            len == s@.len(),
            out@ == old(out)@ + escape_seq(s@.subrange(0, k as int)),
        decreases len - k,
    {
        append_escaped_char(out, s.get_char(k));
        proof {
            let pre = s@.subrange(0, k as int);
            let cur = s@.subrange(0, k + 1);
            assert(cur.drop_last() =~= pre);
            assert(cur.last() == s@[k as int]);
            assert(out@ =~= old(out)@ + escape_seq(cur));
        }
        k = k + 1;
    }
    proof {
        assert(s@.subrange(0, s@.len() as int) =~= s@);
    }
}

fn append_rendered_str(out: &mut Vec<char>, s: &str)
    ensures
        final(out)@ == old(out)@ + spec_render_string(s@),
{
    out.push('"');
    append_escaped(out, s);
    out.push('"');
    assert(out@ =~= old(out)@ + spec_render_string(s@));
}

fn append_bool(out: &mut Vec<char>, b: bool)
    ensures
        final(out)@ == old(out)@ + spec_render_bool(b),
{
    if b {
        append_str(out, "true");
    } else {
        append_str(out, "false");
    }
}

fn append_opt_str(out: &mut Vec<char>, o: &Option<String>)
    ensures
        final(out)@ == old(out)@ + spec_render_opt_str(opt_str_view(*o)),
{
    match o {
        None => append_str(out, "null"),
        Some(v) => append_rendered_str(out, v.as_str()),
    }
}

fn append_nat(out: &mut Vec<char>, n: u64)
    ensures
        final(out)@ == old(out)@ + spec_render_nat(n as nat),
    decreases n,
{
    if n < 10 {
        out.push(hex_digit_exec(n as u32));
        assert(out@ =~= old(out)@ + spec_render_nat(n as nat));
    } else {
        append_nat(out, n / 10);
        out.push(hex_digit_exec((n % 10) as u32));
        assert(out@ =~= old(out)@ + spec_render_nat(n as nat));
    }
}

fn append_opt_u64(out: &mut Vec<char>, o: &Option<u64>)
    ensures
        final(out)@ == old(out)@ + spec_render_opt_u64(*o),
{
    match o {
        None => append_str(out, "null"),
        Some(n) => append_nat(out, *n),
    }
}

fn append_mods(out: &mut Vec<char>, mods: &Vec<String>)
    ensures
        final(out)@ == old(out)@ + spec_render_mods(mods.deep_view()),
{
    let n = mods.len();
    if n == 0 {
        proof {
            assert(mods.deep_view().len() == 0);
        }
        append_str(out, "[]");
        return ;
    }
    append_str(out, "[\n");
    let mut i: usize = 0;
    while i < n
        invariant
            i <= n,
            n == mods@.len(),
            n == mods.deep_view().len(),
            out@ == old(out)@ + "[\n"@ + mods_joined(mods.deep_view().take(i as int)),
        decreases n - i,
    {
        if i > 0 {
            append_str(out, ",\n");
        }
        append_str(out, "      ");
        append_rendered_str(out, mods[i].as_str());
        proof {
            let dv = mods.deep_view();
            let cur = dv.take(i + 1);
            assert(cur.drop_last() =~= dv.take(i as int));
            assert(dv[i as int] == mods@[i as int]@);
            assert(cur.last() == mods@[i as int]@);
            assert(out@ =~= old(out)@ + "[\n"@ + mods_joined(cur));
        }
        i = i + 1;
    }
    proof {
        assert(mods.deep_view().take(n as int) =~= mods.deep_view());
    }
    append_str(out, "\n    ]");
    assert(out@ =~= old(out)@ + spec_render_mods(mods.deep_view()));
}

fn append_hotkey(out: &mut Vec<char>, h: &HotkeyConfig)
    ensures
        final(out)@ == old(out)@ + spec_render_hotkey(h@),
{
    append_str(out, "{\n    \"modifiers\": ");
    append_mods(out, &h.modifiers);
    append_str(out, ",\n    \"key\": ");
    append_rendered_str(out, h.key.as_str());
    append_str(out, "\n  }");
    assert(out@ =~= old(out)@ + spec_render_hotkey(h@));
}

fn append_section(out: &mut Vec<char>, sec: &PromptSection)
    ensures
        final(out)@ == old(out)@ + spec_render_section(sec@),
{
    append_str(out, "{\n      \"enabled\": ");
    append_bool(out, sec.enabled);
    append_str(out, ",\n      \"content\": ");
    append_opt_str(out, &sec.content);
    append_str(out, "\n    }");
    assert(out@ =~= old(out)@ + spec_render_section(sec@));
}

fn append_sections(out: &mut Vec<char>, c: &CleanupPromptSections)
    ensures
        final(out)@ == old(out)@ + spec_render_sections(c@),
{
    append_str(out, "{\n    \"main\": ");
    append_section(out, &c.main);
    append_str(out, ",\n    \"advanced\": ");
    append_section(out, &c.advanced);
    append_str(out, ",\n    \"dictionary\": ");
    append_section(out, &c.dictionary);
    append_str(out, "\n  }");
    assert(out@ =~= old(out)@ + spec_render_sections(c@));
}

fn append_opt_sections(out: &mut Vec<char>, o: &Option<CleanupPromptSections>)
    ensures
        final(out)@ == old(out)@ + spec_render_opt_sections(opt_sections_view(*o)),
{
    match o {
        None => append_str(out, "null"),
        Some(c) => append_sections(out, c),
    }
}

/// The settings record serialized to pretty JSON text.
pub fn render_settings(s: &AppSettings) -> (r: String)
    ensures
        r@ == spec_render_settings(s@),
{
    let mut out: Vec<char> = Vec::new();
    append_str(&mut out, "{\n  \"toggle_hotkey\": ");
    append_hotkey(&mut out, &s.toggle_hotkey);
    append_str(&mut out, ",\n  \"hold_hotkey\": ");
    append_hotkey(&mut out, &s.hold_hotkey);
    append_str(&mut out, ",\n  \"paste_last_hotkey\": ");
    append_hotkey(&mut out, &s.paste_last_hotkey);
    append_str(&mut out, ",\n  \"selected_mic_id\": ");
    append_opt_str(&mut out, &s.selected_mic_id);
    append_str(&mut out, ",\n  \"sound_enabled\": ");
    append_bool(&mut out, s.sound_enabled);
    append_str(&mut out, ",\n  \"cleanup_prompt_sections\": ");
    append_opt_sections(&mut out, &s.cleanup_prompt_sections);
    append_str(&mut out, ",\n  \"stt_provider\": ");
    append_opt_str(&mut out, &s.stt_provider);
    append_str(&mut out, ",\n  \"llm_provider\": ");
    append_opt_str(&mut out, &s.llm_provider);
    append_str(&mut out, ",\n  \"auto_mute_audio\": ");
    append_bool(&mut out, s.auto_mute_audio);
    append_str(&mut out, ",\n  \"stt_timeout_seconds\": ");
    append_opt_u64(&mut out, &s.stt_timeout_seconds);
    append_str(&mut out, "\n}");
    assert(out@ =~= spec_render_settings(s@));
    chars_to_string(&out)
}

} // verus!
