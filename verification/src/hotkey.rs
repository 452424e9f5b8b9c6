//! One configured keyboard shortcut: a collection of modifier names and
//! a main key name.  Two bindings are the same combination when their
//! keys match up to ASCII case and their case-folded modifier multisets
//! are equal — any order, any case, repeats counted.

use vstd::prelude::*;

use crate::chars::{
    append_str, chars_to_string, contains_seq, eq_ignore_case, lower_seq, str_eq_ignore_case,
    to_lower_char,
};

verus! {

/// Mathematical value of a [`HotkeyConfig`]: the modifier names and the
/// key name as character sequences.
pub ghost struct HotkeyV {
    pub modifiers: Seq<Seq<char>>,
    pub key: Seq<char>,
}

/// Configuration for a hotkey combination.
#[derive(Debug, PartialEq, Eq)]
pub struct HotkeyConfig {
    /// Modifier keys (e.g., `["ctrl", "alt"]`).
    pub modifiers: Vec<String>,
    /// The main key (e.g., `"Space"`).
    pub key: String,
}

impl View for HotkeyConfig {
    type V = HotkeyV;

    open spec fn view(&self) -> HotkeyV {
        HotkeyV { modifiers: self.modifiers.deep_view(), key: self.key@ }
    }
}

/// The lower-cased form of each modifier name.
pub open spec fn lowered_mods(mods: Seq<Seq<char>>) -> Seq<Seq<char>> {
    mods.map_values(|m: Seq<char>| lower_seq(m))
}

/// The equality rule for bindings: same key up to ASCII case, and the
/// same multiset of case-folded modifier names — order-insensitive,
/// case-insensitive, and counting repeats.
pub open spec fn same_binding(a: HotkeyV, b: HotkeyV) -> bool {
    &&& eq_ignore_case(a.key, b.key)
    &&& lowered_mods(a.modifiers).to_multiset() == lowered_mods(b.modifiers).to_multiset()
}

/// The canonical text of a modifier list: each modifier lower-cased and
/// followed by `+`.
pub open spec fn modifiers_prefix(mods: Seq<Seq<char>>) -> Seq<char>
    decreases mods.len(),
{
    if mods.len() == 0 {
        Seq::empty()
    } else {
        modifiers_prefix(mods.drop_last()) + lower_seq(mods.last()) + seq!['+']
    }
}

/// The canonical text of a binding: lower-cased modifiers in stored
/// order, then the key, all joined with `+`.
pub open spec fn shortcut_string_of(h: HotkeyV) -> Seq<char> {
    modifiers_prefix(h.modifiers) + h.key
}

/// The default modifier pair shared by all built-in bindings.
pub open spec fn default_modifiers_spec() -> Seq<Seq<char>> {
    seq!["ctrl"@, "alt"@]
}

pub open spec fn default_toggle_spec() -> HotkeyV {
    HotkeyV { modifiers: default_modifiers_spec(), key: "Space"@ }
}

pub open spec fn default_hold_spec() -> HotkeyV {
    HotkeyV { modifiers: default_modifiers_spec(), key: "Backquote"@ }
}

pub open spec fn default_paste_last_spec() -> HotkeyV {
    HotkeyV { modifiers: default_modifiers_spec(), key: "Period"@ }
}

fn default_modifiers() -> (v: Vec<String>)
    ensures
        v.deep_view() == default_modifiers_spec(),
{
    let mut v: Vec<String> = Vec::new();
    v.push(String::from_str("ctrl"));
    v.push(String::from_str("alt"));
    proof {
        assert(v.deep_view() =~= default_modifiers_spec());
    }
    v
}

/// How many modifiers of `mods` equal `m` up to ASCII case: the count
/// of `m`'s case-folded form in the case-folded multiset.
fn count_matches(mods: &Vec<String>, m: &str) -> (r: usize)
    ensures
        r == lowered_mods(mods.deep_view()).to_multiset().count(lower_seq(m@)),
{
    broadcast use vstd::multiset::group_multiset_properties;

    let ghost lm = lowered_mods(mods.deep_view());
    let ghost target = lower_seq(m@);
    let n = mods.len();
    let mut cnt: usize = 0;
    let mut j: usize = 0;
    proof {
        let e0 = lm.take(0);
        e0.to_multiset_ensures();
        assert(!e0.contains(target));
        assert(e0.to_multiset().count(target) == 0);
    }
    while j < n
        invariant
            j <= n,
            n == mods@.len(),
            n == lm.len(),
            lm == lowered_mods(mods.deep_view()),
            target == lower_seq(m@),
            cnt <= j,
            cnt == lm.take(j as int).to_multiset().count(target),
        decreases n - j,
    {
        let ghost pre = lm.take(j as int);
        let matched = str_eq_ignore_case(mods[j].as_str(), m);
        proof {
            assert(mods.deep_view()[j as int] == mods@[j as int]@);
            assert(lm[j as int] == lower_seq(mods.deep_view()[j as int]));
            assert(lm[j as int] == lower_seq(mods@[j as int]@));
            assert(lm.take(j + 1) =~= pre.push(lm[j as int]));
            pre.to_multiset_ensures();
            assert(lm.take(j + 1).to_multiset() =~= pre.to_multiset().insert(lm[j as int]));
            assert(matched == (lm[j as int] == target));
        }
        if matched {
            cnt = cnt + 1;
        }
        j = j + 1;
    }
    proof {
        assert(lm.take(n as int) =~= lm);
    }
    cnt
}

impl HotkeyConfig {
    /// Create default toggle hotkey config.
    pub fn default_toggle() -> (h: Self)
        ensures
            h@ == default_toggle_spec(),
    {
        HotkeyConfig { modifiers: default_modifiers(), key: String::from_str("Space") }
    }

    /// Create default hold hotkey config.
    pub fn default_hold() -> (h: Self)
        ensures
            h@ == default_hold_spec(),
    {
        HotkeyConfig { modifiers: default_modifiers(), key: String::from_str("Backquote") }
    }

    /// Create default paste-last hotkey config.
    pub fn default_paste_last() -> (h: Self)
        ensures
            h@ == default_paste_last_spec(),
    {
        HotkeyConfig { modifiers: default_modifiers(), key: String::from_str("Period") }
    }

    /// Check if this hotkey has the same key combination as another:
    /// the multiset rule of [`same_binding`].
    pub fn is_same_as(&self, other: &HotkeyConfig) -> (r: bool)
        ensures
            r == same_binding(self@, other@),
    {
        let ghost la = lowered_mods(self@.modifiers);
        let ghost lb = lowered_mods(other@.modifiers);
        if !str_eq_ignore_case(self.key.as_str(), other.key.as_str()) {
            return false;
        }
        let n = self.modifiers.len();
        if n != other.modifiers.len() {
            proof {
                la.to_multiset_ensures();
                lb.to_multiset_ensures();
            }
            return false;
        }
        let mut i: usize = 0;
        while i < n
            invariant
                i <= n,
                n == self.modifiers@.len(),
                la == lowered_mods(self@.modifiers),
                lb == lowered_mods(other@.modifiers),
                forall|k: int|
                    0 <= k < i ==> #[trigger] la.to_multiset().count(la[k]) == lb.to_multiset().count(
                        la[k],
                    ),
            decreases n - i,
        {
            let ca = count_matches(&self.modifiers, self.modifiers[i].as_str());
            let cb = count_matches(&other.modifiers, self.modifiers[i].as_str());
            proof {
                assert(self.modifiers.deep_view()[i as int] == self.modifiers@[i as int]@);
                assert(la[i as int] == lower_seq(self.modifiers@[i as int]@));
            }
            if ca != cb {
                assert(la.to_multiset().count(la[i as int]) != lb.to_multiset().count(
                    la[i as int],
                ));
                return false;
            }
            i = i + 1;
        }
        let m = other.modifiers.len();
        let mut j: usize = 0;
        while j < m
            invariant
                j <= m,
                m == other.modifiers@.len(),
                la == lowered_mods(self@.modifiers),
                lb == lowered_mods(other@.modifiers),
                forall|k: int|
                    0 <= k < la.len() ==> #[trigger] la.to_multiset().count(la[k])
                        == lb.to_multiset().count(la[k]),
                forall|k: int|
                    0 <= k < j ==> #[trigger] la.to_multiset().count(lb[k]) == lb.to_multiset().count(
                        lb[k],
                    ),
            decreases m - j,
        {
            let ca = count_matches(&self.modifiers, other.modifiers[j].as_str());
            let cb = count_matches(&other.modifiers, other.modifiers[j].as_str());
            proof {
                assert(other.modifiers.deep_view()[j as int] == other.modifiers@[j as int]@);
                assert(lb[j as int] == lower_seq(other.modifiers@[j as int]@));
            }
            if ca != cb {
                assert(la.to_multiset().count(lb[j as int]) != lb.to_multiset().count(
                    lb[j as int],
                ));
                return false;
            }
            j = j + 1;
        }
        proof {
            la.to_multiset_ensures();
            lb.to_multiset_ensures();
            assert forall|x: Seq<char>| la.to_multiset().count(x) == lb.to_multiset().count(
                x,
            ) by {
                if la.to_multiset().count(x) > 0 {
                    assert(la.contains(x));
                    let k = choose|k: int| 0 <= k < la.len() && la[k] == x;
                    assert(la.to_multiset().count(la[k]) == lb.to_multiset().count(la[k]));
                } else if lb.to_multiset().count(x) > 0 {
                    assert(lb.contains(x));
                    let k = choose|k: int| 0 <= k < lb.len() && lb[k] == x;
                    assert(la.to_multiset().count(lb[k]) == lb.to_multiset().count(lb[k]));
                }
            }
            assert(la.to_multiset() =~= lb.to_multiset());
        }
        true
    }

    /// Convert to shortcut string format like `ctrl+alt+Space`.
    /// Modifiers are lower-cased so the platform parser recognises them.
    pub fn to_shortcut_string(&self) -> (r: String)
        ensures
            r@ == shortcut_string_of(self@),
    {
        let mut out: Vec<char> = Vec::new();
        let n = self.modifiers.len();
        let mut i: usize = 0;
        while i < n
            invariant
                i <= n,
                n == self@.modifiers.len(),
                out@ == modifiers_prefix(self@.modifiers.take(i as int)),
            decreases n - i,
        {
            let ghost prefix = out@;
            push_lower_str(&mut out, self.modifiers[i].as_str());
            out.push('+');
            proof {
                let m = self@.modifiers;
                assert(m.take(i + 1).drop_last() =~= m.take(i as int));
                assert(m.take(i + 1).last() == self.modifiers@[i as int]@);
                assert(out@ =~= modifiers_prefix(m.take(i + 1)));
            }
            i = i + 1;
        }
        proof {
            assert(self@.modifiers.take(n as int) =~= self@.modifiers);
        }
        append_str(&mut out, self.key.as_str());
        chars_to_string(&out)
    }

    /// Render the canonical shortcut text and ask the platform grammar
    /// whether it is expressible.  Nothing is registered; success only
    /// proves the binding can be parsed, and a rejection message carries
    /// the rendered text.
    pub fn check_parseable(&self) -> (r: Result<(), String>)
        ensures
            r is Ok <==> shortcut_parse_ok(shortcut_string_of(self@)),
            r is Err ==> contains_seq(r->Err_0@, shortcut_string_of(self@)),
    {
        let s = self.to_shortcut_string();
        parse_shortcut(s.as_str())
    }
}

impl Clone for HotkeyConfig {
    fn clone(&self) -> (r: Self)
        ensures
            r@ == self@,
    {
        let mut mods: Vec<String> = Vec::new();
        let n = self.modifiers.len();
        let mut i: usize = 0;
        while i < n
            invariant
                i <= n,
                n == self.modifiers@.len(),
                mods@.len() == i,
                forall|k: int| 0 <= k < i ==> #[trigger] mods@[k]@ == self.modifiers@[k]@,
            decreases n - i,
        {
            mods.push(self.modifiers[i].clone());
            i = i + 1;
        }
        proof {
            assert forall|k: int| 0 <= k < n implies #[trigger] mods.deep_view()[k]
                == self.modifiers.deep_view()[k] by {
                assert(mods@[k]@ == self.modifiers@[k]@);
            }
            assert(mods.deep_view() =~= self.modifiers.deep_view());
        }
        HotkeyConfig { modifiers: mods, key: self.key.clone() }
    }
}

impl Default for HotkeyConfig {
    fn default() -> (h: Self)
        ensures
            h@ == default_toggle_spec(),
    {
        HotkeyConfig::default_toggle()
    }
}

/// Append the characters of `s` to `out`, lower-cased.
fn push_lower_str(out: &mut Vec<char>, s: &str)
    ensures
        final(out)@ == old(out)@ + lower_seq(s@),
{
    let len = s.unicode_len();
    let mut k: usize = 0;
    while k < len
        invariant
            k <= len,
            len == s@.len(),
            out@ == old(out)@ + lower_seq(s@.subrange(0, k as int)),
        decreases len - k,
    {
        out.push(to_lower_char(s.get_char(k)));
        assert(out@ =~= old(out)@ + lower_seq(s@.subrange(0, k + 1)));
        k = k + 1;
    }
    assert(s@.subrange(0, s@.len() as int) =~= s@);
}

/// Whether the platform shortcut grammar accepts this text; the answer
/// depends on the text alone.
pub uninterp spec fn shortcut_parse_ok(s: Seq<char>) -> bool;

/// Relies on `global_hotkey::hotkey::HotKey`'s `FromStr`: a pure parser
/// of the shortcut grammar, so acceptance is a function of the string;
/// the rejection message below embeds the input verbatim.
#[verifier::external_body]
fn parse_shortcut(s: &str) -> (r: Result<(), String>)
    ensures
        r is Ok <==> shortcut_parse_ok(s@),
        r is Err ==> contains_seq(r->Err_0@, s@),
{
    match <global_hotkey::hotkey::HotKey as core::str::FromStr>::from_str(s) {
        Ok(_) => Ok(()),
        Err(e) => Err(format!("Failed to parse shortcut '{}': {:?}", s, e)),
    }
}


/// The set of lower-cased modifier names.
pub open spec fn mod_set(mods: Seq<Seq<char>>) -> Set<Seq<char>> {
    lowered_mods(mods).to_set()
}

/// Bindings with the same key up to case and the same multiset of
/// modifiers, in any order and any case, are equal, in both directions.
pub proof fn lemma_equality_case_and_order_insensitive(a: HotkeyV, b: HotkeyV)
    requires
        eq_ignore_case(a.key, b.key),
        lowered_mods(a.modifiers).to_multiset() == lowered_mods(b.modifiers).to_multiset(),
    ensures
        same_binding(a, b),
        same_binding(b, a),
{
}

/// Binding equality is symmetric, as an equality must be.
pub proof fn lemma_equality_symmetric(a: HotkeyV, b: HotkeyV)
    ensures
        same_binding(a, b) == same_binding(b, a),
{
}

/// Bindings that differ in key, or whose modifier sets differ as sets
/// of case-folded names, are not equal.
pub proof fn lemma_different_bindings_unequal(a: HotkeyV, b: HotkeyV)
    requires
        !eq_ignore_case(a.key, b.key) || mod_set(a.modifiers) != mod_set(b.modifiers),
    ensures
        !same_binding(a, b),
{
    if same_binding(a, b) {
        let la = lowered_mods(a.modifiers);
        let lb = lowered_mods(b.modifiers);
        la.to_multiset_ensures();
        lb.to_multiset_ensures();
        assert(eq_ignore_case(a.key, b.key));
        assert forall|x: Seq<char>| la.to_set().contains(x) == lb.to_set().contains(x) by {
            assert(la.to_set().contains(x) == la.contains(x));
            assert(lb.to_set().contains(x) == lb.contains(x));
            assert(la.contains(x) == (la.to_multiset().count(x) > 0));
            assert(lb.contains(x) == (lb.to_multiset().count(x) > 0));
        }
        assert(mod_set(a.modifiers) =~= mod_set(b.modifiers));
        assert(false);
    }
}

} // verus!
