//! The hotkey-conflict validator: a candidate binding must not equal the
//! binding of any slot other than the one being changed, under the
//! case-insensitive, order-insensitive rule.

use vstd::prelude::*;

use crate::hotkey::{same_binding, HotkeyConfig};
use crate::settings::{AppSettings, AppSettingsV};

verus! {

/// The three binding slots; exactly one binding is associated with each
/// at all times.
#[derive(Debug, Clone, Copy, PartialEq, Eq, Structural)]
pub enum BindingSlot {
    Toggle,
    Hold,
    PasteLast,
}

/// A candidate hotkey duplicates the binding of another slot.
#[derive(Debug, Clone, Copy, PartialEq, Eq, Structural)]
pub struct ConflictError {
    /// The slot whose binding the candidate collides with.
    pub slot: BindingSlot,
}

/// The binding currently held by `slot` in `s`.
pub open spec fn slot_binding(s: AppSettingsV, slot: BindingSlot) -> crate::hotkey::HotkeyV {
    match slot {
        BindingSlot::Toggle => s.toggle_hotkey,
        BindingSlot::Hold => s.hold_hotkey,
        BindingSlot::PasteLast => s.paste_last_hotkey,
    }
}

/// What the conflict check returns: slots are examined in the fixed
/// order toggle, hold, paste-last, skipping the excluded one, and the
/// first collision wins.
pub open spec fn spec_validate(
    h: crate::hotkey::HotkeyV,
    s: AppSettingsV,
    exclude: BindingSlot,
) -> Result<(), ConflictError> {
    if exclude != BindingSlot::Toggle && same_binding(h, s.toggle_hotkey) {
        Err(ConflictError { slot: BindingSlot::Toggle })
    } else if exclude != BindingSlot::Hold && same_binding(h, s.hold_hotkey) {
        Err(ConflictError { slot: BindingSlot::Hold })
    } else if exclude != BindingSlot::PasteLast && same_binding(h, s.paste_last_hotkey) {
        Err(ConflictError { slot: BindingSlot::PasteLast })
    } else {
        Ok(())
    }
}

impl BindingSlot {
    /// The slot's name as it appears in user-facing messages.
    pub fn display_name(&self) -> (r: String)
        ensures
            *self == BindingSlot::Toggle ==> r@ == "toggle"@,
            *self == BindingSlot::Hold ==> r@ == "hold"@,
            *self == BindingSlot::PasteLast ==> r@ == "paste last"@,
    {
        match self {
            BindingSlot::Toggle => String::from_str("toggle"),
            BindingSlot::Hold => String::from_str("hold"),
            BindingSlot::PasteLast => String::from_str("paste last"),
        }
    }
}

impl ConflictError {
    /// The human-readable rejection message.
    pub fn message(&self) -> (r: String)
        ensures
            r@ == "This shortcut is already used for the "@ + slot_message_name(self.slot)
                + " hotkey"@,
    {
        let head = String::from_str("This shortcut is already used for the ");
        let mid = self.slot.display_name();
        let tail = " hotkey";
        head.concat(mid.as_str()).concat(tail)
    }
}

pub open spec fn slot_message_name(slot: BindingSlot) -> Seq<char> {
    match slot {
        BindingSlot::Toggle => "toggle"@,
        BindingSlot::Hold => "hold"@,
        BindingSlot::PasteLast => "paste last"@,
    }
}

/// Validate that a new hotkey doesn't conflict with the configured
/// hotkeys of the slots other than `exclude`; on the first match the
/// colliding slot is reported.  Self-comparison is excluded so a no-op
/// re-save never fails.
pub fn validate_no_duplicate_shortcut(
    new_hotkey: &HotkeyConfig,
    current_settings: &AppSettings,
    exclude: BindingSlot,
) -> (r: Result<(), ConflictError>)
    ensures
        r == spec_validate(new_hotkey@, current_settings@, exclude),
{
    if !matches!(exclude, BindingSlot::Toggle) && new_hotkey.is_same_as(
        &current_settings.toggle_hotkey,
    ) {
        return Err(ConflictError { slot: BindingSlot::Toggle });
    }
    if !matches!(exclude, BindingSlot::Hold) && new_hotkey.is_same_as(
        &current_settings.hold_hotkey,
    ) {
        return Err(ConflictError { slot: BindingSlot::Hold });
    }
    if !matches!(exclude, BindingSlot::PasteLast) && new_hotkey.is_same_as(
        &current_settings.paste_last_hotkey,
    ) {
        return Err(ConflictError { slot: BindingSlot::PasteLast });
    }
    Ok(())
}

/// A candidate equal only to its own slot's current binding is accepted:
/// a no-op re-save of a slot never reports a conflict.
pub proof fn lemma_self_equal_accepted(
    h: crate::hotkey::HotkeyV,
    s: AppSettingsV,
    exclude: BindingSlot,
)
    requires
        forall|other: BindingSlot|
            other != exclude ==> !same_binding(h, slot_binding(s, other)),
    ensures
        spec_validate(h, s, exclude) is Ok,
{
    assert(!same_binding(h, slot_binding(s, BindingSlot::Toggle)) || exclude
        == BindingSlot::Toggle);
    assert(!same_binding(h, slot_binding(s, BindingSlot::Hold)) || exclude == BindingSlot::Hold);
    assert(!same_binding(h, slot_binding(s, BindingSlot::PasteLast)) || exclude
        == BindingSlot::PasteLast);
}

/// A candidate for one slot that equals the current binding of another
/// slot is rejected, and the error names a slot whose binding it equals.
pub proof fn lemma_conflict_rejected(
    h: crate::hotkey::HotkeyV,
    s: AppSettingsV,
    exclude: BindingSlot,
    other: BindingSlot,
)
    requires
        other != exclude,
        same_binding(h, slot_binding(s, other)),
    ensures
        spec_validate(h, s, exclude) is Err,
        same_binding(h, slot_binding(s, spec_validate(h, s, exclude)->Err_0.slot)),
        spec_validate(h, s, exclude)->Err_0.slot != exclude,
{
}


/// A toggle candidate equal, by the case- and order-insensitive rule,
/// to the current hold binding is rejected with a conflict naming the
/// hold slot, whatever the other bindings are.
pub proof fn lemma_toggle_candidate_conflicts_with_hold(
    h: crate::hotkey::HotkeyV,
    s: AppSettingsV,
)
    requires
        same_binding(h, s.hold_hotkey),
    ensures
        spec_validate(h, s, BindingSlot::Toggle) == Err::<(), ConflictError>(
            ConflictError { slot: BindingSlot::Hold },
        ),
{
}

} // verus!
