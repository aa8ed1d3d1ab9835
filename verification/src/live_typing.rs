//! The rule that ends live typing: a physical key press after a short
//! grace period.

use vstd::prelude::*;

verus! {

#[verifier::external_type_specification]
#[verifier::external_body]
pub struct ExKey(handy_keys::Key);

#[verifier::external_type_specification]
#[verifier::external_body]
pub struct ExModifiers(handy_keys::Modifiers);

/// Grace period after the listener starts, in milliseconds, during which key
/// events are ignored, so that releasing the hotkey does not stop at once.
pub const GRACE_PERIOD_MS: u64 = 500;

/// A keyboard event as the listener reports it.
pub struct KeyEvent {
    pub modifiers: handy_keys::Modifiers,
    /// The non-modifier key, absent for modifier-only events.
    pub key: Option<handy_keys::Key>,
    pub is_key_down: bool,
    /// For modifier-only events, the modifier that changed.
    pub changed_modifier: Option<handy_keys::Modifiers>,
}

/// Whether an event, `elapsed_ms` milliseconds (whole milliseconds elapsed)
/// after the listener started, stops the recording: only a key-down of a
/// non-modifier key once the grace period is over.
pub fn should_stop_recording(event: &KeyEvent, elapsed_ms: u128) -> (stop: bool)
    ensures
        stop == (event.is_key_down && event.key is Some && elapsed_ms >= GRACE_PERIOD_MS),
{
    event.is_key_down && event.key.is_some() && elapsed_ms >= GRACE_PERIOD_MS as u128
}

} // verus!
