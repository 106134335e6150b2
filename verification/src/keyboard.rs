//! The keyboard as the weapon manager sees it: which digit keys went down in
//! this frame, and which catalog entry that asks for.

use crate::catalog::WeaponSlot;
use bevy::input::keyboard::KeyCode;
use bevy::input::ButtonInput;
use std::hash::Hash;
use vstd::prelude::*;

verus! {

#[verifier::external_type_specification]
#[verifier::external_body]
#[verifier::reject_recursive_types(T)]
pub struct ExButtonInput<T: Copy + Eq + Hash + Send + Sync + 'static>(ButtonInput<T>);

#[verifier::external_type_specification]
#[verifier::external_body]
pub struct ExKeyCode(KeyCode);

/// The digits, `0` to `9`, whose keys in the digit row went down in the frame
/// that `keys` describes.
pub uninterp spec fn just_pressed_digits(keys: ButtonInput<KeyCode>) -> Set<int>;

/// Asks `ButtonInput::just_pressed` about the key of one digit of the digit
/// row. The answer is taken to depend on nothing but what `keys` holds.
#[verifier::external_body]
fn digit_just_pressed(keys: &ButtonInput<KeyCode>, digit: u8) -> (r: bool)
    requires
        digit <= 9,
    ensures
        r == just_pressed_digits(*keys).contains(digit as int),
{
    keys.just_pressed(match digit {
        0 => KeyCode::Digit0,
        1 => KeyCode::Digit1,
        2 => KeyCode::Digit2,
        3 => KeyCode::Digit3,
        4 => KeyCode::Digit4,
        5 => KeyCode::Digit5,
        6 => KeyCode::Digit6,
        7 => KeyCode::Digit7,
        8 => KeyCode::Digit8,
        _ => KeyCode::Digit9,
    })
}

/// The entry that a frame asks for, given which of the four selecting keys
/// went down in it. Where several went down, the reserved fallback wins, then
/// the entry of the greatest digit.
pub open spec fn chosen(glock: bool, ak47: bool, m4a1: bool, basic: bool) -> Option<WeaponSlot> {
    if basic {
        Some(WeaponSlot::Basic)
    } else if m4a1 {
        Some(WeaponSlot::M4a1)
    } else if ak47 {
        Some(WeaponSlot::Ak47)
    } else if glock {
        Some(WeaponSlot::Glock)
    } else {
        None
    }
}

/// The entry that a frame asks for, given the digits whose keys went down.
pub open spec fn requested(pressed: Set<int>) -> Option<WeaponSlot> {
    chosen(
        pressed.contains(WeaponSlot::Glock.digit_value()),
        pressed.contains(WeaponSlot::Ak47.digit_value()),
        pressed.contains(WeaponSlot::M4a1.digit_value()),
        pressed.contains(WeaponSlot::Basic.digit_value()),
    )
}

/// Picks the one entry to honour in a frame, given which of the four
/// selecting keys went down in it.
pub fn choose_slot(glock: bool, ak47: bool, m4a1: bool, basic: bool) -> (r: Option<WeaponSlot>)
    ensures
        r == chosen(glock, ak47, m4a1, basic),
{
    if basic {
        Some(WeaponSlot::Basic)
    } else if m4a1 {
        Some(WeaponSlot::M4a1)
    } else if ak47 {
        Some(WeaponSlot::Ak47)
    } else if glock {
        Some(WeaponSlot::Glock)
    } else {
        None
    }
}

/// The one entry that the keyboard asks for in this frame, if any.
pub fn requested_slot(keys: &ButtonInput<KeyCode>) -> (r: Option<WeaponSlot>)
    ensures
        r == requested(just_pressed_digits(*keys)),
{
    let glock: bool = digit_just_pressed(keys, WeaponSlot::Glock.digit());
    let ak47: bool = digit_just_pressed(keys, WeaponSlot::Ak47.digit());
    let m4a1: bool = digit_just_pressed(keys, WeaponSlot::M4a1.digit());
    let basic: bool = digit_just_pressed(keys, WeaponSlot::Basic.digit());
    choose_slot(glock, ak47, m4a1, basic)
}

} // verus!
