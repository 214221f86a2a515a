//! The engine's keyboard state.
//!
//! Nothing in this file is proved: each function states what the engine's
//! source shows of the call it makes.
use bevy::input::keyboard::KeyCode;
use bevy::input::Input;
use std::hash::Hash;
use vstd::prelude::*;

verus! {

/// `bevy::input::Input`, carried as an opaque value.
#[verifier::external_type_specification]
#[verifier::external_body]
#[verifier::reject_recursive_types(T)]
pub struct ExInput<T: Copy + Eq + Hash + Send + Sync + 'static>(Input<T>);

/// `bevy::input::keyboard::KeyCode`, with its variants, none of which
/// carries a field, so that a key can be named.
#[verifier::external_type_specification]
pub struct ExKeyCode(KeyCode);

/// The keys for which `Input::pressed` holds: those that are down.
pub uninterp spec fn pressed_keys(keys: Input<KeyCode>) -> Set<KeyCode>;

/// The keys for which `Input::just_pressed` holds: those that went down
/// since the state was last cleared.
pub uninterp spec fn just_pressed_keys(keys: Input<KeyCode>) -> Set<KeyCode>;

/// `Input::pressed`: whether `key` is down.
#[verifier::external_body]
pub(crate) fn pressed(keys: &Input<KeyCode>, key: KeyCode) -> (b: bool)
    ensures
        b == pressed_keys(*keys).contains(key),
{
    keys.pressed(key)
}

/// `Input::just_pressed`: whether `key` went down since the state was last
/// cleared.
#[verifier::external_body]
pub(crate) fn just_pressed(keys: &Input<KeyCode>, key: KeyCode) -> (b: bool)
    ensures
        b == just_pressed_keys(*keys).contains(key),
{
    keys.just_pressed(key)
}

} // verus!
