//! The fixed vocabulary of logical input actions.
//!
//! The input layer (keyboard and mouse bindings) reports which of these
//! actions are currently pressed and which were just released; the
//! controller never sees raw key codes.

use vstd::prelude::*;

verus! {

/// A logical action a player can hold down or release.
#[derive(Clone, Copy, Debug, PartialEq, Eq, Hash, Structural)]
pub enum PlayerAction {
    Forward,
    Back,
    Left,
    Right,
    Sprint,
    Jump,
    PrimaryAction,
}

/// Whether `actions` contains `a`.
pub fn has_action(actions: &Vec<PlayerAction>, a: PlayerAction) -> (r: bool)
    ensures
        r == actions@.contains(a),
{
    let mut i: usize = 0;
    while i < actions.len()
        invariant
            i <= actions@.len(),
            forall|j: int| 0 <= j < i ==> actions@[j] != a,
        decreases actions@.len() - i,
    {
        if actions[i] == a {
            proof {
                assert(actions@[i as int] == a);
            }
            return true;
        }
        i += 1;
    }
    false
}

} // verus!
