//! The switch that arms the Mark column, drawn as a padlock.

use vstd::prelude::*;

verus! {

/// What the lock says about itself, in words, on hover: the state the picture
/// is already showing, and the thing a click will do. A padlock on its own is
/// ambiguous about which of the two it means.
pub fn tooltip(locked: bool) -> (text: &'static str)
    ensures
        text@ == if locked {
            "Marking is locked, so a stray click can't overwrite a preset. Click to allow storing shots."@
        } else {
            "Marking is on: the Mark buttons will overwrite presets. Click to lock them again."@
        },
{
    if locked {
        "Marking is locked, so a stray click can't overwrite a preset. Click to allow storing shots."
    } else {
        "Marking is on: the Mark buttons will overwrite presets. Click to lock them again."
    }
}

} // verus!
