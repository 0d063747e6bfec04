use vstd::prelude::*;

verus! {

/// The code a key poll returns when the window saw no key press.
pub const NO_KEY: i32 = 255;

/// Whether the key code from one poll of the preview window ends the loop:
/// any pressed key does, while a negative code (the poll timed out), zero and
/// the no-key code do not.
pub fn should_stop(key: i32) -> (r: bool)
    ensures
        r <==> (key > 0 && key != NO_KEY),
{
    key > 0 && key != NO_KEY
}

} // verus!
