//! How long a copied code stays on the clipboard.

use vstd::prelude::*;

verus! {

/// Seconds that a copied code may stay on the clipboard.
pub const CLIPBOARD_CLEAR_AFTER_SECONDS: u64 = 20;

/// Whether to clear the clipboard: only while it still holds the copied code, so
/// that nothing is lost that was copied in the meantime. `current` is its text,
/// if it could be read.
pub fn should_clear(current: Option<String>, copied: &String) -> (clear: bool)
    ensures
        clear == (current is Some && current->0@ == copied@),
{
    match current {
        Some(current) => current == *copied,
        None => false,
    }
}

} // verus!
