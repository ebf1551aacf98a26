//! What of the clipboard is typed.

use vstd::prelude::*;

verus! {

/// The text to type from what the clipboard holds: its Unicode text, when
/// there is some and it is not empty.
pub fn clipboard_text(read: Option<String>) -> (res: Option<String>)
    ensures
        match read {
            Some(t) => if t@.len() == 0 {
                res is None
            } else {
                res matches Some(r) && r@ == t@
            },
            None => res is None,
        },
{
    match read {
        Some(t) => {
            if t.as_str().is_empty() {
                None
            } else {
                Some(t)
            }
        },
        None => None,
    }
}

} // verus!
