//! What the core hands to the window toolkit.

use vstd::prelude::*;

verus! {

/// How the window may be resized, as the window toolkit understands it.
#[allow(non_camel_case_types)]
#[derive(Debug, Clone, Copy, PartialEq, Eq, Structural)]
pub enum SizeHint {
    /// Width and height are the initial size; the window resizes freely.
    NONE,
    /// Width and height are the smallest size the window can take.
    MIN,
    /// Width and height are the largest size the window can take.
    MAX,
    /// The window keeps its width and height.
    FIXED,
}

} // verus!
