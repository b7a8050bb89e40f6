//! The two families of operating system that the batch runs on.

use vstd::prelude::*;

verus! {

/// The family of operating system, which decides how paths are written and
/// where the audio tool is found.
#[derive(Clone, Copy, Debug, PartialEq, Eq, Structural)]
pub enum Platform {
    /// Unix-like systems: `/` separates path components.
    Linux,
    /// Windows: `\` separates path components, and `/` is accepted too.
    Windows,
}

} // verus!
