//! What can go wrong in the core.

use vstd::prelude::*;

verus! {

/// The failures the core tells apart.
#[derive(Clone, Copy, Debug, PartialEq, Eq, Hash, Structural)]
pub enum AssetError {
    /// The decoder could not parse the asset. Terminal for the ticket.
    DecodeError,
    /// A scene or clip asked for by position or by name is not in the decoded asset.
    MissingNamedElement,
    /// A component met a state its design rules out, such as an unresolved
    /// ticket behind an animation binding.
    InvariantViolation,
}

} // verus!
