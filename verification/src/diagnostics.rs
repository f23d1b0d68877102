//! The compile-time diagnostics the two code generators can report.
//!
//! Each misuse of a generator produces exactly one of these and no
//! generated output; a diagnostic for one definition never affects the
//! expansion of another.

use vstd::prelude::*;

verus! {

/// A structured compile-time diagnostic from one of the generators.
#[derive(Clone, Copy, Debug, PartialEq, Eq, Structural)]
pub enum ExpandError {
    /// The attribute was given arguments, but takes none.
    UnexpectedArguments,
    /// The delegate attribute was applied to something other than an
    /// implementation of the protocol trait.
    NotSmartDisplayImpl,
    /// The private-metadata attribute was applied to an already fully
    /// public definition.
    AlreadyPublic,
    /// A field's visibility is restricted to a path not rooted at the
    /// crate-root, enclosing-scope or current-scope marker.
    UnexpectedVisibilityPath,
}

} // verus!
