//! The failures that transitions, code generation and aggregation can report.

use vstd::prelude::*;

verus! {

/// Every failure is terminal for the current build; none is retried.
#[derive(Clone, Copy, Debug, PartialEq, Eq, Structural)]
pub enum Error {
    /// A node lacks the capability that an operation needs of it.
    CapabilityMismatch,
    /// The content of a marker or proxy node was requested.
    MarkerHasNoContent,
    /// A wildcard re-export stands at a client boundary.
    UnsupportedExportPattern,
    /// The export shape of a module is none that the generator knows.
    UnsupportedExportKind,
    /// Aggregation found no chunks for a boundary that was discovered.
    LookupInvariantViolation,
}

impl Error {
    /// The text shown to the user for this failure.
    pub open spec fn message_text(self) -> Seq<char> {
        match self {
            Error::CapabilityMismatch => "expected an ECMAScript chunk placeable asset"@,
            Error::MarkerHasNoContent => "marker asset has no content"@,
            Error::UnsupportedExportPattern =>
                "It's currently unsupported to use \"export *\" in a client boundary. Please use named exports instead."@,
            Error::UnsupportedExportKind => "unsupported exports type"@,
            Error::LookupInvariantViolation => "client reference chunks not found"@,
        }
    }

    pub fn message(&self) -> (text: String)
        ensures
            text@ == self.message_text(),
    {
        match self {
            Error::CapabilityMismatch => String::from_str(
                "expected an ECMAScript chunk placeable asset",
            ),
            Error::MarkerHasNoContent => String::from_str("marker asset has no content"),
            Error::UnsupportedExportPattern => String::from_str(
                "It's currently unsupported to use \"export *\" in a client boundary. Please use named exports instead.",
            ),
            Error::UnsupportedExportKind => String::from_str("unsupported exports type"),
            Error::LookupInvariantViolation => String::from_str(
                "client reference chunks not found",
            ),
        }
    }
}

} // verus!
