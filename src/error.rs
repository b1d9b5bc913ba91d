use vstd::prelude::*;

verus! {

/// The kinds of failure that the loader's own logic can report.
#[derive(Debug, Clone, Copy, PartialEq, Eq, Structural)]
pub enum LoadError {
    /// A content reference that does not use the local `file://` scheme, or is malformed.
    InvalidSource,
    /// A descriptor entry that lacks its `source` reference.
    MissingSourceField,
    /// A binary that is neither a core module nor a component.
    UnrecognizedBinary,
    /// A component that conforms to the target world neither directly nor after adaptation.
    IncompatibleWorld,
    /// A component built against an older world, for which no adapted binary was supplied.
    NoAdapterAvailable,
    /// The target world could not be selected or merged.
    ContractResolution,
    /// A mount source that is not a directory.
    NotADirectory,
}

} // verus!
