use vstd::prelude::*;

verus! {

/// Error raised when a caller hands the library an argument it cannot use.
#[derive(Debug)]
pub enum DobbyDBError {
    InvalidArgument(String),
}

impl DobbyDBError {
    /// The human-readable message of the error.
    pub fn message(&self) -> (r: String)
        ensures
            match self {
                DobbyDBError::InvalidArgument(arg) => r@ == "invalid argument: "@ + arg@,
            },
    {
        match self {
            DobbyDBError::InvalidArgument(arg) => {
                let mut msg = String::from_str("invalid argument: ");
                msg.append(arg.as_str());
                msg
            },
        }
    }
}

/// Every failure the federation layer can report, grouped by the level at
/// which it is raised.
#[derive(Debug, Clone, PartialEq, Eq)]
pub enum CatalogError {
    /// The configuration text could not be read.
    ConfigUnreadable(String),
    /// The configuration text is not well-formed.
    ConfigMalformed(String),
    /// Two catalogs of the configuration carry this name.
    DuplicateCatalogName(String),
    /// No known table format could be deduced from a table's properties.
    UndeterminedFormat,
    /// The storage I/O context of a table could not be built.
    StorageConfigError(String),
    /// A table's snapshot metadata could not be opened or decoded.
    SnapshotOpenError(String),
    /// A paginated listing stopped before its last page.
    PartialListing,
    /// A catalog's metastore could not be reached or authenticated against.
    CatalogUnavailable(String),
    /// A catalog manager was asked to load a second time.
    AlreadyLoaded,
    /// The operation is outside what this layer implements.
    NotImplemented(String),
}

} // verus!
