use vstd::prelude::*;

verus! {

/// One failure while operating on the source registry or while fetching a
/// single source. Errors are plain data: one source's error is collected
/// beside the other sources' results and never aborts sibling work.
#[derive(Debug, Clone, PartialEq, Eq)]
pub enum Error {
    /// The HTTP transfer for a source failed (connection, DNS, TLS, timeout).
    Transport { site: String },
    /// The fetched bytes were not a structurally valid syndication document.
    Parse { site: String },
    /// The document parsed, but a field the data model requires was absent.
    MissingRequiredField { site: String, field: String },
    /// A filesystem operation on the registry's backing store failed.
    LocalIo { detail: String },
    /// No per-application configuration directory could be resolved.
    ConfigDirUnavailable,
}

} // verus!
