use vstd::prelude::*;
use vstd::string::StringExecFns;

verus! {

/// The failures this core reports to its callers.
///
/// `VersionNotAvailable` and `MalformedQuery` are client errors: the request
/// named a backend version that is not configured, or its query document has
/// neither the aggregate nor the find shape.  `Backend` carries the text of
/// an I/O failure reported by a backend round trip.
#[derive(Debug, Clone, PartialEq, Eq)]
pub enum Error {
    VersionNotAvailable(String),
    MalformedQuery,
    Backend(String),
}

impl Error {
    /// The client-facing description of this error.
    pub fn message(&self) -> (r: String)
        ensures
            (match self {
                Error::VersionNotAvailable(v) => r@ == "MongoDB "@ + v@ + " not available"@,
                Error::MalformedQuery => r@ == "query is neither an aggregate nor a find"@,
                Error::Backend(m) => r@ == m@,
            }),
    {
        match self {
            Error::VersionNotAvailable(v) => {
                String::from_str("MongoDB ").concat(v.as_str()).concat(" not available")
            },
            Error::MalformedQuery => String::from_str("query is neither an aggregate nor a find"),
            Error::Backend(m) => m.clone(),
        }
    }
}

} // verus!
