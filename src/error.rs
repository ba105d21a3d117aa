use vstd::prelude::*;

verus! {

/// Why a build cannot go on.
#[derive(Debug, Clone, PartialEq, Eq)]
pub enum BuildError {
    /// Two or more API version options are enabled at once.
    MultipleApiVersions,
    /// Neither the `fuse` nor the `fuse3` package was found; the two lookup
    /// errors are kept.
    LibraryNotFound { fuse: String, fuse3: String },
    /// No include directory holds the header.
    HeaderNotFound { header: String },
    /// The header was found under a directory whose path is not valid text.
    NonUnicodePath { header: String },
    /// The generator could not produce bindings for the header.
    GenerationFailed { header: String },
    /// The generated bindings could not be written to this path.
    WriteFailed { path: String },
}

/// The text by which a build error is reported.
pub open spec fn message_spec(e: BuildError) -> Seq<char> {
    match e {
        BuildError::MultipleApiVersions => "More than one FUSE API version feature is enabled"@,
        BuildError::LibraryNotFound { fuse, fuse3 } => "Failed to find pkg-config modules fuse ("@
            + fuse@ + ") or fuse3 ("@ + fuse3@ + ")"@,
        BuildError::HeaderNotFound { header } => "Cannot find "@ + header@,
        BuildError::NonUnicodePath { header } => "Path to "@ + header@
            + " contains invalid unicode characters"@,
        BuildError::GenerationFailed { header } => "Failed to generate "@ + header@ + " bindings"@,
        BuildError::WriteFailed { path } => "Failed to write "@ + path@,
    }
}

impl BuildError {
    /// The report of this error.
    pub fn message(&self) -> (r: String)
        ensures
            r@ == message_spec(*self),
    {
        match self {
            BuildError::MultipleApiVersions => String::from_str(
                "More than one FUSE API version feature is enabled",
            ),
            BuildError::LibraryNotFound { fuse, fuse3 } => {
                let mut r = String::from_str("Failed to find pkg-config modules fuse (");
                r.append(fuse.as_str());
                r.append(") or fuse3 (");
                r.append(fuse3.as_str());
                r.append(")");
                r
            },
            BuildError::HeaderNotFound { header } => {
                let mut r = String::from_str("Cannot find ");
                r.append(header.as_str());
                r
            },
            BuildError::NonUnicodePath { header } => {
                let mut r = String::from_str("Path to ");
                r.append(header.as_str());
                r.append(" contains invalid unicode characters");
                r
            },
            BuildError::GenerationFailed { header } => {
                let mut r = String::from_str("Failed to generate ");
                r.append(header.as_str());
                r.append(" bindings");
                r
            },
            BuildError::WriteFailed { path } => {
                let mut r = String::from_str("Failed to write ");
                r.append(path.as_str());
                r
            },
        }
    }
}

} // verus!
