use vstd::prelude::*;
use crate::error::BuildError;

verus! {

/// The API version from which the `fuse3` package is preferred when both
/// packages are installed.
pub const FUSE3_API_THRESHOLD: u32 = 30;

/// The native package the bindings are generated against.
#[derive(Debug, Clone, Copy, PartialEq, Eq, Structural)]
pub enum FuseLibrary {
    /// libfuse 2, package `fuse`.
    Fuse,
    /// libfuse 3, package `fuse3`.
    Fuse3,
}

impl FuseLibrary {
    /// The package name under which the library is looked up.
    pub fn pkg_name(&self) -> (r: &'static str)
        ensures
            *self == FuseLibrary::Fuse ==> r@ == seq!['f', 'u', 's', 'e'],
            *self == FuseLibrary::Fuse3 ==> r@ == seq!['f', 'u', 's', 'e', '3'],
    {
        match self {
            FuseLibrary::Fuse => {
                proof { reveal_strlit("fuse"); }
                "fuse"
            },
            FuseLibrary::Fuse3 => {
                proof { reveal_strlit("fuse3"); }
                "fuse3"
            },
        }
    }
}

/// The package preferred for an API version when both are installed.
pub open spec fn preferred_library(api_version: u32) -> FuseLibrary {
    if api_version < FUSE3_API_THRESHOLD {
        FuseLibrary::Fuse
    } else {
        FuseLibrary::Fuse3
    }
}

/// Chooses the package from the outcomes of looking up `fuse` and `fuse3`
/// (`Err` holds the lookup's error text). The one that was found is taken;
/// when both were, the API version decides; when neither was, both errors
/// are reported.
pub fn choose_library(
    fuse: Result<(), String>,
    fuse3: Result<(), String>,
    api_version: u32,
) -> (r: Result<FuseLibrary, BuildError>)
    ensures
        fuse is Ok && fuse3 is Err ==> r == Ok::<FuseLibrary, BuildError>(FuseLibrary::Fuse),
        fuse is Err && fuse3 is Ok ==> r == Ok::<FuseLibrary, BuildError>(FuseLibrary::Fuse3),
        fuse is Ok && fuse3 is Ok ==> r == Ok::<FuseLibrary, BuildError>(
            preferred_library(api_version),
        ),
        fuse is Err && fuse3 is Err ==> (r matches Err(BuildError::LibraryNotFound { fuse: e, fuse3: e3 })
            && e@ == fuse->Err_0@ && e3@ == fuse3->Err_0@),
{
    match (fuse, fuse3) {
        (Err(e), Err(e3)) => Err(BuildError::LibraryNotFound { fuse: e, fuse3: e3 }),
        (Ok(_), Err(_)) => Ok(FuseLibrary::Fuse),
        (Err(_), Ok(_)) => Ok(FuseLibrary::Fuse3),
        (Ok(_), Ok(_)) => {
            if api_version < FUSE3_API_THRESHOLD {
                Ok(FuseLibrary::Fuse)
            } else {
                Ok(FuseLibrary::Fuse3)
            }
        },
    }
}

} // verus!
