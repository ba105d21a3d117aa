use vstd::prelude::*;
use crate::error::BuildError;
use crate::text::{decimal, decimal_spec};

verus! {

/// The API version used when no version option is enabled.
pub const FUSE_DEFAULT_API_VERSION: u32 = 30;

/// The API versions that can be requested, one option each, in the order in
/// which the options are given (`fuse_11`, `fuse_21`, ..., `fuse_35`).
pub open spec fn supported_versions() -> Seq<u32> {
    seq![11, 21, 22, 24, 25, 26, 29, 30, 31, 35]
}

/// How many of the options are enabled.
pub open spec fn enabled_count(enabled: Seq<bool>) -> nat
    decreases enabled.len(),
{
    if enabled.len() == 0 {
        0
    } else {
        enabled_count(enabled.drop_last()) + if enabled.last() { 1nat } else { 0nat }
    }
}

/// The API version of the option at `index`.
pub fn supported_version(index: usize) -> (v: u32)
    requires
        index < 10,
    ensures
        v == supported_versions()[index as int],
{
    let versions: [u32; 10] = [11, 21, 22, 24, 25, 26, 29, 30, 31, 35];
    assert(versions@ == supported_versions());
    versions[index]
}

/// The API version that a build uses, and whether it came from the default.
#[derive(Debug, Clone, Copy, PartialEq, Eq, Structural)]
pub struct ResolvedVersion {
    pub version: u32,
    pub defaulted: bool,
}

/// Resolves the API version from the version options (`enabled[i]` tells
/// whether the option of `supported_versions()[i]` is on). One option gives
/// its version; none gives the default, marked as defaulted; two or more are
/// an error.
pub fn resolve_api_version(enabled: &[bool; 10]) -> (r: Result<ResolvedVersion, BuildError>)
    ensures
        enabled_count(enabled@) == 0 ==> r == Ok::<ResolvedVersion, BuildError>(
            ResolvedVersion { version: FUSE_DEFAULT_API_VERSION, defaulted: true },
        ),
        enabled_count(enabled@) == 1 ==> forall|i: int|
            0 <= i < 10 && #[trigger] enabled@[i] ==> r == Ok::<ResolvedVersion, BuildError>(
                ResolvedVersion { version: supported_versions()[i], defaulted: false },
            ),
        enabled_count(enabled@) >= 2 <==> r matches Err(BuildError::MultipleApiVersions),
        r is Err ==> r matches Err(BuildError::MultipleApiVersions),
{
    let mut selected: Option<u32> = None;
    let mut i: usize = 0;
    while i < 10
        invariant
            0 <= i <= 10,
            enabled@.len() == 10,
            enabled_count(enabled@.subrange(0, i as int)) <= 1,
            selected is None <==> enabled_count(enabled@.subrange(0, i as int)) == 0,
            forall|j: int| 0 <= j < i && #[trigger] enabled@[j] ==> selected == Some(supported_versions()[j]),
        decreases 10 - i,
    {
        assert(enabled@.subrange(0, i + 1).drop_last() =~= enabled@.subrange(0, i as int));
        if enabled[i] {
            if selected.is_some() {
                proof { lemma_count_prefix_le(enabled@, i as int + 1); }
                return Err(BuildError::MultipleApiVersions);
            }
            selected = Some(supported_version(i));
        }
        i = i + 1;
    }
    assert(enabled@.subrange(0, 10) =~= enabled@);
    match selected {
        Some(version) => Ok(ResolvedVersion { version, defaulted: false }),
        None => Ok(ResolvedVersion { version: FUSE_DEFAULT_API_VERSION, defaulted: true }),
    }
}

proof fn lemma_count_prefix_le(s: Seq<bool>, n: int)
    requires
        0 <= n <= s.len(),
    ensures
        enabled_count(s.subrange(0, n)) <= enabled_count(s),
    decreases s.len(),
{
    if n < s.len() {
        assert(s.drop_last().subrange(0, n) =~= s.subrange(0, n));
        lemma_count_prefix_le(s.drop_last(), n);
    } else {
        assert(s.subrange(0, n) =~= s);
    }
}

/// The warning printed when no version option is enabled.
pub open spec fn default_warning_spec() -> Seq<char> {
    "No FUSE API version feature selected. Defaulting to version "@
        + decimal_spec(FUSE_DEFAULT_API_VERSION as nat) + "."@
}

/// Writes the warning that the default API version is used.
pub fn default_version_warning() -> (r: String)
    ensures
        r@ == default_warning_spec(),
{
    let mut r = String::from_str("No FUSE API version feature selected. Defaulting to version ");
    let v = decimal(FUSE_DEFAULT_API_VERSION);
    r.append(v.as_str());
    r.append(".");
    r
}

} // verus!
