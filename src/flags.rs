use vstd::prelude::*;
use crate::text::{decimal, decimal_spec};

verus! {

/// A preprocessor definition that the native package asks for.
#[derive(Debug, Clone, PartialEq, Eq)]
pub struct Define {
    pub name: String,
    pub value: Option<String>,
}

/// What the build reads of the native package: its include directories, as
/// text, and its preprocessor definitions.
#[derive(Debug, Clone, PartialEq, Eq)]
pub struct NativeLibrary {
    pub include_paths: Vec<String>,
    pub defines: Vec<Define>,
}

/// `-DNAME=VALUE`, or `-DNAME` for a definition without a value.
pub open spec fn define_flag(d: Define) -> Seq<char> {
    match d.value {
        Some(v) => "-D"@ + d.name@ + "="@ + v@,
        None => "-D"@ + d.name@,
    }
}

/// `-IDIR`.
pub open spec fn include_flag(dir: Seq<char>) -> Seq<char> {
    "-I"@ + dir
}

/// `-DFUSE_USE_VERSION=N`, which selects the native API revision.
pub open spec fn api_flag(api_version: u32) -> Seq<char> {
    "-DFUSE_USE_VERSION="@ + decimal_spec(api_version as nat)
}

/// Writes the flag of one definition.
pub fn define_to_flag(d: &Define) -> (r: String)
    ensures
        r@ == define_flag(*d),
{
    let mut r = String::from_str("-D");
    r.append(d.name.as_str());
    match &d.value {
        Some(v) => {
            r.append("=");
            r.append(v.as_str());
        },
        None => {},
    }
    r
}

/// The compiler flags for the generator: every definition, then every
/// include directory, then the API version definition, each in the given
/// order.
pub fn compile_flags(lib: &NativeLibrary, api_version: u32) -> (r: Vec<String>)
    ensures
        r@.len() == lib.defines@.len() + lib.include_paths@.len() + 1,
        forall|k: int|
            0 <= k < lib.defines@.len() ==> (#[trigger] r@[k])@ == define_flag(lib.defines@[k]),
        forall|k: int|
            0 <= k < lib.include_paths@.len() ==> (#[trigger] r@[lib.defines@.len() + k])@
                == include_flag(lib.include_paths@[k]@),
        r@[(lib.defines@.len() + lib.include_paths@.len()) as int]@ == api_flag(api_version),
{
    let mut r: Vec<String> = Vec::new();
    let mut i: usize = 0;
    while i < lib.defines.len()
        invariant
            0 <= i <= lib.defines@.len(),
            r@.len() == i,
            forall|k: int| 0 <= k < i ==> (#[trigger] r@[k])@ == define_flag(lib.defines@[k]),
        decreases lib.defines@.len() - i,
    {
        r.push(define_to_flag(&lib.defines[i]));
        i = i + 1;
    }
    let nd = lib.defines.len();
    let mut j: usize = 0;
    while j < lib.include_paths.len()
        invariant
            0 <= j <= lib.include_paths@.len(),
            nd == lib.defines@.len(),
            r@.len() == nd + j,
            forall|k: int| 0 <= k < nd ==> (#[trigger] r@[k])@ == define_flag(lib.defines@[k]),
            forall|k: int|
                0 <= k < j ==> (#[trigger] r@[nd + k])@ == include_flag(lib.include_paths@[k]@),
        decreases lib.include_paths@.len() - j,
    {
        let mut flag = String::from_str("-I");
        flag.append(lib.include_paths[j].as_str());
        r.push(flag);
        assert forall|k: int| 0 <= k < j + 1 implies (#[trigger] r@[nd + k])@ == include_flag(
            lib.include_paths@[k]@,
        ) by {}
        j = j + 1;
    }
    let mut api = String::from_str("-DFUSE_USE_VERSION=");
    let digits = decimal(api_version);
    api.append(digits.as_str());
    r.push(api);
    r
}

} // verus!
