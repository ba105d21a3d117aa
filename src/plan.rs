use vstd::prelude::*;
use crate::error::BuildError;
use crate::filter::{patterns_spec, FilterPatterns, Subsystem, SymbolFilter};
use crate::flags::{api_flag, compile_flags, define_flag, include_flag, NativeLibrary};
use crate::header::{is_first_with_header, locate_header, none_with_header, HeaderCandidate};
use crate::text::{bindings_file_name, join_path_spec, replace_h_spec};

verus! {

/// Which sets of bindings are asked for.
#[derive(Debug, Clone, Copy, PartialEq, Eq, Structural)]
pub struct BindingSelection {
    /// The high-level filesystem interface, `fuse.h`.
    pub highlevel: bool,
    /// The low-level filesystem interface, `fuse_lowlevel.h`.
    pub lowlevel: bool,
    /// The low-level character device interface, `cuse_lowlevel.h`.
    pub cuse_lowlevel: bool,
}

/// One set of bindings to generate: from this header, with this filter.
#[derive(Debug, Clone, PartialEq, Eq)]
pub struct BindingJob {
    pub header: String,
    pub filter: SymbolFilter,
}

/// The header and subsystem of each job, in order: `fuse.h`, then
/// `fuse_lowlevel.h`, then `cuse_lowlevel.h`, each where selected.
pub open spec fn jobs_spec(sel: BindingSelection) -> Seq<(Seq<char>, Subsystem)> {
    (if sel.highlevel { seq![("fuse.h"@, Subsystem::Fuse)] } else { seq![] })
        + (if sel.lowlevel { seq![("fuse_lowlevel.h"@, Subsystem::Fuse)] } else { seq![] })
        + (if sel.cuse_lowlevel { seq![("cuse_lowlevel.h"@, Subsystem::Cuse)] } else { seq![] })
}

/// Lists the sets of bindings to generate.
pub fn binding_jobs(sel: BindingSelection, target_macos: bool) -> (r: Vec<BindingJob>)
    ensures
        r@.len() == jobs_spec(sel).len(),
        forall|k: int|
            0 <= k < r@.len() ==> (#[trigger] r@[k]).header@ == jobs_spec(sel)[k].0
                && r@[k].filter == (SymbolFilter {
                subsystem: jobs_spec(sel)[k].1,
                target_macos,
            }),
{
    let mut r: Vec<BindingJob> = Vec::new();
    let fuse = SymbolFilter { subsystem: Subsystem::Fuse, target_macos };
    let cuse = SymbolFilter { subsystem: Subsystem::Cuse, target_macos };
    let ghost s1: Seq<(Seq<char>, Subsystem)> = if sel.highlevel {
        seq![("fuse.h"@, Subsystem::Fuse)]
    } else {
        seq![]
    };
    let ghost s2: Seq<(Seq<char>, Subsystem)> = if sel.lowlevel {
        seq![("fuse_lowlevel.h"@, Subsystem::Fuse)]
    } else {
        seq![]
    };
    let ghost s3: Seq<(Seq<char>, Subsystem)> = if sel.cuse_lowlevel {
        seq![("cuse_lowlevel.h"@, Subsystem::Cuse)]
    } else {
        seq![]
    };
    if sel.highlevel {
        r.push(BindingJob { header: String::from_str("fuse.h"), filter: fuse });
    }
    assert(r@.len() == s1.len());
    if sel.lowlevel {
        r.push(BindingJob { header: String::from_str("fuse_lowlevel.h"), filter: fuse });
    }
    assert(r@.len() == (s1 + s2).len());
    if sel.cuse_lowlevel {
        r.push(BindingJob { header: String::from_str("cuse_lowlevel.h"), filter: cuse });
    }
    assert(jobs_spec(sel) == s1 + s2 + s3);
    r
}

/// Everything the generator is handed for one set of bindings.
#[derive(Debug, Clone, PartialEq, Eq)]
pub struct GeneratorInput {
    /// The header to read.
    pub header_path: String,
    /// The compiler flags.
    pub clang_args: Vec<String>,
    /// The symbol filter, as patterns.
    pub patterns: FilterPatterns,
    /// The name of the bindings file in the output directory.
    pub output_file: String,
}

/// Prepares one generation: finds the job's header among the include
/// directories (`candidates`, one per include directory of `lib`, in order),
/// and gathers the compiler flags, the filter and the output file name.
/// Fails exactly as the header lookup does.
pub fn prepare_generation(
    job: &BindingJob,
    lib: &NativeLibrary,
    candidates: &Vec<HeaderCandidate>,
    api_version: u32,
) -> (r: Result<GeneratorInput, BuildError>)
    ensures
        none_with_header(candidates@) ==> (r matches Err(BuildError::HeaderNotFound { header: h })
            && h@ == job.header@),
        forall|i: int| #[trigger]
            is_first_with_header(candidates@, i) ==> match candidates@[i].dir {
                Some(dir) => r is Ok && r->Ok_0.header_path@ == join_path_spec(dir@, job.header@),
                None => r matches Err(BuildError::NonUnicodePath { header: h }) && h@
                    == job.header@,
            },
        r is Ok ==> {
            let g = r->Ok_0;
            let nd = lib.defines@.len();
            let ni = lib.include_paths@.len();
            &&& g.clang_args@.len() == nd + ni + 1
            &&& forall|k: int| 0 <= k < nd ==> (#[trigger] g.clang_args@[k])@ == define_flag(lib.defines@[k])
            &&& forall|k: int| 0 <= k < ni ==> (#[trigger] g.clang_args@[nd + k])@ == include_flag(lib.include_paths@[k]@)
            &&& g.clang_args@[(nd + ni) as int]@ == api_flag(api_version)
            &&& patterns_spec(job.filter, g.patterns)
            &&& g.output_file@ == replace_h_spec(job.header@)
        },
{
    let header_path = match locate_header(job.header.as_str(), candidates) {
        Ok(p) => p,
        Err(e) => return Err(e),
    };
    let clang_args = compile_flags(lib, api_version);
    let patterns = job.filter.patterns();
    let output_file = bindings_file_name(job.header.as_str());
    Ok(GeneratorInput { header_path, clang_args, patterns, output_file })
}

} // verus!
