use libfuse_sys::error::BuildError;
use libfuse_sys::filter::{Subsystem, SymbolFilter, SymbolKind};
use libfuse_sys::flags::{compile_flags, define_to_flag, Define, NativeLibrary};
use libfuse_sys::header::{locate_header, HeaderCandidate};
use libfuse_sys::library::{choose_library, FuseLibrary, FUSE3_API_THRESHOLD};
use libfuse_sys::plan::{binding_jobs, prepare_generation, BindingJob, BindingSelection};
use libfuse_sys::text::{bindings_file_name, decimal, join_path};
use libfuse_sys::version::{
    default_version_warning, resolve_api_version, supported_version, ResolvedVersion,
    FUSE_DEFAULT_API_VERSION,
};

const VERSIONS: [u32; 10] = [11, 21, 22, 24, 25, 26, 29, 30, 31, 35];

fn only(i: usize) -> [bool; 10] {
    let mut enabled = [false; 10];
    enabled[i] = true;
    enabled
}

#[test]
fn one_version_option_gives_its_version() {
    for i in 0..10 {
        assert_eq!(
            resolve_api_version(&only(i)).unwrap(),
            ResolvedVersion { version: VERSIONS[i], defaulted: false }
        );
    }
}

#[test]
fn supported_versions_in_option_order() {
    for i in 0..10 {
        assert_eq!(supported_version(i), VERSIONS[i]);
    }
}

#[test]
fn no_version_option_gives_default_with_warning() {
    let r = resolve_api_version(&[false; 10]).unwrap();
    assert_eq!(r, ResolvedVersion { version: 30, defaulted: true });
    assert_eq!(FUSE_DEFAULT_API_VERSION, 30);
    assert_eq!(
        default_version_warning(),
        "No FUSE API version feature selected. Defaulting to version 30."
    );
}

#[test]
fn two_version_options_abort() {
    let mut enabled = only(0);
    enabled[9] = true;
    assert_eq!(resolve_api_version(&enabled), Err(BuildError::MultipleApiVersions));
    let mut adjacent = only(4);
    adjacent[5] = true;
    assert_eq!(resolve_api_version(&adjacent), Err(BuildError::MultipleApiVersions));
    assert_eq!(resolve_api_version(&[true; 10]), Err(BuildError::MultipleApiVersions));
    assert_eq!(
        BuildError::MultipleApiVersions.message(),
        "More than one FUSE API version feature is enabled"
    );
}

#[test]
fn library_found_alone_is_taken() {
    assert_eq!(choose_library(Ok(()), Err("no".to_string()), 35), Ok(FuseLibrary::Fuse));
    assert_eq!(choose_library(Err("no".to_string()), Ok(()), 11), Ok(FuseLibrary::Fuse3));
}

#[test]
fn both_libraries_found_version_decides() {
    assert_eq!(FUSE3_API_THRESHOLD, 30);
    assert_eq!(choose_library(Ok(()), Ok(()), 29), Ok(FuseLibrary::Fuse));
    assert_eq!(choose_library(Ok(()), Ok(()), 11), Ok(FuseLibrary::Fuse));
    assert_eq!(choose_library(Ok(()), Ok(()), 30), Ok(FuseLibrary::Fuse3));
    assert_eq!(choose_library(Ok(()), Ok(()), 35), Ok(FuseLibrary::Fuse3));
}

#[test]
fn no_library_found_reports_both_errors() {
    let r = choose_library(Err("not fuse".to_string()), Err("not fuse3".to_string()), 30);
    let e = r.unwrap_err();
    assert_eq!(
        e,
        BuildError::LibraryNotFound { fuse: "not fuse".to_string(), fuse3: "not fuse3".to_string() }
    );
    assert_eq!(
        e.message(),
        "Failed to find pkg-config modules fuse (not fuse) or fuse3 (not fuse3)"
    );
}

#[test]
fn package_names() {
    assert_eq!(FuseLibrary::Fuse.pkg_name(), "fuse");
    assert_eq!(FuseLibrary::Fuse3.pkg_name(), "fuse3");
}

fn cand(dir: &str, has_header: bool) -> HeaderCandidate {
    HeaderCandidate { dir: Some(dir.to_string()), has_header }
}

#[test]
fn header_in_the_one_directory_that_holds_it() {
    let cands = vec![cand("/usr/include", false), cand("/usr/include/fuse3", true), cand("/opt", false)];
    assert_eq!(locate_header("fuse.h", &cands), Ok("/usr/include/fuse3/fuse.h".to_string()));
}

#[test]
fn header_in_first_directory_that_holds_it() {
    let cands = vec![cand("/a", false), cand("/b/", true), cand("/c", true)];
    assert_eq!(locate_header("fuse_lowlevel.h", &cands), Ok("/b/fuse_lowlevel.h".to_string()));
}

#[test]
fn header_missing_everywhere_is_named() {
    let cands = vec![cand("/a", false), cand("/b", false)];
    let e = locate_header("fuse.h", &cands).unwrap_err();
    assert_eq!(e, BuildError::HeaderNotFound { header: "fuse.h".to_string() });
    assert_eq!(e.message(), "Cannot find fuse.h");
    let none: Vec<HeaderCandidate> = Vec::new();
    assert_eq!(
        locate_header("cuse_lowlevel.h", &none).unwrap_err().message(),
        "Cannot find cuse_lowlevel.h"
    );
}

#[test]
fn header_under_non_text_path_fails() {
    let cands = vec![cand("/a", false), HeaderCandidate { dir: None, has_header: true }, cand("/c", true)];
    let e = locate_header("fuse.h", &cands).unwrap_err();
    assert_eq!(e, BuildError::NonUnicodePath { header: "fuse.h".to_string() });
    assert_eq!(e.message(), "Path to fuse.h contains invalid unicode characters");
}

#[test]
fn paths_join_like_pathbuf() {
    assert_eq!(join_path("/usr/include", "fuse.h"), "/usr/include/fuse.h");
    assert_eq!(join_path("/usr/include/", "fuse.h"), "/usr/include/fuse.h");
    assert_eq!(join_path("", "fuse.h"), "fuse.h");
    assert_eq!(join_path("/usr", "/abs/fuse.h"), "/abs/fuse.h");
    assert_eq!(join_path("/", "x"), "/x");
    for (dir, file) in [("/usr/include", "fuse.h"), ("a/", "b"), ("", "c"), ("d", "/e")] {
        let expected = std::path::Path::new(dir).join(file);
        assert_eq!(join_path(dir, file), expected.to_str().unwrap());
    }
}

#[test]
fn decimal_digits() {
    assert_eq!(decimal(0), "0");
    assert_eq!(decimal(7), "7");
    assert_eq!(decimal(10), "10");
    assert_eq!(decimal(30), "30");
    assert_eq!(decimal(4294967295), "4294967295");
    for n in [1u32, 9, 99, 100, 12345, 1000000] {
        assert_eq!(decimal(n), n.to_string());
    }
}

#[test]
fn output_file_names() {
    assert_eq!(bindings_file_name("fuse.h"), "fuse.rs");
    assert_eq!(bindings_file_name("fuse_lowlevel.h"), "fuse_lowlevel.rs");
    assert_eq!(bindings_file_name("cuse_lowlevel.h"), "cuse_lowlevel.rs");
    assert_eq!(bindings_file_name("a.h.h"), "a.rs.rs");
    assert_eq!(bindings_file_name("x.hpp"), "x.rspp");
    assert_eq!(bindings_file_name("noext"), "noext");
    assert_eq!(bindings_file_name(""), "");
    assert_eq!(bindings_file_name("."), ".");
    for h in ["..hh", "fuse.h", "h.", ".h.h."] {
        assert_eq!(bindings_file_name(h), h.replace(".h", ".rs"));
    }
}

#[test]
fn flags_in_order() {
    let lib = NativeLibrary {
        include_paths: vec!["/usr/include/fuse3".to_string(), "/opt/inc".to_string()],
        defines: vec![
            Define { name: "_FILE_OFFSET_BITS".to_string(), value: Some("64".to_string()) },
            Define { name: "_REENTRANT".to_string(), value: None },
        ],
    };
    assert_eq!(
        compile_flags(&lib, 31),
        vec![
            "-D_FILE_OFFSET_BITS=64".to_string(),
            "-D_REENTRANT".to_string(),
            "-I/usr/include/fuse3".to_string(),
            "-I/opt/inc".to_string(),
            "-DFUSE_USE_VERSION=31".to_string(),
        ]
    );
    let empty = NativeLibrary { include_paths: Vec::new(), defines: Vec::new() };
    assert_eq!(compile_flags(&empty, 26), vec!["-DFUSE_USE_VERSION=26".to_string()]);
    let d = Define { name: "X".to_string(), value: Some(String::new()) };
    assert_eq!(define_to_flag(&d), "-DX=");
}

fn fuse_filter(target_macos: bool) -> SymbolFilter {
    SymbolFilter { subsystem: Subsystem::Fuse, target_macos }
}

#[test]
fn fuse_filter_allows_prefix_in_any_case() {
    let f = fuse_filter(false);
    assert!(f.allows(SymbolKind::Function, "fuse_main_real"));
    assert!(f.allows(SymbolKind::Type, "fuse_operations"));
    assert!(f.allows(SymbolKind::Var, "FUSE_ROOT_ID"));
    assert!(f.allows(SymbolKind::Type, "FuSe"));
    assert!(f.allows(SymbolKind::Type, "fu\u{17f}e_x"));
    assert!(!f.allows(SymbolKind::Function, "fus"));
    assert!(!f.allows(SymbolKind::Function, "xfuse_main"));
    assert!(!f.allows(SymbolKind::Function, "cuse_lowlevel_main"));
    assert!(!f.allows(SymbolKind::Function, "fuse\nx"));
    assert!(!f.allows(SymbolKind::Type, "stat"));
}

#[test]
fn fuse_filter_denies_log_callback() {
    let f = fuse_filter(false);
    assert!(!f.allows(SymbolKind::Type, "fuse_log_func_t"));
    assert!(!f.allows(SymbolKind::Function, "fuse_set_log_func"));
    assert!(f.allows(SymbolKind::Function, "fuse_log_func_t"));
    assert!(f.allows(SymbolKind::Type, "fuse_set_log_func"));
    assert!(f.allows(SymbolKind::Function, "fuse_log"));
}

#[test]
fn setattr_x_only_on_macos() {
    assert!(!fuse_filter(false).allows(SymbolKind::Type, "setattr_x"));
    assert!(fuse_filter(true).allows(SymbolKind::Type, "setattr_x"));
    assert!(!fuse_filter(true).allows(SymbolKind::Function, "setattr_x"));
    let cuse = SymbolFilter { subsystem: Subsystem::Cuse, target_macos: true };
    assert!(!cuse.allows(SymbolKind::Type, "setattr_x"));
}

#[test]
fn cuse_filter_allows_cuse_prefix() {
    let f = SymbolFilter { subsystem: Subsystem::Cuse, target_macos: false };
    assert!(f.allows(SymbolKind::Function, "cuse_lowlevel_main"));
    assert!(f.allows(SymbolKind::Type, "CUSE_INFO"));
    assert!(!f.allows(SymbolKind::Function, "fuse_main_real"));
    assert!(f.allows(SymbolKind::Type, "cuse_log_func_t"));
}

#[test]
fn filter_patterns() {
    let p = fuse_filter(true).patterns();
    assert_eq!(p.allow, "^[fF][uU][sS\u{17f}][eE].*");
    assert_eq!(p.extra_types, vec!["setattr_x".to_string()]);
    assert_eq!(p.blocked_types, vec!["fuse_log_func_t".to_string()]);
    assert_eq!(p.blocked_functions, vec!["fuse_set_log_func".to_string()]);
    assert!(fuse_filter(false).patterns().extra_types.is_empty());
    let c = SymbolFilter { subsystem: Subsystem::Cuse, target_macos: false }.patterns();
    assert_eq!(c.allow, "^[cC][uU][sS\u{17f}][eE].*");
    assert!(c.extra_types.is_empty() && c.blocked_types.is_empty() && c.blocked_functions.is_empty());
}

#[test]
fn jobs_follow_selection() {
    let all = BindingSelection { highlevel: true, lowlevel: true, cuse_lowlevel: true };
    let jobs = binding_jobs(all, false);
    let headers: Vec<&str> = jobs.iter().map(|j| j.header.as_str()).collect();
    assert_eq!(headers, vec!["fuse.h", "fuse_lowlevel.h", "cuse_lowlevel.h"]);
    assert_eq!(jobs[0].filter, fuse_filter(false));
    assert_eq!(jobs[1].filter, fuse_filter(false));
    assert_eq!(jobs[2].filter, SymbolFilter { subsystem: Subsystem::Cuse, target_macos: false });
    let low = BindingSelection { highlevel: false, lowlevel: true, cuse_lowlevel: false };
    let jobs = binding_jobs(low, true);
    assert_eq!(jobs.len(), 1);
    assert_eq!(jobs[0].header, "fuse_lowlevel.h");
    assert_eq!(jobs[0].filter, fuse_filter(true));
    let none = BindingSelection { highlevel: false, lowlevel: false, cuse_lowlevel: false };
    assert!(binding_jobs(none, false).is_empty());
}

#[test]
fn generation_prepared_from_parts() {
    let job = BindingJob { header: "fuse.h".to_string(), filter: fuse_filter(false) };
    let lib = NativeLibrary {
        include_paths: vec!["/usr/include/fuse".to_string()],
        defines: vec![Define { name: "_FILE_OFFSET_BITS".to_string(), value: Some("64".to_string()) }],
    };
    let cands = vec![cand("/usr/include/fuse", true)];
    let g = prepare_generation(&job, &lib, &cands, 26).unwrap();
    assert_eq!(g.header_path, "/usr/include/fuse/fuse.h");
    assert_eq!(
        g.clang_args,
        vec![
            "-D_FILE_OFFSET_BITS=64".to_string(),
            "-I/usr/include/fuse".to_string(),
            "-DFUSE_USE_VERSION=26".to_string(),
        ]
    );
    assert_eq!(g.patterns, fuse_filter(false).patterns());
    assert_eq!(g.output_file, "fuse.rs");
    let missing = vec![cand("/usr/include/fuse", false)];
    assert_eq!(
        prepare_generation(&job, &lib, &missing, 26),
        Err(BuildError::HeaderNotFound { header: "fuse.h".to_string() })
    );
}

#[test]
fn generator_error_messages() {
    assert_eq!(
        BuildError::GenerationFailed { header: "fuse.h".to_string() }.message(),
        "Failed to generate fuse.h bindings"
    );
    assert_eq!(
        BuildError::WriteFailed { path: "/out/fuse.rs".to_string() }.message(),
        "Failed to write /out/fuse.rs"
    );
}
