//! Tests for manifest validation, metadata target selection, process-output
//! classification, and the end-to-end model of one watch-build-load cycle.

use hotlib::errors::{BuildError, WatchError};
use hotlib::metadata::{
    Metadata, PackageMeta, ResolvedTarget, TargetMeta, is_manifest_path, resolve_dylib_target,
};
use hotlib::naming::Timestamp;
use hotlib::package::{Package, PackageInfo};
use hotlib::platform::Platform;
use hotlib::process::{ExitStatusUnsuccessfulError, ProcessOutput};
use hotlib::strutil::parent_dir;

fn target(name: &str, src: &str, kinds: &[&str]) -> TargetMeta {
    TargetMeta {
        name: String::from(name),
        src_path: String::from(src),
        kinds: kinds.iter().map(|k| String::from(*k)).collect(),
    }
}

fn metadata_with(kinds: &[&str]) -> Metadata {
    Metadata {
        target_directory: String::from("/tmp/proj/target"),
        packages: vec![PackageMeta {
            manifest_path: String::from("/tmp/proj/Cargo.toml"),
            targets: vec![target("foo", "/tmp/proj/src/lib.rs", kinds)],
        }],
    }
}

#[test]
fn manifest_path_validation() {
    assert!(is_manifest_path("Cargo.toml"));
    assert!(is_manifest_path("cargo.toml"));
    assert!(is_manifest_path("/tmp/proj/Cargo.toml"));
    assert!(is_manifest_path("/tmp/proj/cargo.toml"));
    assert!(!is_manifest_path("/tmp/proj/xCargo.toml"));
    assert!(!is_manifest_path("/tmp/proj/Cargo.toml.bak"));
    assert!(!is_manifest_path("/tmp/proj/Makefile"));
}

#[test]
fn parent_dir_strips_the_last_component() {
    assert_eq!(parent_dir("/tmp/proj/src/lib.rs"), Some(String::from("/tmp/proj/src")));
    assert_eq!(parent_dir("/lib.rs"), Some(String::from("")));
    assert_eq!(parent_dir("lib.rs"), None);
}

#[test]
fn resolve_picks_the_dylib_target() {
    let meta = metadata_with(&["lib", "dylib"]);
    let r = resolve_dylib_target(&meta, "/tmp/proj/Cargo.toml").unwrap();
    assert_eq!(r.lib_name, "foo");
    assert_eq!(r.src_path, "/tmp/proj/src/lib.rs");
    assert_eq!(r.target_dir_path, "/tmp/proj/target");
}

#[test]
fn resolve_without_dylib_kind_fails_with_no_dylib_target() {
    // Zero targets of the dynamically-loadable kind: session setup must
    // fail with the dedicated error.
    let meta = metadata_with(&["bin"]);
    assert!(matches!(
        resolve_dylib_target(&meta, "/tmp/proj/Cargo.toml"),
        Err(WatchError::NoDylibTarget)
    ));
    let empty = Metadata {
        target_directory: String::from("/tmp/proj/target"),
        packages: vec![PackageMeta {
            manifest_path: String::from("/tmp/proj/Cargo.toml"),
            targets: vec![],
        }],
    };
    assert!(matches!(
        resolve_dylib_target(&empty, "/tmp/proj/Cargo.toml"),
        Err(WatchError::NoDylibTarget)
    ));
}

#[test]
fn resolve_matches_the_requested_manifest_only() {
    let mut meta = metadata_with(&["dylib"]);
    meta.packages.insert(
        0,
        PackageMeta {
            manifest_path: String::from("/elsewhere/Cargo.toml"),
            targets: vec![target("bar", "/elsewhere/src/lib.rs", &["dylib"])],
        },
    );
    let r = resolve_dylib_target(&meta, "/tmp/proj/Cargo.toml").unwrap();
    assert_eq!(r.lib_name, "foo");
    assert!(matches!(
        resolve_dylib_target(&meta, "/nowhere/Cargo.toml"),
        Err(WatchError::NoDylibTarget)
    ));
}

#[test]
fn successful_output_yields_no_error() {
    let output = ProcessOutput {
        status_success: true,
        status_code: Some(0),
        stdout: Vec::new(),
        stderr: Vec::new(),
    };
    assert!(ExitStatusUnsuccessfulError::from_output(&output).is_none());
}

#[test]
fn failed_output_carries_code_and_stderr_verbatim() {
    let output = ProcessOutput {
        status_success: false,
        status_code: Some(101),
        stdout: Vec::new(),
        stderr: b"error[E0308]".to_vec(),
    };
    let err = ExitStatusUnsuccessfulError::from_output(&output).unwrap();
    assert_eq!(err.code, Some(101));
    assert_eq!(err.stderr, "error[E0308]");
}

fn info() -> PackageInfo {
    PackageInfo {
        manifest_path: String::from("/tmp/proj/Cargo.toml"),
        src_path: String::from("/tmp/proj/src"),
        lib_name: String::from("foo"),
        target_dir_path: String::from("/tmp/proj/target"),
        platform: Platform::Linux,
        tmp_root: String::from("/tmp"),
    }
}

#[test]
fn build_failure_carries_code_and_stderr() {
    let i = info();
    let pkg = Package { info: &i };
    let output = ProcessOutput {
        status_success: false,
        status_code: Some(101),
        stdout: Vec::new(),
        stderr: b"error[E0308]".to_vec(),
    };
    let t = Timestamp { secs: 1_600_000_000, nanos: 0 };
    match pkg.finish_build(output, t) {
        Err(BuildError::ExitStatusUnsuccessful { err }) => {
            assert_eq!(err.code, Some(101));
            assert_eq!(err.stderr, "error[E0308]");
        }
        other => panic!("expected a build failure, got ok={:?}", other.is_ok()),
    }
}

#[test]
fn manifest_to_loadable_path_end_to_end() {
    // One dylib target named foo with output directory /tmp/proj/target:
    // building and naming the temp copy yields the documented path shape.
    let meta = metadata_with(&["dylib"]);
    let resolved: ResolvedTarget = resolve_dylib_target(&meta, "/tmp/proj/Cargo.toml").unwrap();
    let src_dir = parent_dir(&resolved.src_path).unwrap();
    let i = PackageInfo {
        manifest_path: String::from("/tmp/proj/Cargo.toml"),
        src_path: src_dir,
        lib_name: resolved.lib_name,
        target_dir_path: resolved.target_dir_path,
        platform: Platform::Linux,
        tmp_root: String::from("/tmp"),
    };
    let pkg = Package { info: &i };
    let output = ProcessOutput {
        status_success: true,
        status_code: Some(0),
        stdout: Vec::new(),
        stderr: Vec::new(),
    };
    let t = Timestamp { secs: 1_600_000_000, nanos: 0 };
    let build = pkg.finish_build(output, t).unwrap();
    assert_eq!(build.dylib_path(), "/tmp/proj/target/release/libfoo.so");
    assert_eq!(build.tmp_dylib_path(), "/tmp/hotlib/libfoo-2020-09-13t12-26-40z.so");
    assert_eq!(build.timestamp(), t);
    assert!(build.cargo_output().status_success);
}
