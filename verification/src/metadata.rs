//! Build-tool metadata: the structured description of a package from which a
//! watch session is prepared, and the selection of its dynamically-loadable
//! target.
//!
//! The metadata subprocess and its JSON live at the edge of the system; this
//! module works on the plain values read out of that description: the target
//! build-output directory and, per package, each build target with its kind
//! tags and source-root path. The session requires exactly one target of the
//! dynamically-loadable kind in the package whose manifest was requested, and
//! fails with `WatchError::NoDylibTarget` otherwise.

use vstd::prelude::*;
use crate::errors::WatchError;
use crate::strutil::{ends_with_seq, str_ends_with, str_eq};

verus! {

/// One build target of a package: its name, its source-root path, and its
/// kind tags (a dynamically-loadable library output carries `dylib`).
#[derive(Debug, Clone)]
pub struct TargetMeta {
    pub name: String,
    pub src_path: String,
    pub kinds: Vec<String>,
}

/// One package in the metadata, correlated back to the requested manifest
/// through its manifest path.
#[derive(Debug, Clone)]
pub struct PackageMeta {
    pub manifest_path: String,
    pub targets: Vec<TargetMeta>,
}

/// The metadata description: the build-output directory and the packages.
#[derive(Debug, Clone)]
pub struct Metadata {
    pub target_directory: String,
    pub packages: Vec<PackageMeta>,
}

/// What session setup reads out of the metadata: where build outputs land,
/// where the module's sources are rooted, and the module's name.
#[derive(Debug, Clone)]
pub struct ResolvedTarget {
    pub target_dir_path: String,
    pub src_path: String,
    pub lib_name: String,
}

/// A valid entry-point path names a build manifest: its final path component
/// is `Cargo.toml` (or `cargo.toml`).
pub open spec fn is_manifest_path_spec(s: Seq<char>) -> bool {
    ||| s == "Cargo.toml"@
    ||| s == "cargo.toml"@
    ||| ends_with_seq(s, "/Cargo.toml"@)
    ||| ends_with_seq(s, "/cargo.toml"@)
}

/// Whether `path` names a build manifest.
pub fn is_manifest_path(path: &str) -> (r: bool)
    ensures
        r == is_manifest_path_spec(path@),
{
    str_eq(path, "Cargo.toml") || str_eq(path, "cargo.toml") || str_ends_with(path, "/Cargo.toml")
        || str_ends_with(path, "/cargo.toml")
}

/// The target carries the `dylib` kind tag.
pub open spec fn target_is_dylib(t: TargetMeta) -> bool {
    exists|i: int| 0 <= i < t.kinds@.len() && t.kinds@[i]@ == "dylib"@
}

/// The least index at or after `i` of a package whose manifest path is `m`.
pub open spec fn find_pkg_from(pkgs: Seq<PackageMeta>, m: Seq<char>, i: int) -> Option<int>
    decreases pkgs.len() - i,
{
    if i < 0 || i >= pkgs.len() {
        None
    } else if pkgs[i].manifest_path@ == m {
        Some(i)
    } else {
        find_pkg_from(pkgs, m, i + 1)
    }
}

/// The least index at or after `i` of a target with the `dylib` kind.
pub open spec fn find_dylib_from(targets: Seq<TargetMeta>, i: int) -> Option<int>
    decreases targets.len() - i,
{
    if i < 0 || i >= targets.len() {
        None
    } else if target_is_dylib(targets[i]) {
        Some(i)
    } else {
        find_dylib_from(targets, i + 1)
    }
}

/// What resolution yields on `meta` and `m`: the first `dylib` target of the
/// first package whose manifest path is `m`, or nothing.
pub open spec fn resolve_spec(meta: Metadata, m: Seq<char>) -> Option<TargetMeta> {
    match find_pkg_from(meta.packages@, m, 0) {
        None => None,
        Some(pi) => match find_dylib_from(meta.packages@[pi].targets@, 0) {
            None => None,
            Some(ti) => Some(meta.packages@[pi].targets@[ti]),
        },
    }
}

/// Whether target `t` carries the `dylib` kind tag.
pub fn target_has_dylib_kind(t: &TargetMeta) -> (r: bool)
    ensures
        r == target_is_dylib(*t),
{
    let mut i: usize = 0;
    let n: usize = t.kinds.len();
    while i < n
        invariant
            i <= n,
            n == t.kinds@.len(),
            forall|j: int| 0 <= j < i ==> t.kinds@[j]@ != "dylib"@,
        decreases n - i,
    {
        if str_eq(t.kinds[i].as_str(), "dylib") {
            return true;
        }
        i += 1;
    }
    false
}

proof fn lemma_find_pkg_skip(pkgs: Seq<PackageMeta>, m: Seq<char>, i: int)
    requires
        0 <= i < pkgs.len(),
        pkgs[i].manifest_path@ != m,
    ensures
        find_pkg_from(pkgs, m, i) == find_pkg_from(pkgs, m, i + 1),
{
}

proof fn lemma_find_dylib_skip(targets: Seq<TargetMeta>, i: int)
    requires
        0 <= i < targets.len(),
        !target_is_dylib(targets[i]),
    ensures
        find_dylib_from(targets, i) == find_dylib_from(targets, i + 1),
{
}

/// Select the dynamically-loadable target for the package whose manifest is
/// `manifest_path`: the first `dylib` target of the first matching package,
/// together with the build-output directory. Fails with `NoDylibTarget`
/// exactly when no matching package holds a `dylib` target.
pub fn resolve_dylib_target(meta: &Metadata, manifest_path: &str) -> (r: Result<
    ResolvedTarget,
    WatchError,
>)
    ensures
        match resolve_spec(*meta, manifest_path@) {
            None => r matches Err(WatchError::NoDylibTarget),
            Some(t) => r matches Ok(res) && res.lib_name@ == t.name@ && res.src_path@ == t.src_path@
                && res.target_dir_path@ == meta.target_directory@,
        },
{
    let npkgs: usize = meta.packages.len();
    let mut pi: usize = 0;
    while pi < npkgs
        invariant
            pi <= npkgs,
            npkgs == meta.packages@.len(),
            find_pkg_from(meta.packages@, manifest_path@, 0) == find_pkg_from(
                meta.packages@,
                manifest_path@,
                pi as int,
            ),
        decreases npkgs - pi,
    {
        let pkg = &meta.packages[pi];
        if str_eq(pkg.manifest_path.as_str(), manifest_path) {
            let ntargets: usize = pkg.targets.len();
            let mut ti: usize = 0;
            while ti < ntargets
                invariant
                    ti <= ntargets,
                    ntargets == pkg.targets@.len(),
                    pkg == meta.packages@[pi as int],
                    pi < meta.packages@.len(),
                    find_pkg_from(meta.packages@, manifest_path@, 0) == Some(pi as int),
                    find_dylib_from(pkg.targets@, 0) == find_dylib_from(pkg.targets@, ti as int),
                decreases ntargets - ti,
            {
                let target = &pkg.targets[ti];
                if target_has_dylib_kind(target) {
                    return Ok(
                        ResolvedTarget {
                            target_dir_path: meta.target_directory.clone(),
                            src_path: target.src_path.clone(),
                            lib_name: target.name.clone(),
                        },
                    );
                }
                proof {
                    lemma_find_dylib_skip(pkg.targets@, ti as int);
                }
                ti += 1;
            }
            return Err(WatchError::NoDylibTarget);
        }
        proof {
            lemma_find_pkg_skip(meta.packages@, manifest_path@, pi as int);
        }
        pi += 1;
    }
    Err(WatchError::NoDylibTarget)
}

} // verus!
