//! Platform-variant conventions, isolated behind pure capability lookups.
//!
//! Three decisions vary by platform: the file stem a built library gets, the
//! dynamic-library file extension, and whether a post-copy fixup of the
//! copied file is required before loading. Each is a pure function of the
//! platform identifier, so the logic around them stays free of conditional
//! compilation and is testable on any host.

use vstd::prelude::*;

verus! {

/// A platform with a known dynamic-library convention.
#[derive(Clone, Copy, Debug, PartialEq, Eq, Structural)]
pub enum Platform {
    Linux,
    MacOs,
    Ios,
    Windows,
}

/// The dynamic-library file extension of `platform`.
pub open spec fn dylib_ext_spec(platform: Platform) -> Seq<char> {
    match platform {
        Platform::Linux => "so"@,
        Platform::MacOs => "dylib"@,
        Platform::Ios => "dylib"@,
        Platform::Windows => "dll"@,
    }
}

/// Get the dylib extension for the given platform.
pub fn dylib_ext(platform: Platform) -> (r: &'static str)
    ensures
        r@ == dylib_ext_spec(platform),
{
    match platform {
        Platform::Linux => "so",
        Platform::MacOs => "dylib",
        Platform::Ios => "dylib",
        Platform::Windows => "dll",
    }
}

/// The file stem of a built library named `lib_name`: the name itself on
/// Windows, `lib` followed by the name everywhere else.
pub open spec fn file_stem_spec(platform: Platform, lib_name: Seq<char>) -> Seq<char> {
    match platform {
        Platform::Windows => lib_name,
        _ => "lib"@ + lib_name,
    }
}

/// The file stem the build tool gives the generated library on `platform`.
pub fn file_stem(platform: Platform, lib_name: &str) -> (r: String)
    ensures
        r@ == file_stem_spec(platform, lib_name@),
{
    match platform {
        Platform::Windows => lib_name.to_owned(),
        _ => {
            let mut s = String::from_str("lib");
            s.append(lib_name);
            s
        },
    }
}

/// Whether the platform identifies shared libraries by an embedded path, so
/// that a copied file needs its embedded install identifier rewritten before
/// it can be reloaded as a distinct library.
pub open spec fn fixup_required(platform: Platform) -> bool {
    platform == Platform::MacOs
}

/// Whether a post-copy fixup is required before loading on `platform`.
pub fn needs_post_copy_fixup(platform: Platform) -> (r: bool)
    ensures
        r == fixup_required(platform),
{
    match platform {
        Platform::MacOs => true,
        _ => false,
    }
}

} // verus!
