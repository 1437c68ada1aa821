//! Deterministic, collision-free naming of temporary library copies.
//!
//! Each completed build is identified by `(module name, build timestamp)`;
//! the temporary copy of its artifact is named
//! `<stem(module name)>-<slug(timestamp)>.<extension>` inside one dedicated
//! directory under the platform temp root. Distinct builds therefore never
//! collide on a path, which is what lets an older loaded copy survive a
//! newer build: see `lemma_distinct_slugs_distinct_paths`.

use vstd::prelude::*;
use vstd::string::StringExecFns;
use crate::platform::{Platform, dylib_ext, dylib_ext_spec, file_stem, file_stem_spec};

verus! {

/// Times at or past year 10000 cannot be formatted as an RFC 3339 timestamp.
pub const RFC3339_SECS_LIMIT: u64 = 253_402_300_800;

pub const NANOS_PER_SEC: u32 = 1_000_000_000;

/// A build-completion instant: seconds and subsecond nanoseconds since the
/// Unix epoch. Plain values, so naming can be specified and proved over them.
#[derive(Clone, Copy, Debug, PartialEq, Eq, Structural)]
pub struct Timestamp {
    pub secs: u64,
    pub nanos: u32,
}

/// A timestamp that the RFC 3339 formatter accepts.
pub open spec fn timestamp_ok(t: Timestamp) -> bool {
    t.secs < RFC3339_SECS_LIMIT && t.nanos < NANOS_PER_SEC
}

/// The RFC 3339 rendering of the instant `secs`/`nanos` after the epoch.
pub uninterp spec fn rfc3339_of(secs: u64, nanos: u32) -> Seq<char>;

/// The ascii slug of a string.
pub uninterp spec fn slug_of(s: Seq<char>) -> Seq<char>;

/// Relies on `humantime::format_rfc3339`: the rendering is a function of the
/// instant alone (always UTC, ignores the system time zone). Its `Display`
/// implementation rejects times at or past year 10000, which the
/// precondition excludes.
#[verifier::external_body]
fn rfc3339_timestamp(secs: u64, nanos: u32) -> (r: String)
    requires
        secs < RFC3339_SECS_LIMIT,
        nanos < NANOS_PER_SEC,
    ensures
        r@ == rfc3339_of(secs, nanos),
{
    let t = std::time::UNIX_EPOCH + std::time::Duration::new(secs, nanos);
    humantime::format_rfc3339(t).to_string()
}

/// Relies on `slug::slugify`: the slug is a function of the characters alone,
/// consisting of `a-z`, `0-9` and `-`.
#[verifier::external_body]
fn slugify(s: &str) -> (r: String)
    ensures
        r@ == slug_of(s@),
{
    slug::slugify(s)
}

/// The slug that stands for `t` in a temporary file name.
pub open spec fn timestamp_slug(t: Timestamp) -> Seq<char> {
    slug_of(rfc3339_of(t.secs, t.nanos))
}

/// Render the timestamp slug for `t`.
pub fn timestamp_slug_string(t: Timestamp) -> (r: String)
    requires
        timestamp_ok(t),
    ensures
        r@ == timestamp_slug(t),
{
    let formatted = rfc3339_timestamp(t.secs, t.nanos);
    slugify(formatted.as_str())
}

/// The dedicated temporary directory, under the platform temp root.
pub open spec fn tmp_dir_spec(tmp_root: Seq<char>) -> Seq<char> {
    tmp_root + "/hotlib"@
}

/// The temporary directory used for library copies, given the platform temp
/// root directory.
pub fn tmp_dir(tmp_root: &str) -> (r: String)
    ensures
        r@ == tmp_dir_spec(tmp_root@),
{
    let mut s = tmp_root.to_owned();
    s.append("/hotlib");
    s
}

/// The file stem of the temporary copy for one build:
/// `<stem(lib_name)>-<timestamp slug>`.
pub open spec fn tmp_file_stem_spec(platform: Platform, lib_name: Seq<char>, t: Timestamp) -> Seq<
    char,
> {
    file_stem_spec(platform, lib_name) + "-"@ + timestamp_slug(t)
}

/// Produce the file stem for the temporary copy of one build.
pub fn tmp_file_stem(platform: Platform, lib_name: &str, t: Timestamp) -> (r: String)
    requires
        timestamp_ok(t),
    ensures
        r@ == tmp_file_stem_spec(platform, lib_name@, t),
{
    let mut s = file_stem(platform, lib_name);
    s.append("-");
    let slug = timestamp_slug_string(t);
    s.append(slug.as_str());
    proof {
        assert(s@ =~= tmp_file_stem_spec(platform, lib_name@, t));
    }
    s
}

/// The full destination path of the temporary copy for one build.
pub open spec fn tmp_dylib_path_spec(
    tmp_root: Seq<char>,
    platform: Platform,
    lib_name: Seq<char>,
    t: Timestamp,
) -> Seq<char> {
    tmp_dir_spec(tmp_root) + "/"@ + tmp_file_stem_spec(platform, lib_name, t) + "."@
        + dylib_ext_spec(platform)
}

/// Compute the destination path of the temporary copy for one build.
pub fn tmp_dylib_path(tmp_root: &str, platform: Platform, lib_name: &str, t: Timestamp) -> (r:
    String)
    requires
        timestamp_ok(t),
    ensures
        r@ == tmp_dylib_path_spec(tmp_root@, platform, lib_name@, t),
{
    let mut s = tmp_dir(tmp_root);
    s.append("/");
    let stem = tmp_file_stem(platform, lib_name, t);
    s.append(stem.as_str());
    s.append(".");
    s.append(dylib_ext(platform));
    proof {
        assert(s@ =~= tmp_dylib_path_spec(tmp_root@, platform, lib_name@, t));
    }
    s
}

/// If two sequences agree around a differing middle, the wholes differ:
/// concatenation with a fixed prefix and suffix is injective in the middle.
proof fn lemma_mid_cancel(a: Seq<char>, x: Seq<char>, y: Seq<char>, b: Seq<char>)
    requires
        a + x + b == a + y + b,
    ensures
        x == y,
{
    assert((a + x + b).len() == a.len() + x.len() + b.len());
    assert((a + y + b).len() == a.len() + y.len() + b.len());
    assert(x.len() == y.len());
    assert(x =~= y) by {
        assert forall|i: int| 0 <= i < x.len() implies x[i] == y[i] by {
            assert((a + x + b)[a.len() + i] == x[i]);
            assert((a + y + b)[a.len() + i] == y[i]);
        }
    }
}

/// Uniqueness law: two builds of the same module whose timestamps render to
/// different slugs get different destination paths, so neither copy can
/// overwrite or alias the other's backing file.
pub proof fn lemma_distinct_slugs_distinct_paths(
    tmp_root: Seq<char>,
    platform: Platform,
    lib_name: Seq<char>,
    t1: Timestamp,
    t2: Timestamp,
)
    requires
        timestamp_slug(t1) != timestamp_slug(t2),
    ensures
        tmp_dylib_path_spec(tmp_root, platform, lib_name, t1) != tmp_dylib_path_spec(
            tmp_root,
            platform,
            lib_name,
            t2,
        ),
{
    let a = tmp_dir_spec(tmp_root) + "/"@ + file_stem_spec(platform, lib_name) + "-"@;
    let b = "."@ + dylib_ext_spec(platform);
    assert(tmp_dylib_path_spec(tmp_root, platform, lib_name, t1) =~= a + timestamp_slug(t1) + b);
    assert(tmp_dylib_path_spec(tmp_root, platform, lib_name, t2) =~= a + timestamp_slug(t2) + b);
    if tmp_dylib_path_spec(tmp_root, platform, lib_name, t1) == tmp_dylib_path_spec(
        tmp_root,
        platform,
        lib_name,
        t2,
    ) {
        lemma_mid_cancel(a, timestamp_slug(t1), timestamp_slug(t2), b);
        assert(false);
    }
}

} // verus!
