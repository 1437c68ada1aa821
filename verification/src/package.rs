//! The package under watch and the record of one completed build.
//!
//! `PackageInfo` is resolved once, at session start, and never mutated.
//! `Package` is a read-only view over it, handed out for every rebuild
//! signal. `Build` is an immutable record of one completed build: module
//! name, output directory, completion timestamp and the raw process output.
//! Builds may be cloned freely and several of them, for the same module at
//! different timestamps, may coexist and be loaded independently.

use vstd::prelude::*;
use crate::errors::BuildError;
use crate::naming::{Timestamp, timestamp_ok, tmp_dylib_path, tmp_dylib_path_spec};
use crate::platform::{Platform, dylib_ext, dylib_ext_spec, file_stem, file_stem_spec};
use crate::process::{ExitStatusUnsuccessfulError, ProcessOutput, lossy_utf8};
use vstd::string::StringExecFns;

verus! {

/// The information a watch session needs about its package: where its
/// manifest and watched sources are, what the module is called, where build
/// outputs land, and the host conventions used to name them.
#[derive(Debug, Clone)]
pub struct PackageInfo {
    pub manifest_path: String,
    pub src_path: String,
    pub lib_name: String,
    pub target_dir_path: String,
    pub platform: Platform,
    pub tmp_root: String,
}

/// The information required to build the package's dylib target: a read-only
/// view over the session's `PackageInfo`.
#[derive(Debug, Clone, Copy)]
pub struct Package<'a> {
    pub info: &'a PackageInfo,
}

/// The result of building the package's dynamic library. It can be loaded
/// either in place or via a uniquely named temporary copy, which allows
/// re-building the package while an older load is still in use.
#[derive(Debug, Clone)]
pub struct Build {
    pub lib_name: String,
    pub target_dir_path: String,
    pub platform: Platform,
    pub tmp_root: String,
    pub timestamp: Timestamp,
    pub output: ProcessOutput,
}

impl<'a> Package<'a> {
    /// The path to the package's build manifest.
    pub fn manifest_path(&self) -> (r: &str)
        ensures
            r@ == self.info.manifest_path@,
    {
        self.info.manifest_path.as_str()
    }

    /// The path to the source directory being watched.
    pub fn src_path(&self) -> (r: &str)
        ensures
            r@ == self.info.src_path@,
    {
        self.info.src_path.as_str()
    }

    /// Turn the outcome of one build-subprocess run into a `Build` record or
    /// a build failure. Succeeds exactly when the process exited
    /// successfully; an unsuccessful exit carries the exit code and the
    /// captured standard error text.
    pub fn finish_build(&self, output: ProcessOutput, timestamp: Timestamp) -> (r: Result<
        Build,
        BuildError,
    >)
        requires
            timestamp_ok(timestamp),
        ensures
            output.status_success ==> (r matches Ok(b) && b.lib_name@ == self.info.lib_name@
                && b.target_dir_path@ == self.info.target_dir_path@ && b.platform
                == self.info.platform && b.tmp_root@ == self.info.tmp_root@ && b.timestamp
                == timestamp && b.output == output),
            !output.status_success ==> (r matches Err(BuildError::ExitStatusUnsuccessful { err })
                && err.code == output.status_code && err.stderr@ == lossy_utf8(output.stderr@)),
    {
        if let Some(err) = ExitStatusUnsuccessfulError::from_output(&output) {
            return Err(BuildError::ExitStatusUnsuccessful { err });
        }
        Ok(
            Build {
                lib_name: self.info.lib_name.clone(),
                target_dir_path: self.info.target_dir_path.clone(),
                platform: self.info.platform,
                tmp_root: self.info.tmp_root.clone(),
                timestamp,
                output,
            },
        )
    }
}

/// The path of the artifact a release build leaves in the output directory.
pub open spec fn dylib_path_spec(b: Build) -> Seq<char> {
    b.target_dir_path@ + "/release/"@ + file_stem_spec(b.platform, b.lib_name@) + "."@
        + dylib_ext_spec(b.platform)
}

impl Build {
    /// The raw output of the build process.
    pub fn cargo_output(&self) -> (r: &ProcessOutput)
        ensures
            r == self.output,
    {
        &self.output
    }

    /// The moment at which the build was completed.
    pub fn timestamp(&self) -> (r: Timestamp)
        ensures
            r == self.timestamp,
    {
        self.timestamp
    }

    /// The path to the generated dylib target.
    pub fn dylib_path(&self) -> (r: String)
        ensures
            r@ == dylib_path_spec(*self),
    {
        let mut s = self.target_dir_path.clone();
        s.append("/release/");
        let stem = file_stem(self.platform, self.lib_name.as_str());
        s.append(stem.as_str());
        s.append(".");
        s.append(dylib_ext(self.platform));
        proof {
            assert(s@ =~= dylib_path_spec(*self));
        }
        s
    }

    /// The path to the temporary dynamic library clone that will be created
    /// upon load.
    pub fn tmp_dylib_path(&self) -> (r: String)
        requires
            timestamp_ok(self.timestamp),
        ensures
            r@ == tmp_dylib_path_spec(self.tmp_root@, self.platform, self.lib_name@,
            self.timestamp),
    {
        tmp_dylib_path(self.tmp_root.as_str(), self.platform, self.lib_name.as_str(),
        self.timestamp)
    }
}

} // verus!
