//! The temp-copy loading scheme and the scoped handle it yields.
//!
//! Loading a build means: compute the unique destination path, copy the
//! artifact there unless it already exists (so a repeated load of the same
//! build is idempotent and never re-copies), apply the platform's post-copy
//! fixup if one is required (its failure is non-fatal), and map the copy
//! into the process. `LoadSession` is the decision core of that algorithm:
//! the filesystem and loader primitives are driven outside it, and each of
//! their outcomes is handed back as an event. The copy step is retried only
//! a bounded number of times; a destination that never becomes observable
//! surfaces as a terminal error instead of looping forever.
//!
//! `TempModule` is the handle over one loaded copy. Its teardown must
//! release the loaded module strictly before the backing file is removed
//! (removing a file whose mapping is still active is undefined on some
//! platforms), each exactly once; the module slot is `present until taken`,
//! so a second teardown is naturally a no-op.

use vstd::prelude::*;
use crate::errors::LoadError;
use crate::naming::Timestamp;
use crate::platform::{Platform, fixup_required, needs_post_copy_fixup};

verus! {

/// How many times the copy step may run before the load fails terminally.
pub const COPY_ATTEMPT_LIMIT: u8 = 8;

/// Where one load stands, and what its driver must do next: check whether
/// the destination exists, create the directory and copy the artifact, run
/// the post-copy fixup, invoke the loader primitive, or stop.
#[derive(Debug, Clone, PartialEq, Eq)]
pub enum LoadPhase {
    /// Check whether the destination file exists.
    Checking { attempts_left: u8 },
    /// Create the destination directory and copy the artifact.
    Copying { attempts_left: u8 },
    /// Run the platform's post-copy fixup on the destination.
    FixingUp,
    /// Invoke the dynamic-loader primitive on the destination.
    ReadyToLoad,
    /// The load failed before the loader primitive could run.
    Failed(LoadError),
}

/// The decision core of one load of one build artifact.
#[derive(Debug, Clone, PartialEq, Eq)]
pub struct LoadSession {
    pub needs_fixup: bool,
    pub phase: LoadPhase,
}

/// What the destination-existence check decides. A destination already
/// present is treated as already copied: the load proceeds straight to
/// fixup (if the platform needs one) or to the loader. A missing
/// destination leads to a copy, unless the bounded attempts are spent,
/// which fails the load terminally.
pub open spec fn exists_step_spec(s: LoadSession, exists: bool) -> LoadSession {
    match s.phase {
        LoadPhase::Checking { attempts_left } => {
            let phase = if exists {
                if s.needs_fixup {
                    LoadPhase::FixingUp
                } else {
                    LoadPhase::ReadyToLoad
                }
            } else if attempts_left == 0 {
                LoadPhase::Failed(LoadError::CopyRetryLimit)
            } else {
                LoadPhase::Copying { attempts_left }
            };
            LoadSession { needs_fixup: s.needs_fixup, phase }
        },
        _ => s,
    }
}

impl LoadSession {
    /// Start a load for the given platform: the first step is to check the
    /// destination.
    pub fn new(platform: Platform) -> (s: LoadSession)
        ensures
            s.phase matches LoadPhase::Checking { attempts_left } && attempts_left
                == COPY_ATTEMPT_LIMIT,
            s.needs_fixup == fixup_required(platform),
    {
        LoadSession {
            needs_fixup: needs_post_copy_fixup(platform),
            phase: LoadPhase::Checking { attempts_left: COPY_ATTEMPT_LIMIT },
        }
    }

    /// Record the outcome of the destination-existence check; see
    /// `exists_step_spec` for what each outcome decides.
    pub fn on_exists_checked(&mut self, exists: bool)
        requires
            old(self).phase matches LoadPhase::Checking { .. },
        ensures
            *final(self) == exists_step_spec(*old(self), exists),
    {
        let attempts_left = match self.phase {
            LoadPhase::Checking { attempts_left } => attempts_left,
            _ => 0,
        };
        if exists {
            if self.needs_fixup {
                self.phase = LoadPhase::FixingUp;
            } else {
                self.phase = LoadPhase::ReadyToLoad;
            }
        } else if attempts_left == 0 {
            self.phase = LoadPhase::Failed(LoadError::CopyRetryLimit);
        } else {
            self.phase = LoadPhase::Copying { attempts_left };
        }
    }

    /// Record the outcome of the directory-creation-and-copy step: on
    /// success the destination is re-checked, with one fewer attempt left;
    /// an I/O failure fails the load with its message.
    pub fn on_copy_done(&mut self, error: Option<String>)
        requires
            old(self).phase matches LoadPhase::Copying { .. },
        ensures
            final(self).needs_fixup == old(self).needs_fixup,
            error matches Some(m) ==> (final(self).phase matches LoadPhase::Failed(
                LoadError::Io { message },
            ) && message@ == m@),
            error is None ==> (match old(self).phase {
                LoadPhase::Copying { attempts_left } => final(self).phase
                    matches LoadPhase::Checking { attempts_left: a } && a == (if attempts_left > 0 {
                    (attempts_left - 1) as u8
                } else {
                    0u8
                }),
                _ => true,
            }),
    {
        let attempts_left = match self.phase {
            LoadPhase::Copying { attempts_left } => attempts_left,
            _ => 0,
        };
        match error {
            Some(message) => {
                self.phase = LoadPhase::Failed(LoadError::Io { message });
            },
            None => {
                let a = if attempts_left > 0 {
                    attempts_left - 1
                } else {
                    0
                };
                self.phase = LoadPhase::Checking { attempts_left: a };
            },
        }
    }

    /// Record the outcome of the post-copy fixup. The fixup is an
    /// optimization for reload reliability, not a precondition of mapping:
    /// its failure is non-fatal and the load proceeds to the loader either
    /// way.
    pub fn on_fixup_done(&mut self, success: bool)
        requires
            old(self).phase matches LoadPhase::FixingUp,
        ensures
            final(self).needs_fixup == old(self).needs_fixup,
            final(self).phase matches LoadPhase::ReadyToLoad,
    {
        let _ = success;
        self.phase = LoadPhase::ReadyToLoad;
    }
}

/// Idempotence law: the destination path is a function of the module name
/// and the build timestamp alone, so a repeated load of the same build
/// checks the very path its first load created — and a load whose
/// destination is already present neither copies nor fails: it heads
/// straight for the fixup or the loader primitive.
pub proof fn lemma_existing_destination_skips_copy(s: LoadSession)
    requires
        s.phase matches LoadPhase::Checking { .. },
    ensures
        !(exists_step_spec(s, true).phase matches LoadPhase::Copying { .. }),
        !(exists_step_spec(s, true).phase matches LoadPhase::Failed(_)),
{
}

/// What a teardown step asks its driver to do: release the loaded module
/// value, or best-effort delete the backing file.
#[derive(Clone, Copy, Debug, PartialEq, Eq, Structural)]
pub enum TeardownAction {
    ReleaseModule,
    DeleteFile,
}

/// The teardown-relevant state of a handle: whether the module slot is still
/// occupied, and whether the backing file has been released for deletion.
#[derive(Clone, Copy, Debug, PartialEq, Eq, Structural)]
pub struct TeardownState {
    pub loaded: bool,
    pub file_released: bool,
}

/// One teardown step: take the module out of its slot first; only once the
/// slot is empty, release the file; afterwards, nothing.
pub open spec fn teardown_step_spec(s: TeardownState) -> (TeardownState, Option<TeardownAction>) {
    if s.loaded {
        (TeardownState { loaded: false, file_released: s.file_released }, Some(
            TeardownAction::ReleaseModule,
        ))
    } else if !s.file_released {
        (TeardownState { loaded: false, file_released: true }, Some(TeardownAction::DeleteFile))
    } else {
        (s, None)
    }
}

/// A handle over one loaded temporary copy, generic in the loaded-module
/// value `M` so that teardown can be exercised against a recording double.
/// The module slot is occupied from construction until teardown begins; the
/// backing file exists and stays loadable for the handle's whole lifetime.
#[derive(Debug)]
pub struct TempModule<M> {
    pub build_timestamp: Timestamp,
    pub path: String,
    pub lib: Option<M>,
    pub file_released: bool,
}

/// The teardown-relevant state of a handle.
pub open spec fn teardown_view<M>(h: TempModule<M>) -> TeardownState {
    TeardownState { loaded: h.lib is Some, file_released: h.file_released }
}

/// A wrapper around a loaded dynamic-library value that cleans up the
/// library, and then its backing file, when its scope ends.
pub type TempLibrary = TempModule<libloading::Library>;

#[verifier::external_type_specification]
#[verifier::external_body]
pub struct ExLibrary(libloading::Library);

impl<M> TempModule<M> {
    /// Wrap a freshly loaded module value: slot occupied, file present.
    pub fn from_parts(build_timestamp: Timestamp, path: String, lib: M) -> (h: TempModule<M>)
        ensures
            h.build_timestamp == build_timestamp,
            h.path@ == path@,
            h.lib matches Some(l) && l == lib,
            !h.file_released,
    {
        TempModule { build_timestamp, path, lib: Some(lib), file_released: false }
    }

    /// The inner loaded-module value.
    pub fn lib(&self) -> (r: &M)
        requires
            self.lib is Some,
        ensures
            self.lib matches Some(l) && r == l,
    {
        self.lib.as_ref().unwrap()
    }

    /// Whether the module slot is still occupied.
    pub fn is_loaded(&self) -> (r: bool)
        ensures
            r == (self.lib is Some),
    {
        self.lib.is_some()
    }

    /// The time at which the original library was built.
    pub fn build_timestamp(&self) -> (r: Timestamp)
        ensures
            r == self.build_timestamp,
    {
        self.build_timestamp
    }

    /// The path at which the loaded temporary library is located.
    pub fn path(&self) -> (r: &str)
        ensures
            r@ == self.path@,
    {
        self.path.as_str()
    }

    /// Run one teardown step, and say what the driver must now do. The first
    /// step on a live handle takes the module value out of its slot and
    /// drops it, unloading the module while the backing file still exists;
    /// the next step releases the file for best-effort deletion; every step
    /// after that does nothing, so teardown cannot run twice.
    pub fn release_step(&mut self) -> (r: Option<TeardownAction>)
        ensures
            final(self).build_timestamp == old(self).build_timestamp,
            final(self).path@ == old(self).path@,
            (teardown_view(*final(self)), r) == teardown_step_spec(teardown_view(*old(self))),
    {
        if self.lib.is_some() {
            // Dropping the taken value unloads the module; the backing file
            // is untouched until a later step asks for its deletion.
            let _taken = self.lib.take();
            Some(TeardownAction::ReleaseModule)
        } else if !self.file_released {
            self.file_released = true;
            Some(TeardownAction::DeleteFile)
        } else {
            None
        }
    }
}

/// Teardown-ordering law: from a live handle, the first step releases the
/// module while the file is still present, the second releases the file, and
/// every further step does nothing — unload strictly before unlink, each
/// exactly once.
pub proof fn lemma_teardown_order(s0: TeardownState)
    requires
        s0.loaded,
        !s0.file_released,
    ensures
        ({
            let (s1, a1) = teardown_step_spec(s0);
            let (s2, a2) = teardown_step_spec(s1);
            let (s3, a3) = teardown_step_spec(s2);
            a1 == Some(TeardownAction::ReleaseModule) && !s1.file_released && a2 == Some(
                TeardownAction::DeleteFile,
            ) && a3 == None::<TeardownAction> && s3 == s2
        }),
{
}

/// Double-teardown safety law: once the module slot is empty and the file
/// released, a teardown step changes nothing and asks for nothing — in
/// particular, never a second file deletion.
pub proof fn lemma_teardown_idempotent(s: TeardownState)
    requires
        !s.loaded,
        s.file_released,
    ensures
        teardown_step_spec(s) == (s, None::<TeardownAction>),
{
}

} // verus!
