//! Watch a dynamic-library package for source changes, rebuild it, and load
//! each fresh build artifact through a uniquely named temporary copy so that
//! older loaded copies stay valid while a new one is mapped.

pub mod errors;
pub mod events;
pub mod loader;
pub mod metadata;
pub mod naming;
pub mod package;
pub mod platform;
pub mod process;
pub mod strutil;
pub mod watch;

pub use errors::{BuildError, CreateTempLibraryError, LoadError, NextError, WatchError};
pub use events::{RawChangeEvent, RawEventKind, check_raw_event, event_is_worthy};
pub use loader::{LoadPhase, LoadSession, TempLibrary, TempModule};
pub use package::{Build, Package, PackageInfo};
pub use naming::Timestamp;
pub use platform::{Platform, dylib_ext, file_stem};
pub use process::{ExitStatusUnsuccessfulError, ProcessOutput};
pub use watch::{Watch, WatchMsg};
