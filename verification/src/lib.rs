//! Build and run-time metadata for diagnostic output: the package version, a
//! source-control revision, the compiler version, the target triple, the build
//! profile, and a description of the operating system the process runs on,
//! gathered into a validated value with a canonical one-line rendering.

pub mod build_env;
pub mod cache;
pub mod os;
pub mod record;
pub mod snapshot;
pub mod version;

pub use build_env::{capture_build_constants, BuildConstants, MissingBuildValue};
pub use cache::RenderCache;
pub use os::OsDescriptor;
pub use record::InfoRecord;
pub use snapshot::{revision_or_unknown, Info, MalformedVersion, RawInfo, VersionField};
pub use version::Version;
