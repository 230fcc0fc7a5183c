//! Resolution of game-client version descriptors: walking an inheritance chain,
//! merging it, filtering libraries and arguments by platform rules, and
//! normalizing the historical shapes of library entries.

pub mod arguments;
pub mod chain;
pub mod coordinate;
pub mod entries;
pub mod library;
pub mod rules;
pub mod text;
pub mod version;

pub use arguments::{Arguments, LaunchArgument, ResolvedArguments};
pub use chain::{ChainAction, LoadOutcome, MissingField, ResolveError, ResolvedVersion, VersionChain};
pub use coordinate::LibraryInfo;
pub use library::{
    Extract, LegacyLibrary, Library, LibraryDownload, LibraryRecord, NativeLibrary, NormalLibrary,
    PlatformSpecificLibrary, ResolvedLibrary,
};
pub use rules::{Platform, PlatformInfo, Rule, RuleAction};
pub use version::{
    AssetIndex, AssetIndexObjectInfo, Download, JavaVersion, LatestVersion, Logging, LoggingFile,
    LoggingFileDownload, MergedVersion, Version, VersionInfo, VersionManifest,
};
