//! A plugin that lets a host build Go projects into WebAssembly with TinyGo.
//!
//! The plugin decides and never acts: it reads no file and starts no
//! process. The program that embeds it looks at the file system and runs the
//! commands, and hands the plugin what it found.

pub mod builder;
pub mod command;
pub mod error;
pub mod manifest;
pub mod path;
pub mod plugin;
pub mod project;
pub mod steps;
pub mod text;

pub use builder::GoBuilder;
pub use builder::GoPlugin;
pub use builder::GoPlugin as WasmGoPlugin;
pub use command::{CommandExecutor, CommandLine, CommandOutput, ProbeOutcome};
pub use error::{PluginError, PluginResult};
pub use manifest::{CargoPackage, CargoToml, ManifestError, PackageMetadata, WasmPluginCapabilities,
    WasmPluginConfig, WasmPluginDependencies};
pub use path::{PathKind, PathResolver};
pub use plugin::{BuildConfig, BuildResult, OptimizationLevel, Plugin, PluginCapabilities,
    PluginInfo, PluginSource, PluginType, TargetType, WasmBuilder};
pub use project::{DirectoryEntry, ProjectSnapshot};
pub use steps::{BuildAction, BuildEvent, BuildState, BuildStep};
