//! What a plugin says about itself, and the two interfaces that a host uses:
//! `Plugin` to ask whether a project is its business, `WasmBuilder` to have
//! the project built.

use crate::steps::{progress, BuildActionView, BuildEvent, BuildState, BuildStep};
use crate::error::PluginResult;
use crate::project::ProjectSnapshot;
use crate::text::{copy_list, copy_optional};
use vstd::prelude::*;

verus! {

/// Where a plugin comes from.
#[derive(Debug)]
pub enum PluginSource {
    CratesIo { name: String, version: String },
    Git { url: String, branch: Option<String> },
    Local { path: String },
}

/// A `PluginSource` with its texts as sequences of characters.
pub enum PluginSourceView {
    CratesIo { name: Seq<char>, version: Seq<char> },
    Git { url: Seq<char>, branch: Option<Seq<char>> },
    Local { path: Seq<char> },
}

impl View for PluginSource {
    type V = PluginSourceView;

    open spec fn view(&self) -> PluginSourceView {
        match self {
            PluginSource::CratesIo { name, version } => PluginSourceView::CratesIo {
                name: name@,
                version: version@,
            },
            PluginSource::Git { url, branch } => PluginSourceView::Git {
                url: url@,
                branch: branch.deep_view(),
            },
            PluginSource::Local { path } => PluginSourceView::Local { path: path@ },
        }
    }
}

impl Clone for PluginSource {
    fn clone(&self) -> (copy: Self)
        ensures
            copy@ == self@,
    {
        match self {
            PluginSource::CratesIo { name, version } => PluginSource::CratesIo {
                name: name.clone(),
                version: version.clone(),
            },
            PluginSource::Git { url, branch } => PluginSource::Git {
                url: url.clone(),
                branch: copy_optional(branch),
            },
            PluginSource::Local { path } => PluginSource::Local { path: path.clone() },
        }
    }
}

/// How a plugin is delivered to the host.
#[derive(Debug, Clone, Copy, PartialEq, Eq, Structural)]
pub enum PluginType {
    Builtin,
    External,
    Registry,
}

/// What a plugin can do.
#[derive(Debug)]
pub struct PluginCapabilities {
    pub compile_wasm: bool,
    pub compile_webapp: bool,
    pub live_reload: bool,
    pub optimization: bool,
    pub custom_targets: Vec<String>,
}

/// `PluginCapabilities` with its texts as sequences of characters.
pub struct PluginCapabilitiesView {
    pub compile_wasm: bool,
    pub compile_webapp: bool,
    pub live_reload: bool,
    pub optimization: bool,
    pub custom_targets: Seq<Seq<char>>,
}

impl View for PluginCapabilities {
    type V = PluginCapabilitiesView;

    open spec fn view(&self) -> PluginCapabilitiesView {
        PluginCapabilitiesView {
            compile_wasm: self.compile_wasm,
            compile_webapp: self.compile_webapp,
            live_reload: self.live_reload,
            optimization: self.optimization,
            custom_targets: self.custom_targets.deep_view(),
        }
    }
}

impl Default for PluginCapabilities {
    /// A plugin that compiles to WebAssembly and does nothing else.
    fn default() -> (capabilities: Self)
        ensures
            capabilities@ == (PluginCapabilitiesView {
                compile_wasm: true,
                compile_webapp: false,
                live_reload: false,
                optimization: false,
                custom_targets: Seq::<Seq<char>>::empty(),
            }),
    {
        let capabilities = PluginCapabilities {
            compile_wasm: true,
            compile_webapp: false,
            live_reload: false,
            optimization: false,
            custom_targets: Vec::new(),
        };
        assert(capabilities.custom_targets.deep_view() =~= Seq::<Seq<char>>::empty());
        capabilities
    }
}

impl Clone for PluginCapabilities {
    fn clone(&self) -> (copy: Self)
        ensures
            copy@ == self@,
    {
        PluginCapabilities {
            compile_wasm: self.compile_wasm,
            compile_webapp: self.compile_webapp,
            live_reload: self.live_reload,
            optimization: self.optimization,
            custom_targets: copy_list(&self.custom_targets),
        }
    }
}

/// The description of a plugin: filled once, from its manifest, and never
/// changed afterwards.
#[derive(Debug)]
pub struct PluginInfo {
    pub name: String,
    pub version: String,
    pub description: String,
    pub author: String,
    pub extensions: Vec<String>,
    pub entry_files: Vec<String>,
    pub plugin_type: PluginType,
    pub source: Option<PluginSource>,
    pub dependencies: Vec<String>,
    pub capabilities: PluginCapabilities,
}

/// `PluginInfo` with its texts as sequences of characters.
pub struct PluginInfoView {
    pub name: Seq<char>,
    pub version: Seq<char>,
    pub description: Seq<char>,
    pub author: Seq<char>,
    pub extensions: Seq<Seq<char>>,
    pub entry_files: Seq<Seq<char>>,
    pub plugin_type: PluginType,
    pub source: Option<PluginSourceView>,
    pub dependencies: Seq<Seq<char>>,
    pub capabilities: PluginCapabilitiesView,
}

impl View for PluginInfo {
    type V = PluginInfoView;

    open spec fn view(&self) -> PluginInfoView {
        PluginInfoView {
            name: self.name@,
            version: self.version@,
            description: self.description@,
            author: self.author@,
            extensions: self.extensions.deep_view(),
            entry_files: self.entry_files.deep_view(),
            plugin_type: self.plugin_type,
            source: match self.source {
                Some(source) => Some(source@),
                None => None,
            },
            dependencies: self.dependencies.deep_view(),
            capabilities: self.capabilities@,
        }
    }
}

impl Clone for PluginInfo {
    fn clone(&self) -> (copy: Self)
        ensures
            copy@ == self@,
    {
        PluginInfo {
            name: self.name.clone(),
            version: self.version.clone(),
            description: self.description.clone(),
            author: self.author.clone(),
            extensions: copy_list(&self.extensions),
            entry_files: copy_list(&self.entry_files),
            plugin_type: self.plugin_type,
            source: match &self.source {
                Some(source) => Some(source.clone()),
                None => None,
            },
            dependencies: copy_list(&self.dependencies),
            capabilities: self.capabilities.clone(),
        }
    }
}

/// How hard the compiler is asked to optimise.
#[derive(Debug, Clone, Copy, PartialEq, Eq, Structural)]
pub enum OptimizationLevel {
    Debug,
    Release,
    Size,
}

/// What kind of artifact is asked for.
#[derive(Debug, Clone, Copy, PartialEq, Eq, Structural)]
pub enum TargetType {
    Standard,
    Web,
}

/// The parameters of one build: made by the caller, only read by the builder.
#[derive(Debug)]
pub struct BuildConfig {
    pub project_path: String,
    pub output_directory: String,
    pub verbose: bool,
    pub optimization_level: OptimizationLevel,
    pub target_type: TargetType,
}

/// `BuildConfig` with its texts as sequences of characters.
pub struct BuildConfigView {
    pub project_path: Seq<char>,
    pub output_directory: Seq<char>,
    pub verbose: bool,
    pub optimization_level: OptimizationLevel,
    pub target_type: TargetType,
}

impl View for BuildConfig {
    type V = BuildConfigView;

    open spec fn view(&self) -> BuildConfigView {
        BuildConfigView {
            project_path: self.project_path@,
            output_directory: self.output_directory@,
            verbose: self.verbose,
            optimization_level: self.optimization_level,
            target_type: self.target_type,
        }
    }
}

impl Clone for BuildConfig {
    fn clone(&self) -> (copy: Self)
        ensures
            copy@ == self@,
    {
        BuildConfig {
            project_path: self.project_path.clone(),
            output_directory: self.output_directory.clone(),
            verbose: self.verbose,
            optimization_level: self.optimization_level,
            target_type: self.target_type,
        }
    }
}

/// What a successful build leaves behind.
#[derive(Debug)]
pub struct BuildResult {
    pub wasm_file_path: String,
    pub js_file_path: Option<String>,
    pub additional_files: Vec<String>,
    pub is_wasm_bindgen: bool,
}

/// `BuildResult` with its texts as sequences of characters.
pub struct BuildResultView {
    pub wasm_file_path: Seq<char>,
    pub js_file_path: Option<Seq<char>>,
    pub additional_files: Seq<Seq<char>>,
    pub is_wasm_bindgen: bool,
}

impl View for BuildResult {
    type V = BuildResultView;

    open spec fn view(&self) -> BuildResultView {
        BuildResultView {
            wasm_file_path: self.wasm_file_path@,
            js_file_path: self.js_file_path.deep_view(),
            additional_files: self.additional_files.deep_view(),
            is_wasm_bindgen: self.is_wasm_bindgen,
        }
    }
}

impl Clone for BuildResult {
    fn clone(&self) -> (copy: Self)
        ensures
            copy@ == self@,
    {
        BuildResult {
            wasm_file_path: self.wasm_file_path.clone(),
            js_file_path: copy_optional(&self.js_file_path),
            additional_files: copy_list(&self.additional_files),
            is_wasm_bindgen: self.is_wasm_bindgen,
        }
    }
}

/// A plugin as the host sees it.
pub trait Plugin: Send + Sync {
    /// The builder that this plugin hands out.
    type Builder: WasmBuilder;

    /// The description of the plugin.
    fn info(&self) -> &PluginInfo;

    /// Whether the project that `snapshot` was taken of is one for this
    /// plugin.
    fn can_handle_project(&self, project_path: &str, snapshot: &ProjectSnapshot) -> bool;

    /// A builder for the projects that this plugin handles.
    fn get_builder(&self) -> Self::Builder;
}

/// A builder of WebAssembly artifacts for one source language.
pub trait WasmBuilder: Send + Sync {
    /// The name of the source language.
    fn language_name(&self) -> &str;

    /// The entry files that the builder looks for by default.
    fn entry_file_candidates(&self) -> &[&str];

    /// The file extensions of the source language.
    fn supported_extensions(&self) -> &[&str];

    /// The required tools that are not among `installed_tools`, each with a
    /// hint on how to get it.
    fn check_dependencies(&self, installed_tools: &Vec<String>) -> Vec<String>;

    /// Whether the project that `snapshot` was taken of can be built.
    fn validate_project(&self, project_path: &str, snapshot: &ProjectSnapshot) -> PluginResult<()>;

    /// One step of a build: takes what the embedding program has just
    /// observed and says what it has to do next. A step that asks for
    /// something moves the build forward; a step that asks for nothing leaves
    /// it where it stands. So a program that does what it is asked, step by
    /// step, comes to an end.
    fn build(&self, config: &BuildConfig, state: BuildState, event: BuildEvent) -> (step: BuildStep)
        ensures
            step@.action == BuildActionView::Nothing ==> step@.state == state@,
            step@.action != BuildActionView::Nothing ==> progress(step@.state) > progress(state@),
    ;
}

} // verus!
