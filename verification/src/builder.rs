//! The Go plugin: it is described by its manifest, recognises Go projects,
//! finds the file that a build starts from, names the tools that are missing,
//! and leads a build with TinyGo step by step.

use crate::command::{CommandExecutor, CommandLine, CommandOutput, ProbeOutcome};
use crate::error::{PluginError, PluginErrorView, PluginResult};
use crate::manifest::{plugin_info_of, CargoToml, ManifestError};
use crate::path::{joined, PathKind, PathResolver};
use crate::plugin::{BuildConfig, BuildResult, Plugin, PluginCapabilities, PluginInfo,
    PluginInfoView, PluginSource, PluginType, WasmBuilder};
use crate::project::{entry_file_of, first_existing, first_source_file, is_project, is_supported,
    is_supported_file, marker_path, paths_to_probe, DirectoryEntry, ProjectSnapshot,
    ProjectSnapshotView};
use crate::steps::{after_artifact_check, after_compiler, after_output_directory, after_probe,
    after_scan, failed_exit_reason, finish, lemma_build_never_goes_back, next_step, BuildAction,
    BuildEvent, BuildState, BuildStep};
use crate::text::{copy_list, list_contains, lossy_text, lowercase, push_text, same_text};
use vstd::prelude::*;
use vstd::string::*;

verus! {

/// What is said of a required tool that is missing: for the two tools of the
/// Go toolchain a hint follows the name, any other tool stands by its name.
pub open spec fn install_hint_of(tool: Seq<char>) -> Seq<char> {
    if tool == "tinygo"@ {
        tool + " (install from https://tinygo.org)"@
    } else if tool == "go"@ {
        tool + " (Go compiler)"@
    } else {
        tool
    }
}

/// The hints for those of `dependencies` that are not among `installed`, in
/// the order of `dependencies`.
pub open spec fn missing_hints(dependencies: Seq<Seq<char>>, installed: Seq<Seq<char>>) -> Seq<
    Seq<char>,
> {
    dependencies.filter(|tool: Seq<char>| !installed.contains(tool)).map_values(
        |tool: Seq<char>| install_hint_of(tool),
    )
}

/// What the check of a project comes to: the directory must be there and be
/// a directory, and an entry file must be found in it.
pub open spec fn validation_of(
    entry_files: Seq<Seq<char>>,
    directory: Seq<char>,
    snapshot: ProjectSnapshotView,
) -> Result<(), PluginErrorView> {
    match snapshot.kind {
        PathKind::Missing => Err(
            PluginErrorView::InvalidProjectStructure {
                reason: "Directory does not exist: "@ + directory,
            },
        ),
        PathKind::File => Err(
            PluginErrorView::InvalidProjectStructure {
                reason: "Path is not a directory: "@ + directory,
            },
        ),
        PathKind::Directory => match entry_file_of(directory, entry_files, snapshot) {
            Some(_) => Ok(()),
            None => Err(PluginErrorView::MissingEntryFile { candidates: entry_files }),
        },
    }
}

/// The plugin that builds Go projects with TinyGo.
pub struct GoPlugin {
    plugin_info: PluginInfo,
}

/// The builder of the Go plugin is the plugin itself.
pub type GoBuilder = GoPlugin;

impl View for GoPlugin {
    type V = PluginInfoView;

    closed spec fn view(&self) -> PluginInfoView {
        self.plugin_info@
    }
}

impl GoPlugin {
    /// The plugin that `cargo_config` describes. The manifest must hold the
    /// section `wasm-plugin`.
    pub fn new(cargo_config: CargoToml) -> (plugin: Self)
        requires
            cargo_config@.wasm_plugin is Some,
        ensures
            plugin@ == plugin_info_of(cargo_config@),
    {
        GoPlugin { plugin_info: Self::create_plugin_info(cargo_config) }
    }

    /// The plugin that `cargo_config` describes, or the reason why it
    /// describes none.
    pub fn from_manifest(cargo_config: CargoToml) -> (plugin: Result<Self, ManifestError>)
        ensures
            match plugin {
                Ok(plugin) => cargo_config@.wasm_plugin is Some && plugin@ == plugin_info_of(
                    cargo_config@,
                ),
                Err(error) => cargo_config@.wasm_plugin is None && error
                    == ManifestError::MissingPluginSection,
            },
    {
        match Self::load_plugin_info(cargo_config) {
            Ok(plugin_info) => Ok(GoPlugin { plugin_info }),
            Err(error) => Err(error),
        }
    }

    /// The description of the plugin that `cargo_config` stands for, or the
    /// reason why it stands for none.
    pub fn load_plugin_info(cargo_config: CargoToml) -> (info: Result<PluginInfo, ManifestError>)
        ensures
            match info {
                Ok(info) => cargo_config@.wasm_plugin is Some && info@ == plugin_info_of(
                    cargo_config@,
                ),
                Err(error) => cargo_config@.wasm_plugin is None && error
                    == ManifestError::MissingPluginSection,
            },
    {
        if cargo_config.package.metadata.is_some() {
            Ok(Self::create_plugin_info(cargo_config))
        } else {
            Err(ManifestError::MissingPluginSection)
        }
    }

    /// The description of the plugin that `cargo_config` stands for. The
    /// manifest must hold the section `wasm-plugin`.
    pub fn create_plugin_info(cargo_config: CargoToml) -> (info: PluginInfo)
        requires
            cargo_config@.wasm_plugin is Some,
        ensures
            info@ == plugin_info_of(cargo_config@),
    {
        let package = cargo_config.package;
        let wasm_plugin = package.metadata.unwrap().wasm_plugin;
        let author = if package.authors.len() > 0 {
            package.authors[0].clone()
        } else {
            String::from_str("Unknown")
        };
        let source = Some(
            PluginSource::CratesIo { name: package.name, version: package.version.clone() },
        );
        PluginInfo {
            name: wasm_plugin.name,
            version: package.version,
            description: package.description,
            author,
            extensions: wasm_plugin.extensions,
            entry_files: wasm_plugin.entry_files,
            plugin_type: PluginType::External,
            source,
            dependencies: wasm_plugin.dependencies.tools,
            capabilities: PluginCapabilities {
                compile_wasm: wasm_plugin.capabilities.compile_wasm,
                compile_webapp: wasm_plugin.capabilities.compile_webapp,
                live_reload: wasm_plugin.capabilities.live_reload,
                optimization: wasm_plugin.capabilities.optimization,
                custom_targets: wasm_plugin.capabilities.custom_targets,
            },
        }
    }

    /// The paths that the embedding program is to look up before it takes a
    /// snapshot of `project_directory`.
    pub fn probe_paths(&self, project_directory: &str) -> (paths: Vec<String>)
        ensures
            paths.deep_view() == paths_to_probe(project_directory@, self@.entry_files),
    {
        let mut paths: Vec<String> = Vec::new();
        push_text(&mut paths, PathResolver::join_paths(project_directory, "go.mod"));
        let candidates = &self.plugin_info.entry_files;
        let mut i: usize = 0;
        while i < candidates.len()
            invariant
                i <= candidates.len(),
                paths.deep_view() =~= seq![marker_path(project_directory@)] + Seq::new(
                    i as nat,
                    |k: int| joined(project_directory@, candidates.deep_view()[k]),
                ),
            decreases candidates.len() - i,
        {
            push_text(&mut paths, PathResolver::join_paths(project_directory, candidates[i].as_str()));
            i += 1;
        }
        paths
    }

    /// Whether `lowered`, an extension in lowercase, is one that the plugin
    /// declares.
    pub fn supports_extension(&self, lowered: &str) -> (supported: bool)
        ensures
            supported == self@.extensions.contains(lowered@),
    {
        list_contains(&self.plugin_info.extensions, lowered)
    }

    /// Whether `path` has an extension that, in lowercase, is one that the
    /// plugin declares. Whether a regular file stands at `path` is not asked.
    pub fn handles_file(&self, path: &str) -> (handled: bool)
        ensures
            handled == is_supported(self@.extensions, path@),
    {
        match PathResolver::extension(path) {
            Some(extension) => {
                let extension_lowercase = lowercase(extension.as_str());
                self.supports_extension(extension_lowercase.as_str())
            },
            None => false,
        }
    }

    /// Whether `entry` is a regular file with an extension that, in lowercase,
    /// is one that the plugin declares.
    pub fn handles_entry(&self, entry: &DirectoryEntry) -> (handled: bool)
        ensures
            handled == is_supported_file(self@.extensions, entry@),
    {
        entry.is_file && self.handles_file(entry.path.as_str())
    }

    /// The file that a build of the project starts from: the first declared
    /// entry file that is there, or else the first regular file with the
    /// extension `go` in the listing of the directory. Where there is neither, the error names the
    /// declared entry files as they were declared.
    pub fn find_entry_file(&self, project_directory: &str, snapshot: &ProjectSnapshot) -> (entry:
        PluginResult<String>)
        ensures
            match entry {
                Ok(path) => entry_file_of(project_directory@, self@.entry_files, snapshot@)
                    == Some(path@),
                Err(error) => entry_file_of(project_directory@, self@.entry_files, snapshot@)
                    is None && error@ == (PluginErrorView::MissingEntryFile {
                    candidates: self@.entry_files,
                }),
            },
    {
        let candidates = &self.plugin_info.entry_files;
        let mut i: usize = 0;
        assert(candidates.deep_view().subrange(0, candidates.len() as int)
            =~= candidates.deep_view());
        while i < candidates.len()
            invariant
                i <= candidates.len(),
                candidates.deep_view() == self@.entry_files,
                first_existing(project_directory@, candidates.deep_view(), snapshot@.existing)
                    == first_existing(
                    project_directory@,
                    candidates.deep_view().subrange(i as int, candidates.len() as int),
                    snapshot@.existing,
                ),
            decreases candidates.len() - i,
        {
            let path = PathResolver::join_paths(project_directory, candidates[i].as_str());
            assert(candidates.deep_view().subrange(i as int, candidates.len() as int).drop_first()
                =~= candidates.deep_view().subrange(i + 1, candidates.len() as int));
            if list_contains(&snapshot.existing, path.as_str()) {
                return Ok(path);
            }
            i += 1;
        }
        if let Some(entries) = &snapshot.entries {
            let mut k: usize = 0;
            assert(entries.deep_view().subrange(0, entries.len() as int) =~= entries.deep_view());
            while k < entries.len()
                invariant
                    k <= entries.len(),
                    snapshot@.entries == Some(entries.deep_view()),
                    first_existing(project_directory@, self@.entry_files, snapshot@.existing)
                        is None,
                    first_source_file(entries.deep_view()) == first_source_file(
                        entries.deep_view().subrange(k as int, entries.len() as int),
                    ),
                decreases entries.len() - k,
            {
                assert(entries.deep_view().subrange(k as int, entries.len() as int).drop_first()
                    =~= entries.deep_view().subrange(k + 1, entries.len() as int));
                if entries[k].is_file {
                    if let Some(extension) = PathResolver::extension(entries[k].path.as_str()) {
                        if same_text(extension.as_str(), "go") {
                            return Ok(entries[k].path.clone());
                        }
                    }
                }
                k += 1;
            }
        }
        Err(PluginError::MissingEntryFile { candidates: copy_list(candidates) })
    }

    /// The hint that is given for a required tool that is missing.
    pub fn install_hint(tool: &str) -> (hint: String)
        ensures
            hint@ == install_hint_of(tool@),
    {
        if same_text(tool, "tinygo") {
            String::from_str(tool).concat(" (install from https://tinygo.org)")
        } else if same_text(tool, "go") {
            String::from_str(tool).concat(" (Go compiler)")
        } else {
            String::from_str(tool)
        }
    }

    /// The failure that is reported where the compiler exits with a failure,
    /// from the text that it wrote to its standard error.
    pub fn compilation_failure(stderr_text: &str) -> (error: PluginError)
        ensures
            error@ == (PluginErrorView::CompilationFailed {
                reason: failed_exit_reason(stderr_text@),
            }),
    {
        PluginError::CompilationFailed {
            reason: String::from_str("Build failed: ").concat(stderr_text),
        }
    }

    /// The step that ends a build with a failure.
    fn fail(error: PluginError) -> (step: BuildStep)
        ensures
            step@ == finish(Err(error@)),
    {
        BuildStep { state: BuildState::Finished, action: BuildAction::Finish(Err(error)) }
    }

    /// The step after the compiler was probed.
    fn step_after_probe(&self, config: &BuildConfig, outcome: ProbeOutcome) -> (step: BuildStep)
        ensures
            step@ == after_probe(self@.entry_files, config@, outcome),
    {
        if CommandExecutor::is_tool_installed(outcome) {
            BuildStep {
                state: BuildState::AwaitingScan,
                action: BuildAction::ScanProject {
                    directory: config.project_path.clone(),
                    paths: self.probe_paths(config.project_path.as_str()),
                },
            }
        } else {
            Self::fail(PluginError::BuildToolNotFound { tool: String::from_str("tinygo") })
        }
    }

    /// The step after the project directory was looked at.
    fn step_after_scan(&self, config: &BuildConfig, snapshot: &ProjectSnapshot) -> (step: BuildStep)
        ensures
            step@ == after_scan(self@.entry_files, config@, snapshot@),
    {
        match self.find_entry_file(config.project_path.as_str(), snapshot) {
            Ok(entry_file) => BuildStep {
                state: BuildState::AwaitingOutputDirectory { entry_file },
                action: BuildAction::CreateOutputDirectory { path: config.output_directory.clone() },
            },
            Err(error) => Self::fail(error),
        }
    }

    /// The step after the output directory was asked for.
    fn step_after_output_directory(config: &BuildConfig, entry_file: String, created: bool) -> (step:
        BuildStep)
        ensures
            step@ == after_output_directory(config@, entry_file@, created),
    {
        match PathResolver::ensure_output_directory_exists(config.output_directory.as_str(), created) {
            Err(error) => Self::fail(error),
            Ok(()) => match PathResolver::file_stem(entry_file.as_str()) {
                None => Self::fail(
                    PluginError::InvalidProjectStructure {
                        reason: String::from_str("Entry file has no file name: ").concat(
                            entry_file.as_str(),
                        ),
                    },
                ),
                Some(stem) => {
                    let output_filename = stem.concat(".wasm");
                    let output_path = PathResolver::join_paths(
                        config.output_directory.as_str(),
                        output_filename.as_str(),
                    );
                    let mut arguments: Vec<String> = Vec::new();
                    push_text(&mut arguments, String::from_str("build"));
                    push_text(&mut arguments, String::from_str("-o"));
                    push_text(&mut arguments, output_path.clone());
                    push_text(&mut arguments, String::from_str("-target=wasm"));
                    push_text(&mut arguments, String::from_str("."));
                    assert(arguments.deep_view() =~= seq![
                        "build"@,
                        "-o"@,
                        output_path@,
                        "-target=wasm"@,
                        "."@,
                    ]);
                    BuildStep {
                        state: BuildState::AwaitingCompiler { output_path },
                        action: BuildAction::RunCompiler {
                            notice: String::from_str("🔨 Building with TinyGo..."),
                            command: CommandLine {
                                program: String::from_str("tinygo"),
                                arguments,
                                working_directory: config.project_path.clone(),
                                verbose: config.verbose,
                            },
                        },
                    }
                },
            },
        }
    }

    /// The step after the compiler was run.
    fn step_after_compiler(output_path: String, result: Result<CommandOutput, std::io::Error>) -> (step:
        BuildStep)
        ensures
            step@ == after_compiler(
                output_path@,
                match result {
                    Ok(output) => Ok(output@),
                    Err(error) => Err(error),
                },
            ),
    {
        match result {
            Err(error) => Self::fail(PluginError::Io(error)),
            Ok(output) => {
                if output.success {
                    BuildStep {
                        action: BuildAction::CheckArtifact { path: output_path.clone() },
                        state: BuildState::AwaitingArtifact { output_path },
                    }
                } else {
                    let stderr_text = lossy_text(&output.stderr);
                    Self::fail(Self::compilation_failure(stderr_text.as_str()))
                }
            },
        }
    }

    /// The step after the artifact was looked up.
    fn step_after_artifact_check(output_path: String, exists: bool) -> (step: BuildStep)
        ensures
            step@ == after_artifact_check(output_path@, exists),
    {
        if exists {
            let built = BuildResult {
                wasm_file_path: output_path,
                js_file_path: None,
                additional_files: Vec::new(),
                is_wasm_bindgen: false,
            };
            assert(built.additional_files.deep_view() =~= Seq::<Seq<char>>::empty());
            BuildStep { state: BuildState::Finished, action: BuildAction::Finish(Ok(built)) }
        } else {
            Self::fail(
                PluginError::CompilationFailed {
                    reason: String::from_str("TinyGo build completed but WASM file was not created"),
                },
            )
        }
    }
}

impl Plugin for GoPlugin {
    type Builder = GoPlugin;

    fn info(&self) -> (info: &PluginInfo)
        ensures
            info@ == self@,
    {
        &self.plugin_info
    }

    /// A directory is a Go project where it holds the module file `go.mod`,
    /// whatever else it holds, or else where its listing holds a regular file
    /// whose extension, in lowercase, is one that the plugin declares. An
    /// entry that is no regular file never counts.
    fn can_handle_project(&self, project_path: &str, snapshot: &ProjectSnapshot) -> (handled: bool)
        ensures
            handled == is_project(self@.extensions, project_path@, snapshot@),
            snapshot@.existing.contains(marker_path(project_path@)) ==> handled,
    {
        let go_module_path = PathResolver::join_paths(project_path, "go.mod");
        if list_contains(&snapshot.existing, go_module_path.as_str()) {
            return true;
        }
        if let Some(entries) = &snapshot.entries {
            let mut i: usize = 0;
            while i < entries.len()
                invariant
                    i <= entries.len(),
                    snapshot@.entries == Some(entries.deep_view()),
                    forall|k: int|
                        0 <= k < i ==> !is_supported_file(
                            self@.extensions,
                            #[trigger] entries.deep_view()[k],
                        ),
                decreases entries.len() - i,
            {
                if self.handles_entry(&entries[i]) {
                    assert(is_supported_file(self@.extensions, entries.deep_view()[i as int]));
                    return true;
                }
                i += 1;
            }
        }
        false
    }

    fn get_builder(&self) -> (builder: GoPlugin)
        ensures
            builder@ == self@,
    {
        GoPlugin { plugin_info: self.plugin_info.clone() }
    }
}

impl WasmBuilder for GoPlugin {
    fn language_name(&self) -> (name: &str)
        ensures
            name@ == "Go"@,
    {
        "Go"
    }

    fn entry_file_candidates(&self) -> (candidates: &[&str])
        ensures
            candidates.deep_view() == seq!["main.go"@, "cmd/main.go"@, "app.go"@, "go.mod"@],
    {
        let candidates: &[&str] = &["main.go", "cmd/main.go", "app.go", "go.mod"];
        candidates
    }

    fn supported_extensions(&self) -> (extensions: &[&str])
        ensures
            extensions.deep_view() == seq!["go"@],
    {
        let extensions: &[&str] = &["go"];
        extensions
    }

    /// The declared tools that are not among `installed_tools`, in the order
    /// of their declaration, each as its hint.
    fn check_dependencies(&self, installed_tools: &Vec<String>) -> (missing: Vec<String>)
        ensures
            missing.deep_view() == missing_hints(self@.dependencies, installed_tools.deep_view()),
    {
        let dependencies = &self.plugin_info.dependencies;
        let ghost absent = |tool: Seq<char>| !installed_tools.deep_view().contains(tool);
        let ghost hint = |tool: Seq<char>| install_hint_of(tool);
        let mut missing_dependencies: Vec<String> = Vec::new();
        let mut i: usize = 0;
        while i < dependencies.len()
            invariant
                i <= dependencies.len(),
                absent == (|tool: Seq<char>| !installed_tools.deep_view().contains(tool)),
                hint == (|tool: Seq<char>| install_hint_of(tool)),
                missing_dependencies.deep_view() =~= dependencies.deep_view().subrange(
                    0,
                    i as int,
                ).filter(absent).map_values(hint),
            decreases dependencies.len() - i,
        {
            let tool = &dependencies[i];
            proof {
                let done = dependencies.deep_view().subrange(0, i as int);
                assert(dependencies.deep_view().subrange(0, i + 1) =~= done.push(tool@));
                done.lemma_filter_push(tool@, absent);
            }
            if !list_contains(installed_tools, tool.as_str()) {
                push_text(&mut missing_dependencies, Self::install_hint(tool.as_str()));
            }
            i += 1;
        }
        assert(dependencies.deep_view().subrange(0, i as int) =~= dependencies.deep_view());
        missing_dependencies
    }

    /// A project can be built where its directory is there, is a directory,
    /// and holds an entry file.
    fn validate_project(&self, project_path: &str, snapshot: &ProjectSnapshot) -> (result:
        PluginResult<()>)
        ensures
            match result {
                Ok(()) => validation_of(self@.entry_files, project_path@, snapshot@) == Ok::<
                    (),
                    PluginErrorView,
                >(()),
                Err(error) => validation_of(self@.entry_files, project_path@, snapshot@) == Err::<
                    (),
                    PluginErrorView,
                >(error@),
            },
    {
        match PathResolver::validate_directory_exists(project_path, snapshot.kind) {
            Err(error) => Err(error),
            Ok(()) => match self.find_entry_file(project_path, snapshot) {
                Ok(_) => Ok(()),
                Err(error) => Err(error),
            },
        }
    }

    /// One step of a build. The build starts in `BuildState::Idle` with the
    /// event `BuildEvent::Requested`, and has ended when the action is
    /// `BuildAction::Finish`.
    fn build(&self, config: &BuildConfig, state: BuildState, event: BuildEvent) -> (step: BuildStep)
        ensures
            step@ == next_step(self@.entry_files, config@, state@, event@),
    {
        proof {
            lemma_build_never_goes_back(self@.entry_files, config@, state@, event@);
        }
        match (state, event) {
            (BuildState::Idle, BuildEvent::Requested) => BuildStep {
                state: BuildState::AwaitingTool,
                action: BuildAction::ProbeTool {
                    tool: String::from_str("tinygo"),
                    version_argument: String::from_str(CommandExecutor::version_argument("tinygo")),
                },
            },
            (BuildState::AwaitingTool, BuildEvent::ToolProbed(outcome)) => self.step_after_probe(
                config,
                outcome,
            ),
            (BuildState::AwaitingScan, BuildEvent::ProjectScanned(snapshot)) => self.step_after_scan(
                config,
                &snapshot,
            ),
            (
                BuildState::AwaitingOutputDirectory { entry_file },
                BuildEvent::OutputDirectoryEnsured { created },
            ) => Self::step_after_output_directory(config, entry_file, created),
            (
                BuildState::AwaitingCompiler { output_path },
                BuildEvent::CompilerFinished(result),
            ) => Self::step_after_compiler(output_path, result),
            (
                BuildState::AwaitingArtifact { output_path },
                BuildEvent::ArtifactChecked { exists },
            ) => Self::step_after_artifact_check(output_path, exists),
            (state, _) => BuildStep { state, action: BuildAction::Nothing },
        }
    }
}

} // verus!
