//! The build as a sequence of steps. The builder decides; the embedding
//! program acts. Each step takes the state of the build and what the program
//! has just observed, and gives the next state and what the program has to do
//! next:
//!
//! check the compiler -> locate the entry file -> ensure the output directory
//! -> run the compiler -> check the artifact.
//!
//! The sequence never goes back, and nothing is kept between two builds.

use crate::command::{version_argument_of, CommandLine, CommandLineView, CommandOutput,
    CommandOutputView, ProbeOutcome};
use crate::error::{PluginError, PluginErrorView};
use crate::path::{file_stem_of, joined, lemma_file_name};
use crate::plugin::{BuildConfigView, BuildResult, BuildResultView};
use crate::project::{entry_file_of, paths_to_probe, ProjectSnapshot, ProjectSnapshotView};
use crate::text::lossy_text_of;
use vstd::prelude::*;

verus! {

/// Where a build stands.
#[derive(Debug)]
pub enum BuildState {
    /// Nothing was asked for yet.
    Idle,
    /// The compiler is being probed.
    AwaitingTool,
    /// The project directory is being looked at.
    AwaitingScan,
    /// The output directory is being created; the entry file is known.
    AwaitingOutputDirectory { entry_file: String },
    /// The compiler is running; it writes to `output_path`.
    AwaitingCompiler { output_path: String },
    /// The compiler succeeded; `output_path` is being looked up.
    AwaitingArtifact { output_path: String },
    /// The build has ended, well or not.
    Finished,
}

/// A `BuildState` with its paths as sequences of characters.
pub enum BuildStateView {
    Idle,
    AwaitingTool,
    AwaitingScan,
    AwaitingOutputDirectory { entry_file: Seq<char> },
    AwaitingCompiler { output_path: Seq<char> },
    AwaitingArtifact { output_path: Seq<char> },
    Finished,
}

impl View for BuildState {
    type V = BuildStateView;

    open spec fn view(&self) -> BuildStateView {
        match self {
            BuildState::Idle => BuildStateView::Idle,
            BuildState::AwaitingTool => BuildStateView::AwaitingTool,
            BuildState::AwaitingScan => BuildStateView::AwaitingScan,
            BuildState::AwaitingOutputDirectory {
                entry_file,
            } => BuildStateView::AwaitingOutputDirectory { entry_file: entry_file@ },
            BuildState::AwaitingCompiler { output_path } => BuildStateView::AwaitingCompiler {
                output_path: output_path@,
            },
            BuildState::AwaitingArtifact { output_path } => BuildStateView::AwaitingArtifact {
                output_path: output_path@,
            },
            BuildState::Finished => BuildStateView::Finished,
        }
    }
}

/// What the embedding program reports to the build.
#[derive(Debug)]
pub enum BuildEvent {
    /// A build was asked for.
    Requested,
    /// The compiler was probed.
    ToolProbed(ProbeOutcome),
    /// The project directory was looked at.
    ProjectScanned(ProjectSnapshot),
    /// The output directory was created with its parents, or could not be.
    OutputDirectoryEnsured { created: bool },
    /// The compiler ran to its end, or could not be run.
    CompilerFinished(Result<CommandOutput, std::io::Error>),
    /// The artifact was looked up.
    ArtifactChecked { exists: bool },
}

/// A `BuildEvent` with its contents as sequences.
pub enum BuildEventView {
    Requested,
    ToolProbed(ProbeOutcome),
    ProjectScanned(ProjectSnapshotView),
    OutputDirectoryEnsured { created: bool },
    CompilerFinished(Result<CommandOutputView, std::io::Error>),
    ArtifactChecked { exists: bool },
}

impl View for BuildEvent {
    type V = BuildEventView;

    open spec fn view(&self) -> BuildEventView {
        match self {
            BuildEvent::Requested => BuildEventView::Requested,
            BuildEvent::ToolProbed(outcome) => BuildEventView::ToolProbed(*outcome),
            BuildEvent::ProjectScanned(snapshot) => BuildEventView::ProjectScanned(snapshot@),
            BuildEvent::OutputDirectoryEnsured {
                created,
            } => BuildEventView::OutputDirectoryEnsured { created: *created },
            BuildEvent::CompilerFinished(result) => BuildEventView::CompilerFinished(
                match result {
                    Ok(output) => Ok(output@),
                    Err(error) => Err(*error),
                },
            ),
            BuildEvent::ArtifactChecked { exists } => BuildEventView::ArtifactChecked {
                exists: *exists,
            },
        }
    }
}

/// What the build asks the embedding program to do.
#[derive(Debug)]
pub enum BuildAction {
    /// Run `tool` with `version_argument` and report `ToolProbed`.
    ProbeTool { tool: String, version_argument: String },
    /// Look up `paths`, list `directory` with the kind of each entry, and
    /// report `ProjectScanned`.
    ScanProject { directory: String, paths: Vec<String> },
    /// Create the directory at `path` with its parents and report
    /// `OutputDirectoryEnsured`.
    CreateOutputDirectory { path: String },
    /// Show `notice`, run `command`, and report `CompilerFinished`.
    RunCompiler { notice: String, command: CommandLine },
    /// Look up `path` and report `ArtifactChecked`.
    CheckArtifact { path: String },
    /// The build has ended: hand this to whoever asked for it.
    Finish(Result<BuildResult, PluginError>),
    /// The event was not one that the build was waiting for.
    Nothing,
}

/// A `BuildAction` with its texts as sequences of characters.
pub enum BuildActionView {
    ProbeTool { tool: Seq<char>, version_argument: Seq<char> },
    ScanProject { directory: Seq<char>, paths: Seq<Seq<char>> },
    CreateOutputDirectory { path: Seq<char> },
    RunCompiler { notice: Seq<char>, command: CommandLineView },
    CheckArtifact { path: Seq<char> },
    Finish(Result<BuildResultView, PluginErrorView>),
    Nothing,
}

impl View for BuildAction {
    type V = BuildActionView;

    open spec fn view(&self) -> BuildActionView {
        match self {
            BuildAction::ProbeTool { tool, version_argument } => BuildActionView::ProbeTool {
                tool: tool@,
                version_argument: version_argument@,
            },
            BuildAction::ScanProject { directory, paths } => BuildActionView::ScanProject {
                directory: directory@,
                paths: paths.deep_view(),
            },
            BuildAction::CreateOutputDirectory {
                path,
            } => BuildActionView::CreateOutputDirectory { path: path@ },
            BuildAction::RunCompiler { notice, command } => BuildActionView::RunCompiler {
                notice: notice@,
                command: command@,
            },
            BuildAction::CheckArtifact { path } => BuildActionView::CheckArtifact { path: path@ },
            BuildAction::Finish(result) => BuildActionView::Finish(
                match result {
                    Ok(built) => Ok(built@),
                    Err(error) => Err(error@),
                },
            ),
            BuildAction::Nothing => BuildActionView::Nothing,
        }
    }
}

/// One step of a build: where it stands now, and what is to be done.
#[derive(Debug)]
pub struct BuildStep {
    pub state: BuildState,
    pub action: BuildAction,
}

/// A `BuildStep` with its texts as sequences of characters.
pub struct BuildStepView {
    pub state: BuildStateView,
    pub action: BuildActionView,
}

impl View for BuildStep {
    type V = BuildStepView;

    open spec fn view(&self) -> BuildStepView {
        BuildStepView { state: self.state@, action: self.action@ }
    }
}

/// The compiler that the build runs.
pub open spec fn compiler() -> Seq<char> {
    "tinygo"@
}

/// The line that is shown before the compiler is run.
pub open spec fn compiler_notice() -> Seq<char> {
    "🔨 Building with TinyGo..."@
}

/// The reason that is given where the compiler exits with a failure.
pub open spec fn failed_exit_reason(stderr_text: Seq<char>) -> Seq<char> {
    "Build failed: "@ + stderr_text
}

/// The reason that is given where the compiler exits with success and the
/// artifact is not there.
pub open spec fn missing_artifact_reason() -> Seq<char> {
    "TinyGo build completed but WASM file was not created"@
}

/// The reason that is given where the entry file has no file name to derive
/// the name of the artifact from.
pub open spec fn unnamed_entry_reason(entry_file: Seq<char>) -> Seq<char> {
    "Entry file has no file name: "@ + entry_file
}

/// The path of the artifact for an entry file: the stem of the entry file
/// with `.wasm` after it, in the output directory.
pub open spec fn artifact_path(output_directory: Seq<char>, entry_file: Seq<char>) -> Option<
    Seq<char>,
> {
    match file_stem_of(entry_file) {
        Some(stem) => Some(joined(output_directory, stem + ".wasm"@)),
        None => None,
    }
}

/// The compiler's command line: build the package in the project directory
/// for the `wasm` target and write to `output_path`.
pub open spec fn compiler_command(config: BuildConfigView, output_path: Seq<char>) -> CommandLineView {
    CommandLineView {
        program: compiler(),
        arguments: seq!["build"@, "-o"@, output_path, "-target=wasm"@, "."@],
        working_directory: config.project_path,
        verbose: config.verbose,
    }
}

/// What a successful build hands back: the artifact, and nothing beside it.
pub open spec fn built(output_path: Seq<char>) -> BuildResultView {
    BuildResultView {
        wasm_file_path: output_path,
        js_file_path: None,
        additional_files: Seq::empty(),
        is_wasm_bindgen: false,
    }
}

/// The step that ends a build.
pub open spec fn finish(result: Result<BuildResultView, PluginErrorView>) -> BuildStepView {
    BuildStepView { state: BuildStateView::Finished, action: BuildActionView::Finish(result) }
}

/// The step after the build was asked for: probe the compiler.
pub open spec fn after_request() -> BuildStepView {
    BuildStepView {
        state: BuildStateView::AwaitingTool,
        action: BuildActionView::ProbeTool {
            tool: compiler(),
            version_argument: version_argument_of(compiler()),
        },
    }
}

/// The step after the compiler was probed: without it the build ends; with
/// it the project directory is looked at.
pub open spec fn after_probe(
    entry_files: Seq<Seq<char>>,
    config: BuildConfigView,
    outcome: ProbeOutcome,
) -> BuildStepView {
    if outcome.installed() {
        BuildStepView {
            state: BuildStateView::AwaitingScan,
            action: BuildActionView::ScanProject {
                directory: config.project_path,
                paths: paths_to_probe(config.project_path, entry_files),
            },
        }
    } else {
        finish(Err(PluginErrorView::BuildToolNotFound { tool: compiler() }))
    }
}

/// The step after the project directory was looked at: without an entry file
/// the build ends; with one the output directory is created.
pub open spec fn after_scan(
    entry_files: Seq<Seq<char>>,
    config: BuildConfigView,
    snapshot: ProjectSnapshotView,
) -> BuildStepView {
    match entry_file_of(config.project_path, entry_files, snapshot) {
        Some(entry_file) => BuildStepView {
            state: BuildStateView::AwaitingOutputDirectory { entry_file },
            action: BuildActionView::CreateOutputDirectory { path: config.output_directory },
        },
        None => finish(Err(PluginErrorView::MissingEntryFile { candidates: entry_files })),
    }
}

/// The step after the output directory was asked for: without it, or without
/// a name for the artifact, the build ends; else the compiler is run.
pub open spec fn after_output_directory(
    config: BuildConfigView,
    entry_file: Seq<char>,
    created: bool,
) -> BuildStepView {
    if !created {
        finish(
            Err(PluginErrorView::OutputDirectoryCreationFailed { path: config.output_directory }),
        )
    } else {
        match artifact_path(config.output_directory, entry_file) {
            Some(output_path) => BuildStepView {
                state: BuildStateView::AwaitingCompiler { output_path },
                action: BuildActionView::RunCompiler {
                    notice: compiler_notice(),
                    command: compiler_command(config, output_path),
                },
            },
            None => finish(
                Err(
                    PluginErrorView::InvalidProjectStructure {
                        reason: unnamed_entry_reason(entry_file),
                    },
                ),
            ),
        }
    }
}

/// The step after the compiler was run: where it could not be run, or exited
/// with a failure, the build ends; else the artifact is looked up.
pub open spec fn after_compiler(
    output_path: Seq<char>,
    result: Result<CommandOutputView, std::io::Error>,
) -> BuildStepView {
    match result {
        Err(error) => finish(Err(PluginErrorView::Io(error))),
        Ok(output) => if output.success {
            BuildStepView {
                state: BuildStateView::AwaitingArtifact { output_path },
                action: BuildActionView::CheckArtifact { path: output_path },
            }
        } else {
            finish(
                Err(
                    PluginErrorView::CompilationFailed {
                        reason: failed_exit_reason(lossy_text_of(output.stderr)),
                    },
                ),
            )
        },
    }
}

/// The step after the artifact was looked up: the build ends, well where the
/// artifact is there.
pub open spec fn after_artifact_check(output_path: Seq<char>, exists: bool) -> BuildStepView {
    if exists {
        finish(Ok(built(output_path)))
    } else {
        finish(Err(PluginErrorView::CompilationFailed { reason: missing_artifact_reason() }))
    }
}

/// The step that follows from `state` on `event`, for a plugin with these
/// entry file candidates. An event that the state does not wait for changes
/// nothing and asks for nothing.
pub open spec fn next_step(
    entry_files: Seq<Seq<char>>,
    config: BuildConfigView,
    state: BuildStateView,
    event: BuildEventView,
) -> BuildStepView {
    match (state, event) {
        (BuildStateView::Idle, BuildEventView::Requested) => after_request(),
        (BuildStateView::AwaitingTool, BuildEventView::ToolProbed(outcome)) => after_probe(
            entry_files,
            config,
            outcome,
        ),
        (BuildStateView::AwaitingScan, BuildEventView::ProjectScanned(snapshot)) => after_scan(
            entry_files,
            config,
            snapshot,
        ),
        (
            BuildStateView::AwaitingOutputDirectory { entry_file },
            BuildEventView::OutputDirectoryEnsured { created },
        ) => after_output_directory(config, entry_file, created),
        (
            BuildStateView::AwaitingCompiler { output_path },
            BuildEventView::CompilerFinished(result),
        ) => after_compiler(output_path, result),
        (
            BuildStateView::AwaitingArtifact { output_path },
            BuildEventView::ArtifactChecked { exists },
        ) => after_artifact_check(output_path, exists),
        _ => BuildStepView { state, action: BuildActionView::Nothing },
    }
}

/// What the embedding program finds when it does what a build asks for: one
/// finding for each kind of request.
pub struct HostView {
    /// What comes of probing the compiler.
    pub probe: ProbeOutcome,
    /// What the project directory looks like.
    pub snapshot: ProjectSnapshotView,
    /// Whether the output directory can be created.
    pub directory_created: bool,
    /// What comes of running the compiler.
    pub compiler: Result<CommandOutputView, std::io::Error>,
    /// Whether the artifact is there after the compiler has run.
    pub artifact_exists: bool,
}

/// The event that follows when `host` does what `action` asks for. The two
/// actions that ask for nothing are followed by no event.
pub open spec fn answer(host: HostView, action: BuildActionView) -> Option<BuildEventView> {
    match action {
        BuildActionView::ProbeTool { .. } => Some(BuildEventView::ToolProbed(host.probe)),
        BuildActionView::ScanProject { .. } => Some(BuildEventView::ProjectScanned(host.snapshot)),
        BuildActionView::CreateOutputDirectory { .. } => Some(
            BuildEventView::OutputDirectoryEnsured { created: host.directory_created },
        ),
        BuildActionView::RunCompiler { .. } => Some(
            BuildEventView::CompilerFinished(host.compiler),
        ),
        BuildActionView::CheckArtifact { .. } => Some(
            BuildEventView::ArtifactChecked { exists: host.artifact_exists },
        ),
        BuildActionView::Finish(_) => None,
        BuildActionView::Nothing => None,
    }
}

/// Where a build that stands at `step` ends when `host` answers its
/// requests, if it ends within `limit` further steps.
pub open spec fn run(
    entry_files: Seq<Seq<char>>,
    config: BuildConfigView,
    host: HostView,
    step: BuildStepView,
    limit: nat,
) -> Option<Result<BuildResultView, PluginErrorView>>
    decreases limit,
{
    match step.action {
        BuildActionView::Finish(result) => Some(result),
        _ => match answer(host, step.action) {
            Some(event) if limit > 0 => run(
                entry_files,
                config,
                host,
                next_step(entry_files, config, step.state, event),
                (limit - 1) as nat,
            ),
            _ => None,
        },
    }
}

/// What a whole build comes to on `host`. The first thing that goes wrong
/// decides: a compiler that is not installed, no entry file, an output
/// directory that cannot be created, an entry file without a name, a
/// compiler that cannot be run, one that exits with a failure, an artifact
/// that is not there. Where nothing goes wrong, the build gives the artifact.
pub open spec fn build_outcome(
    entry_files: Seq<Seq<char>>,
    config: BuildConfigView,
    host: HostView,
) -> Result<BuildResultView, PluginErrorView> {
    if !host.probe.installed() {
        Err(PluginErrorView::BuildToolNotFound { tool: compiler() })
    } else {
        match entry_file_of(config.project_path, entry_files, host.snapshot) {
            None => Err(PluginErrorView::MissingEntryFile { candidates: entry_files }),
            Some(entry_file) => if !host.directory_created {
                Err(
                    PluginErrorView::OutputDirectoryCreationFailed {
                        path: config.output_directory,
                    },
                )
            } else {
                match artifact_path(config.output_directory, entry_file) {
                    None => Err(
                        PluginErrorView::InvalidProjectStructure {
                            reason: unnamed_entry_reason(entry_file),
                        },
                    ),
                    Some(output_path) => match host.compiler {
                        Err(error) => Err(PluginErrorView::Io(error)),
                        Ok(output) => if !output.success {
                            Err(
                                PluginErrorView::CompilationFailed {
                                    reason: failed_exit_reason(lossy_text_of(output.stderr)),
                                },
                            )
                        } else if !host.artifact_exists {
                            Err(
                                PluginErrorView::CompilationFailed {
                                    reason: missing_artifact_reason(),
                                },
                            )
                        } else {
                            Ok(built(output_path))
                        },
                    },
                }
            },
        }
    }
}

/// A build that is started and whose requests are answered one after the
/// other ends, after five answers at most, with what `build_outcome` says.
pub proof fn lemma_build_reaches_outcome(
    entry_files: Seq<Seq<char>>,
    config: BuildConfigView,
    host: HostView,
)
    ensures
        run(
            entry_files,
            config,
            host,
            next_step(entry_files, config, BuildStateView::Idle, BuildEventView::Requested),
            5,
        ) == Some(build_outcome(entry_files, config, host)),
{
    reveal_with_fuel(run, 6);
}

/// How far a build has come: each state counts the steps that lie behind it.
pub open spec fn progress(state: BuildStateView) -> nat {
    match state {
        BuildStateView::Idle => 0,
        BuildStateView::AwaitingTool => 1,
        BuildStateView::AwaitingScan => 2,
        BuildStateView::AwaitingOutputDirectory { .. } => 3,
        BuildStateView::AwaitingCompiler { .. } => 4,
        BuildStateView::AwaitingArtifact { .. } => 5,
        BuildStateView::Finished => 6,
    }
}

/// A build never goes back: a step that asks for something moves the build
/// forward, and a step that asks for nothing leaves it where it stands.
pub proof fn lemma_build_never_goes_back(
    entry_files: Seq<Seq<char>>,
    config: BuildConfigView,
    state: BuildStateView,
    event: BuildEventView,
)
    ensures
        ({
            let step = next_step(entry_files, config, state, event);
            if step.action == BuildActionView::Nothing {
                step.state == state
            } else {
                progress(step.state) > progress(state)
            }
        }),
{
}

/// Once a build has ended, no event makes it ask for anything again.
pub proof fn lemma_finished_is_final(
    entry_files: Seq<Seq<char>>,
    config: BuildConfigView,
    event: BuildEventView,
)
    ensures
        next_step(entry_files, config, BuildStateView::Finished, event) == (BuildStepView {
            state: BuildStateView::Finished,
            action: BuildActionView::Nothing,
        }),
{
}

/// A build first asks for the compiler to be probed, and for nothing else.
/// Where the probe shows that the compiler is not installed, the build ends
/// at once with the failure that names the compiler: the project directory
/// is never asked for.
pub proof fn lemma_missing_compiler_ends_build(
    entry_files: Seq<Seq<char>>,
    config: BuildConfigView,
    outcome: ProbeOutcome,
)
    requires
        !outcome.installed(),
    ensures
        ({
            let requested = next_step(
                entry_files,
                config,
                BuildStateView::Idle,
                BuildEventView::Requested,
            );
            let probed = next_step(
                entry_files,
                config,
                requested.state,
                BuildEventView::ToolProbed(outcome),
            );
            &&& requested.action == (BuildActionView::ProbeTool {
                tool: compiler(),
                version_argument: "version"@,
            })
            &&& probed.action == BuildActionView::Finish(
                Err(PluginErrorView::BuildToolNotFound { tool: compiler() }),
            )
            &&& probed.state == BuildStateView::Finished
        }),
{
}

/// Where the output directory is not empty and does not end with a
/// separator, the artifact stands directly below it, under the stem of the
/// entry file with `.wasm` after it.
pub proof fn lemma_artifact_path(output_directory: Seq<char>, entry_file: Seq<char>)
    requires
        file_stem_of(entry_file) is Some,
        output_directory.len() > 0,
        output_directory.last() != '/',
    ensures
        artifact_path(output_directory, entry_file) == Some(
            output_directory + seq!['/'] + file_stem_of(entry_file)->0 + ".wasm"@,
        ),
{
    lemma_file_name(entry_file);
}

/// A build in which every step goes well, up to a compiler that exits with
/// success and an artifact that is there, ends with a result whose artifact
/// is the file in the output directory that is named after the stem of the
/// entry file, with `.wasm` after it, and that holds nothing else.
pub proof fn lemma_successful_build(
    entry_files: Seq<Seq<char>>,
    config: BuildConfigView,
    snapshot: ProjectSnapshotView,
    output: CommandOutputView,
)
    requires
        entry_file_of(config.project_path, entry_files, snapshot) is Some,
        file_stem_of(entry_file_of(config.project_path, entry_files, snapshot)->0) is Some,
        output.success,
    ensures
        ({
            let stem = file_stem_of(
                entry_file_of(config.project_path, entry_files, snapshot)->0,
            )->0;
            let requested = next_step(
                entry_files,
                config,
                BuildStateView::Idle,
                BuildEventView::Requested,
            );
            let probed = next_step(
                entry_files,
                config,
                requested.state,
                BuildEventView::ToolProbed(ProbeOutcome::Exited { success: true }),
            );
            let scanned = next_step(
                entry_files,
                config,
                probed.state,
                BuildEventView::ProjectScanned(snapshot),
            );
            let prepared = next_step(
                entry_files,
                config,
                scanned.state,
                BuildEventView::OutputDirectoryEnsured { created: true },
            );
            let compiled = next_step(
                entry_files,
                config,
                prepared.state,
                BuildEventView::CompilerFinished(Ok(output)),
            );
            let checked = next_step(
                entry_files,
                config,
                compiled.state,
                BuildEventView::ArtifactChecked { exists: true },
            );
            &&& prepared.action == (BuildActionView::RunCompiler {
                notice: compiler_notice(),
                command: compiler_command(
                    config,
                    joined(config.output_directory, stem + ".wasm"@),
                ),
            })
            &&& compiled.action == (BuildActionView::CheckArtifact {
                path: joined(config.output_directory, stem + ".wasm"@),
            })
            &&& checked.action == BuildActionView::Finish(
                Ok(built(joined(config.output_directory, stem + ".wasm"@))),
            )
            &&& checked.state == BuildStateView::Finished
        }),
{
}

/// The two ways in which a compilation fails are told apart by their
/// reasons. A compiler that exits with a failure gives `Build failed: ` and
/// what it wrote to its standard error; a compiler that exits with success
/// and leaves no artifact gives a fixed reason; and no text on standard
/// error makes the first reason equal to the second.
pub proof fn lemma_compilation_failures_differ(
    entry_files: Seq<Seq<char>>,
    config: BuildConfigView,
    output_path: Seq<char>,
    output: CommandOutputView,
)
    ensures
        ({
            let compiled = next_step(
                entry_files,
                config,
                BuildStateView::AwaitingCompiler { output_path },
                BuildEventView::CompilerFinished(Ok(output)),
            );
            let checked = next_step(
                entry_files,
                config,
                compiled.state,
                BuildEventView::ArtifactChecked { exists: false },
            );
            &&& !output.success ==> compiled.action == BuildActionView::Finish(
                Err(
                    PluginErrorView::CompilationFailed {
                        reason: failed_exit_reason(lossy_text_of(output.stderr)),
                    },
                ),
            )
            &&& output.success ==> checked.action == BuildActionView::Finish(
                Err(PluginErrorView::CompilationFailed { reason: missing_artifact_reason() }),
            )
        }),
        forall|stderr_text: Seq<char>|
            #[trigger] failed_exit_reason(stderr_text) != missing_artifact_reason(),
{
    assert forall|stderr_text: Seq<char>| #[trigger]
        failed_exit_reason(stderr_text) != missing_artifact_reason() by {
        reveal_strlit("Build failed: ");
        reveal_strlit("TinyGo build completed but WASM file was not created");
        assert(missing_artifact_reason()[0] == 'T');
    }
}

} // verus!
