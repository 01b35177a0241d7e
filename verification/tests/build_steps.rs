use std::io::{Error, ErrorKind};
use wasmgo::manifest::{
    CargoPackage, CargoToml, PackageMetadata, WasmPluginCapabilities, WasmPluginConfig,
    WasmPluginDependencies,
};
use wasmgo::{
    BuildAction, BuildConfig, BuildEvent, BuildResult, BuildState, BuildStep, CommandOutput,
    DirectoryEntry, GoPlugin, OptimizationLevel, PathKind, PluginError, ProbeOutcome,
    ProjectSnapshot, TargetType, WasmBuilder,
};

fn strings(items: &[&str]) -> Vec<String> {
    items.iter().map(|item| item.to_string()).collect()
}

fn go_plugin() -> GoPlugin {
    GoPlugin::new(CargoToml {
        package: CargoPackage {
            name: "wasmgo".to_string(),
            version: "0.1.0".to_string(),
            authors: strings(&["Ada"]),
            description: "Go WebAssembly plugin".to_string(),
            homepage: None,
            repository: None,
            license: None,
            keywords: None,
            categories: None,
            metadata: Some(PackageMetadata {
                wasm_plugin: WasmPluginConfig {
                    name: "go".to_string(),
                    extensions: strings(&["go"]),
                    entry_files: strings(&["main.go", "cmd/main.go", "app.go", "go.mod"]),
                    capabilities: WasmPluginCapabilities {
                        compile_wasm: true,
                        compile_webapp: false,
                        live_reload: false,
                        optimization: false,
                        custom_targets: Vec::new(),
                    },
                    dependencies: WasmPluginDependencies { tools: strings(&["tinygo"]) },
                },
            }),
        },
    })
}

fn config(project_path: &str, output_directory: &str, verbose: bool) -> BuildConfig {
    BuildConfig {
        project_path: project_path.to_string(),
        output_directory: output_directory.to_string(),
        verbose,
        optimization_level: OptimizationLevel::Release,
        target_type: TargetType::Standard,
    }
}

/// A host that answers each request of a build from a prepared script and
/// keeps a record of what it was asked to do.
struct ScriptedHost {
    probe: ProbeOutcome,
    existing: Vec<String>,
    entries: Option<Vec<String>>,
    subdirectories: Vec<String>,
    directory_created: bool,
    compiler: Option<Result<CommandOutput, Error>>,
    artifact_exists: bool,
    record: Vec<String>,
}

impl ScriptedHost {
    fn that_succeeds(existing: &[&str], entries: &[&str]) -> ScriptedHost {
        ScriptedHost {
            probe: ProbeOutcome::Exited { success: true },
            existing: strings(existing),
            entries: Some(strings(entries)),
            subdirectories: Vec::new(),
            directory_created: true,
            compiler: Some(Ok(CommandOutput { success: true, stdout: Vec::new(), stderr: Vec::new() })),
            artifact_exists: true,
            record: Vec::new(),
        }
    }

    fn perform(&mut self, action: BuildAction) -> Result<BuildEvent, Result<BuildResult, PluginError>> {
        match action {
            BuildAction::ProbeTool { tool, version_argument } => {
                self.record.push(format!("probe {tool} {version_argument}"));
                Ok(BuildEvent::ToolProbed(self.probe))
            }
            BuildAction::ScanProject { directory, paths } => {
                self.record.push(format!("scan {directory} {}", paths.join(",")));
                Ok(BuildEvent::ProjectScanned(ProjectSnapshot {
                    kind: PathKind::Directory,
                    existing: paths.into_iter().filter(|path| self.existing.contains(path)).collect(),
                    entries: self.entries.as_ref().map(|paths| {
                        paths
                            .iter()
                            .map(|path| DirectoryEntry {
                                path: path.clone(),
                                is_file: !self.subdirectories.contains(path),
                            })
                            .collect()
                    }),
                }))
            }
            BuildAction::CreateOutputDirectory { path } => {
                self.record.push(format!("mkdir {path}"));
                Ok(BuildEvent::OutputDirectoryEnsured { created: self.directory_created })
            }
            BuildAction::RunCompiler { notice, command } => {
                self.record.push(format!("say {notice}"));
                self.record.push(format!(
                    "run {} {} in {} verbose={}",
                    command.program,
                    command.arguments.join(" "),
                    command.working_directory,
                    command.verbose
                ));
                Ok(BuildEvent::CompilerFinished(self.compiler.take().unwrap()))
            }
            BuildAction::CheckArtifact { path } => {
                self.record.push(format!("check {path}"));
                Ok(BuildEvent::ArtifactChecked { exists: self.artifact_exists })
            }
            BuildAction::Finish(result) => Err(result),
            BuildAction::Nothing => panic!("the build asked for nothing"),
        }
    }
}

fn run_build(plugin: &GoPlugin, config: &BuildConfig, host: &mut ScriptedHost) -> Result<BuildResult, PluginError> {
    let mut step = plugin.build(config, BuildState::Idle, BuildEvent::Requested);
    loop {
        let BuildStep { state, action } = step;
        match host.perform(action) {
            Ok(event) => step = plugin.build(config, state, event),
            Err(result) => {
                assert!(matches!(state, BuildState::Finished));
                return result;
            }
        }
    }
}

#[test]
fn build_starts_by_probing_the_compiler() {
    let step = go_plugin().build(&config("proj", "dist", false), BuildState::Idle, BuildEvent::Requested);
    assert!(matches!(step.state, BuildState::AwaitingTool));
    match step.action {
        BuildAction::ProbeTool { tool, version_argument } => {
            assert_eq!(tool, "tinygo");
            assert_eq!(version_argument, "version");
        }
        other => panic!("unexpected action: {other:?}"),
    }
}

#[test]
fn missing_compiler_ends_the_build_before_anything_is_scanned() {
    let mut host = ScriptedHost::that_succeeds(&["proj/main.go"], &["proj/main.go"]);
    host.probe = ProbeOutcome::NotStarted;
    match run_build(&go_plugin(), &config("proj", "dist", false), &mut host) {
        Err(PluginError::BuildToolNotFound { tool }) => assert_eq!(tool, "tinygo"),
        other => panic!("unexpected result: {other:?}"),
    }
    assert_eq!(host.record, strings(&["probe tinygo version"]));
}

#[test]
fn compiler_that_exits_with_a_failure_on_the_probe_counts_as_missing() {
    let mut host = ScriptedHost::that_succeeds(&["proj/main.go"], &["proj/main.go"]);
    host.probe = ProbeOutcome::Exited { success: false };
    match run_build(&go_plugin(), &config("proj", "dist", true), &mut host) {
        Err(PluginError::BuildToolNotFound { tool }) => assert_eq!(tool, "tinygo"),
        other => panic!("unexpected result: {other:?}"),
    }
    assert_eq!(host.record, strings(&["probe tinygo version"]));
}

#[test]
fn successful_build_gives_the_artifact_below_the_output_directory() {
    let mut host = ScriptedHost::that_succeeds(&["proj/main.go"], &["proj/main.go", "proj/go.mod"]);
    let built = run_build(&go_plugin(), &config("proj", "dist", false), &mut host).unwrap();
    assert_eq!(built.wasm_file_path, "dist/main.wasm");
    assert_eq!(built.js_file_path, None);
    assert!(built.additional_files.is_empty());
    assert!(!built.is_wasm_bindgen);
}

#[test]
fn successful_build_asks_for_each_step_in_turn() {
    let mut host = ScriptedHost::that_succeeds(&["proj/cmd/main.go"], &["proj/cmd"]);
    let built = run_build(&go_plugin(), &config("proj", "out/wasm", true), &mut host).unwrap();
    assert_eq!(built.wasm_file_path, "out/wasm/main.wasm");
    assert_eq!(
        host.record,
        strings(&[
            "probe tinygo version",
            "scan proj proj/go.mod,proj/main.go,proj/cmd/main.go,proj/app.go,proj/go.mod",
            "mkdir out/wasm",
            "say \u{1f528} Building with TinyGo...",
            "run tinygo build -o out/wasm/main.wasm -target=wasm . in proj verbose=true",
            "check out/wasm/main.wasm",
        ])
    );
}

#[test]
fn artifact_is_named_after_the_stem_of_the_entry_file() {
    let mut host = ScriptedHost::that_succeeds(&[], &["proj/notes.txt", "proj/web.server.go"]);
    let built = run_build(&go_plugin(), &config("proj", "dist/", false), &mut host).unwrap();
    assert_eq!(built.wasm_file_path, "dist/web.server.wasm");
}

#[test]
fn artifact_of_the_module_file_is_named_go() {
    let mut host = ScriptedHost::that_succeeds(&["proj/go.mod"], &[]);
    let built = run_build(&go_plugin(), &config("proj", "", false), &mut host).unwrap();
    assert_eq!(built.wasm_file_path, "go.wasm");
}

#[test]
fn build_without_an_entry_file_ends_after_the_scan() {
    let mut host = ScriptedHost::that_succeeds(&[], &["proj/README.md"]);
    match run_build(&go_plugin(), &config("proj", "dist", false), &mut host) {
        Err(PluginError::MissingEntryFile { candidates }) => {
            assert_eq!(candidates, strings(&["main.go", "cmd/main.go", "app.go", "go.mod"]))
        }
        other => panic!("unexpected result: {other:?}"),
    }
    assert_eq!(host.record.len(), 2);
}

#[test]
fn build_ends_where_the_output_directory_cannot_be_created() {
    let mut host = ScriptedHost::that_succeeds(&["proj/main.go"], &[]);
    host.directory_created = false;
    match run_build(&go_plugin(), &config("proj", "/root/dist", false), &mut host) {
        Err(PluginError::OutputDirectoryCreationFailed { path }) => assert_eq!(path, "/root/dist"),
        other => panic!("unexpected result: {other:?}"),
    }
    assert_eq!(host.record.last().unwrap(), "mkdir /root/dist");
}

#[test]
fn build_ends_where_the_compiler_cannot_be_run() {
    let mut host = ScriptedHost::that_succeeds(&["proj/main.go"], &[]);
    host.compiler = Some(Err(Error::new(ErrorKind::PermissionDenied, "not allowed")));
    match run_build(&go_plugin(), &config("proj", "dist", false), &mut host) {
        Err(PluginError::Io(error)) => {
            assert_eq!(error.kind(), ErrorKind::PermissionDenied);
            assert_eq!(error.to_string(), "not allowed");
        }
        other => panic!("unexpected result: {other:?}"),
    }
}

#[test]
fn failed_exit_gives_the_error_output_of_the_compiler() {
    let mut host = ScriptedHost::that_succeeds(&["proj/main.go"], &[]);
    host.compiler = Some(Ok(CommandOutput {
        success: false,
        stdout: b"ignored".to_vec(),
        stderr: b"main.go:3: undefined: x\n".to_vec(),
    }));
    match run_build(&go_plugin(), &config("proj", "dist", false), &mut host) {
        Err(PluginError::CompilationFailed { reason }) => {
            assert_eq!(reason, "Build failed: main.go:3: undefined: x\n")
        }
        other => panic!("unexpected result: {other:?}"),
    }
    assert!(!host.record.iter().any(|line| line.starts_with("check ")));
}

#[test]
fn failed_exit_decodes_error_output_that_is_no_text() {
    let mut host = ScriptedHost::that_succeeds(&["proj/main.go"], &[]);
    host.compiler = Some(Ok(CommandOutput {
        success: false,
        stdout: Vec::new(),
        stderr: vec![b'x', 0xff, 0xfe, b'y'],
    }));
    match run_build(&go_plugin(), &config("proj", "dist", false), &mut host) {
        Err(PluginError::CompilationFailed { reason }) => {
            assert_eq!(reason, "Build failed: x\u{fffd}\u{fffd}y")
        }
        other => panic!("unexpected result: {other:?}"),
    }
}

#[test]
fn successful_exit_without_artifact_is_a_failure_of_its_own() {
    let mut host = ScriptedHost::that_succeeds(&["proj/main.go"], &[]);
    host.artifact_exists = false;
    match run_build(&go_plugin(), &config("proj", "dist", false), &mut host) {
        Err(PluginError::CompilationFailed { reason }) => {
            assert_eq!(reason, "TinyGo build completed but WASM file was not created")
        }
        other => panic!("unexpected result: {other:?}"),
    }
    assert_eq!(host.record.last().unwrap(), "check dist/main.wasm");
}

#[test]
fn the_two_compilation_failures_have_different_reasons() {
    let mut no_artifact = ScriptedHost::that_succeeds(&["proj/main.go"], &[]);
    no_artifact.artifact_exists = false;
    let mut failed_exit = ScriptedHost::that_succeeds(&["proj/main.go"], &[]);
    failed_exit.compiler = Some(Ok(CommandOutput {
        success: false,
        stdout: Vec::new(),
        stderr: b"TinyGo build completed but WASM file was not created".to_vec(),
    }));
    let first = run_build(&go_plugin(), &config("proj", "dist", false), &mut no_artifact);
    let second = run_build(&go_plugin(), &config("proj", "dist", false), &mut failed_exit);
    match (first, second) {
        (
            Err(PluginError::CompilationFailed { reason: missing }),
            Err(PluginError::CompilationFailed { reason: failed }),
        ) => {
            assert_ne!(missing, failed);
            assert!(failed.starts_with("Build failed: "));
            assert!(!missing.starts_with("Build failed: "));
        }
        other => panic!("unexpected results: {other:?}"),
    }
}

#[test]
fn entry_file_without_a_file_name_ends_the_build() {
    let step = go_plugin().build(
        &config("proj", "dist", false),
        BuildState::AwaitingOutputDirectory { entry_file: "proj/..".to_string() },
        BuildEvent::OutputDirectoryEnsured { created: true },
    );
    assert!(matches!(step.state, BuildState::Finished));
    match step.action {
        BuildAction::Finish(Err(PluginError::InvalidProjectStructure { reason })) => {
            assert_eq!(reason, "Entry file has no file name: proj/..")
        }
        other => panic!("unexpected action: {other:?}"),
    }
}

#[test]
fn an_event_that_is_not_awaited_changes_nothing() {
    let plugin = go_plugin();
    let settings = config("proj", "dist", false);
    let step = plugin.build(&settings, BuildState::Idle, BuildEvent::ArtifactChecked { exists: true });
    assert!(matches!(step.state, BuildState::Idle));
    assert!(matches!(step.action, BuildAction::Nothing));
    let step = plugin.build(
        &settings,
        BuildState::AwaitingCompiler { output_path: "dist/main.wasm".to_string() },
        BuildEvent::ToolProbed(ProbeOutcome::NotStarted),
    );
    match step.state {
        BuildState::AwaitingCompiler { output_path } => assert_eq!(output_path, "dist/main.wasm"),
        other => panic!("unexpected state: {other:?}"),
    }
    assert!(matches!(step.action, BuildAction::Nothing));
}

#[test]
fn a_finished_build_asks_for_nothing_more() {
    let plugin = go_plugin();
    let settings = config("proj", "dist", false);
    let events = vec![
        BuildEvent::Requested,
        BuildEvent::ToolProbed(ProbeOutcome::Exited { success: true }),
        BuildEvent::OutputDirectoryEnsured { created: true },
        BuildEvent::ArtifactChecked { exists: true },
    ];
    for event in events {
        let step = plugin.build(&settings, BuildState::Finished, event);
        assert!(matches!(step.state, BuildState::Finished));
        assert!(matches!(step.action, BuildAction::Nothing));
    }
}

#[test]
fn compilation_failure_puts_the_error_output_after_its_label() {
    match GoPlugin::compilation_failure("exit status 1") {
        PluginError::CompilationFailed { reason } => assert_eq!(reason, "Build failed: exit status 1"),
        other => panic!("unexpected error: {other:?}"),
    }
}

#[test]
fn build_does_not_start_from_a_subdirectory_named_like_a_source_file() {
    let mut host = ScriptedHost::that_succeeds(&[], &["proj/pkg.go", "proj/README.md"]);
    host.subdirectories = strings(&["proj/pkg.go"]);
    match run_build(&go_plugin(), &config("proj", "dist", false), &mut host) {
        Err(PluginError::MissingEntryFile { candidates }) => {
            assert_eq!(candidates, strings(&["main.go", "cmd/main.go", "app.go", "go.mod"]))
        }
        other => panic!("unexpected result: {other:?}"),
    }
    assert_eq!(host.record.len(), 2);
}

#[test]
fn build_starts_from_the_first_regular_source_file() {
    let mut host = ScriptedHost::that_succeeds(&[], &["proj/pkg.go", "proj/tool.go"]);
    host.subdirectories = strings(&["proj/pkg.go"]);
    let built = run_build(&go_plugin(), &config("proj", "dist", false), &mut host).unwrap();
    assert_eq!(built.wasm_file_path, "dist/tool.wasm");
}
