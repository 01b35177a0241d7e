//! External commands: how a tool is probed, how a command is announced and
//! reported on, and where a built file is copied to.
//!
//! Nothing here starts a process. The embedding program runs the commands and
//! hands back what came of them, as a `ProbeOutcome` or a `CommandOutput`.

use crate::error::{PluginError, PluginErrorView, PluginResult};
use crate::path::{file_name_of, joined, PathResolver};
use crate::text::{lossy_text, lossy_text_of, same_text};
use vstd::prelude::*;
use vstd::string::*;

verus! {

/// What came of asking a tool for its version.
#[derive(Debug, Clone, Copy, PartialEq, Eq, Structural)]
pub enum ProbeOutcome {
    /// The tool could not be started.
    NotStarted,
    /// The tool ran and exited.
    Exited { success: bool },
}

impl ProbeOutcome {
    /// A tool counts as installed where it ran and exited with success.
    pub open spec fn installed(self) -> bool {
        self == (ProbeOutcome::Exited { success: true })
    }
}

/// What a finished command leaves behind.
#[derive(Debug)]
pub struct CommandOutput {
    /// Whether the command exited with success.
    pub success: bool,
    /// What it wrote to its standard output.
    pub stdout: Vec<u8>,
    /// What it wrote to its standard error.
    pub stderr: Vec<u8>,
}

/// A `CommandOutput` with its bytes as sequences.
pub struct CommandOutputView {
    pub success: bool,
    pub stdout: Seq<u8>,
    pub stderr: Seq<u8>,
}

impl View for CommandOutput {
    type V = CommandOutputView;

    open spec fn view(&self) -> CommandOutputView {
        CommandOutputView { success: self.success, stdout: self.stdout@, stderr: self.stderr@ }
    }
}

/// A command for the embedding program to run.
#[derive(Debug)]
pub struct CommandLine {
    pub program: String,
    pub arguments: Vec<String>,
    pub working_directory: String,
    /// Whether the command and its output are to be shown.
    pub verbose: bool,
}

/// A `CommandLine` with its texts as sequences of characters.
pub struct CommandLineView {
    pub program: Seq<char>,
    pub arguments: Seq<Seq<char>>,
    pub working_directory: Seq<char>,
    pub verbose: bool,
}

impl View for CommandLine {
    type V = CommandLineView;

    open spec fn view(&self) -> CommandLineView {
        CommandLineView {
            program: self.program@,
            arguments: self.arguments.deep_view(),
            working_directory: self.working_directory@,
            verbose: self.verbose,
        }
    }
}

/// The argument that makes a tool print its version: `version` for TinyGo,
/// `--version` for every other tool.
pub open spec fn version_argument_of(tool: Seq<char>) -> Seq<char> {
    if tool == "tinygo"@ {
        "version"@
    } else {
        "--version"@
    }
}

/// The words with one space between each two of them.
pub open spec fn spaced(words: Seq<Seq<char>>) -> Seq<char>
    decreases words.len(),
{
    if words.len() == 0 {
        Seq::empty()
    } else if words.len() == 1 {
        words[0]
    } else {
        spaced(words.drop_last()) + seq![' '] + words.last()
    }
}

/// The line that announces a command.
pub open spec fn execution_notice_of(
    command_name: Seq<char>,
    arguments: Seq<Seq<char>>,
    working_directory: Seq<char>,
) -> Seq<char> {
    "Executing: "@ + command_name + seq![' '] + spaced(arguments) + " in "@ + working_directory
}

/// The lines that report on a finished command: its output, and its error
/// output where it wrote any.
pub open spec fn report_lines_of(
    stdout_text: Seq<char>,
    stderr_text: Seq<char>,
    stderr_is_empty: bool,
) -> Seq<Seq<char>> {
    if stderr_is_empty {
        seq!["Command output: "@ + stdout_text]
    } else {
        seq!["Command output: "@ + stdout_text, "Command stderr: "@ + stderr_text]
    }
}

/// The failure that is reported where a built file is not where it should be.
pub open spec fn output_not_found(language_name: Seq<char>) -> PluginErrorView {
    PluginErrorView::CompilationFailed {
        reason: language_name + " build completed but output file was not found"@,
    }
}

/// The decisions around running external commands.
pub struct CommandExecutor;

impl CommandExecutor {
    /// The argument with which `tool_name` is asked for its version.
    pub fn version_argument(tool_name: &str) -> (argument: &'static str)
        ensures
            argument@ == version_argument_of(tool_name@),
    {
        if same_text(tool_name, "tinygo") {
            "version"
        } else {
            "--version"
        }
    }

    /// Whether the probe of a tool shows that it is installed.
    pub fn is_tool_installed(outcome: ProbeOutcome) -> (installed: bool)
        ensures
            installed == outcome.installed(),
    {
        match outcome {
            ProbeOutcome::NotStarted => false,
            ProbeOutcome::Exited { success } => success,
        }
    }

    /// The line to show before a command is run verbosely.
    pub fn execution_notice(
        command_name: &str,
        arguments: &Vec<String>,
        working_directory: &str,
    ) -> (notice: String)
        ensures
            notice@ == execution_notice_of(
                command_name@,
                arguments.deep_view(),
                working_directory@,
            ),
    {
        let mut words = String::new();
        let mut i: usize = 0;
        while i < arguments.len()
            invariant
                i <= arguments.len(),
                words@ == spaced(arguments.deep_view().subrange(0, i as int)),
            decreases arguments.len() - i,
        {
            proof {
                reveal_strlit(" ");
                assert(arguments.deep_view().subrange(0, i + 1).drop_last()
                    =~= arguments.deep_view().subrange(0, i as int));
            }
            if i > 0 {
                words.append(" ");
            }
            words.append(arguments[i].as_str());
            i += 1;
        }
        proof {
            assert(arguments.deep_view().subrange(0, i as int) =~= arguments.deep_view());
            reveal_strlit(" ");
        }
        String::from_str("Executing: ").concat(command_name).concat(" ").concat(
            words.as_str(),
        ).concat(" in ").concat(working_directory)
    }

    /// The lines to show after a command was run verbosely.
    pub fn output_report(output: &CommandOutput) -> (lines: Vec<String>)
        ensures
            lines.deep_view() == report_lines_of(
                lossy_text_of(output@.stdout),
                lossy_text_of(output@.stderr),
                output@.stderr.len() == 0,
            ),
    {
        let stdout_text = lossy_text(&output.stdout);
        let stderr_text = lossy_text(&output.stderr);
        Self::report_lines(stdout_text.as_str(), stderr_text.as_str(), output.stderr.len() == 0)
    }

    /// The lines that report on a command, from the texts that it wrote.
    pub fn report_lines(stdout_text: &str, stderr_text: &str, stderr_is_empty: bool) -> (lines: Vec<
        String,
    >)
        ensures
            lines.deep_view() == report_lines_of(stdout_text@, stderr_text@, stderr_is_empty),
    {
        let mut lines: Vec<String> = Vec::new();
        lines.push(String::from_str("Command output: ").concat(stdout_text));
        if !stderr_is_empty {
            lines.push(String::from_str("Command stderr: ").concat(stderr_text));
        }
        lines
    }

    /// Where the file at `source_file_path` is to be copied to, below
    /// `output_directory`. There is nothing to copy where the source is not
    /// there, or where its path names no file.
    pub fn copy_to_output_directory(
        source_file_path: &str,
        output_directory: &str,
        language_name: &str,
        source_exists: bool,
    ) -> (destination: PluginResult<String>)
        ensures
            match destination {
                Ok(path) => source_exists && file_name_of(source_file_path@) is Some && path@
                    == joined(output_directory@, file_name_of(source_file_path@)->0),
                Err(error) => !(source_exists && file_name_of(source_file_path@) is Some)
                    && error@ == output_not_found(language_name@),
            },
    {
        if source_exists {
            if let Some(name) = PathResolver::file_name(source_file_path) {
                return Ok(PathResolver::join_paths(output_directory, name.as_str()));
            }
        }
        Err(
            PluginError::CompilationFailed {
                reason: String::from_str(language_name).concat(
                    " build completed but output file was not found",
                ),
            },
        )
    }
}

} // verus!
