//! Forwarding one prompt: the text and the request that carry it to the
//! command-line tool, and the reply made of how the run ended.

use crate::invocation::{texts, InvocationOutcome, InvocationRequest, OutcomeView, RequestView};
use crate::text::{text_of, trim, trimmed};
use crate::tool::{Tool, ToolView};
use vstd::prelude::*;
use vstd::string::StringExecFns;

verus! {

/// What a [`ClaudeResponse`] stands for.
pub struct ResponseView {
    pub content: Seq<char>,
    pub error: Option<Seq<char>>,
    pub cli_not_found: bool,
}

impl ResponseView {
    /// A reply that reports the tool as missing carries no content.
    pub open spec fn wf(self) -> bool {
        self.cli_not_found ==> self.content.len() == 0
    }
}

/// The reply to a prompt. `error` may stand beside content: the tool
/// wrote to its error stream and still gave an answer.
#[derive(Debug, Clone, PartialEq, Eq)]
pub struct ClaudeResponse {
    pub content: String,
    pub error: Option<String>,
    pub cli_not_found: bool,
}

impl View for ClaudeResponse {
    type V = ResponseView;

    open spec fn view(&self) -> ResponseView {
        ResponseView {
            content: self.content@,
            error: text_of(self.error),
            cli_not_found: self.cli_not_found,
        }
    }
}

/// The text sent to the tool: the prompt alone, or the system prompt, an
/// empty line, `User: ` and the prompt.
pub open spec fn full_prompt_of(prompt: Seq<char>, system_prompt: Option<Seq<char>>) -> Seq<char> {
    match system_prompt {
        Some(system) => system + "\n\nUser: "@ + prompt,
        None => prompt,
    }
}

/// The run that forwards a prompt to `tool`: its command with the
/// arguments `-p`, the text, `--output-format` and `text`, and with no
/// bound on its time.
pub open spec fn prompt_request_of(
    tool: ToolView,
    prompt: Seq<char>,
    system_prompt: Option<Seq<char>>,
) -> RequestView {
    RequestView {
        command: tool.command,
        args: seq!["-p"@, full_prompt_of(prompt, system_prompt), "--output-format"@, "text"@],
        timeout_secs: None,
    }
}

/// The error text of a run that failed without a word on either stream.
pub open spec fn exit_error_message(tool: ToolView) -> Seq<char> {
    tool.name + " CLI exited with an error"@
}

/// The error text of a run that was cut short by its deadline.
pub open spec fn timeout_error_message(tool: ToolView) -> Seq<char> {
    tool.name + " CLI timed out"@
}

/// The reply made of an outcome.
///
/// - The process did not start: no content, the reason as error, and
///   `cli_not_found` as the outcome has it.
/// - The run timed out: no content, and an error that says so.
/// - The process failed and its trimmed output is empty: no content; the
///   error is its trimmed error stream or, where that is empty too, a
///   fixed message.
/// - Otherwise, whether the process succeeded or failed: the trimmed
///   output as content, and the trimmed error stream as error unless it
///   is empty.
pub open spec fn response_of(tool: ToolView, outcome: OutcomeView) -> ResponseView {
    match outcome {
        OutcomeView::SpawnFailed { reason, not_found } => ResponseView {
            content: Seq::empty(),
            error: Some(reason),
            cli_not_found: not_found,
        },
        OutcomeView::TimedOut => ResponseView {
            content: Seq::empty(),
            error: Some(timeout_error_message(tool)),
            cli_not_found: false,
        },
        OutcomeView::Completed { exit_success, stdout, stderr } => {
            let content = trim(stdout);
            let diagnostics = trim(stderr);
            if !exit_success && content.len() == 0 {
                ResponseView {
                    content: Seq::empty(),
                    error: Some(
                        if diagnostics.len() == 0 {
                            exit_error_message(tool)
                        } else {
                            diagnostics
                        },
                    ),
                    cli_not_found: false,
                }
            } else {
                ResponseView {
                    content,
                    error: if diagnostics.len() == 0 {
                        None
                    } else {
                        Some(diagnostics)
                    },
                    cli_not_found: false,
                }
            }
        },
    }
}

/// Every reply made of an outcome is well formed.
pub proof fn law_response_well_formed(tool: ToolView, outcome: OutcomeView)
    ensures
        response_of(tool, outcome).wf(),
{
}

/// A reply reports the tool as missing exactly when the process could
/// not be started because the executable was not found.
pub proof fn law_missing_tool_reported(tool: ToolView, outcome: OutcomeView)
    ensures
        response_of(tool, outcome).cli_not_found <==> (outcome matches OutcomeView::SpawnFailed {
            not_found,
            ..
        } && not_found),
{
}

/// A run that produced output never loses it: whenever the trimmed output
/// of a completed run is not empty, it is the content of the reply,
/// whatever the exit status.
pub proof fn law_output_is_kept(
    tool: ToolView,
    exit_success: bool,
    stdout: Seq<char>,
    stderr: Seq<char>,
)
    requires
        trim(stdout).len() > 0,
    ensures
        response_of(tool, OutcomeView::Completed { exit_success, stdout, stderr }).content
            == trim(stdout),
{
}

/// Puts the system prompt, if there is one, before the prompt.
pub fn full_prompt(prompt: String, system_prompt: Option<String>) -> (full: String)
    ensures
        full@ == full_prompt_of(prompt@, text_of(system_prompt)),
{
    match system_prompt {
        Some(system) => system.concat("\n\nUser: ").concat(prompt.as_str()),
        None => prompt,
    }
}

/// The request that forwards `prompt` to `tool`.
pub fn prompt_request(tool: &Tool, prompt: String, system_prompt: Option<String>) -> (request:
    InvocationRequest)
    ensures
        request@ == prompt_request_of(tool@, prompt@, text_of(system_prompt)),
{
    let ghost wanted = prompt_request_of(tool@, prompt@, text_of(system_prompt));
    let mut args: Vec<String> = Vec::new();
    args.push("-p".to_owned());
    args.push(full_prompt(prompt, system_prompt));
    args.push("--output-format".to_owned());
    args.push("text".to_owned());
    assert(texts(args@) =~= wanted.args);
    InvocationRequest::new(tool.command().clone(), args, None)
}

/// Makes the reply of how the run of `tool` ended.
pub fn response_from(tool: &Tool, outcome: InvocationOutcome) -> (response: ClaudeResponse)
    ensures
        response@ == response_of(tool@, outcome@),
        response@.wf(),
{
    match outcome {
        InvocationOutcome::SpawnFailed { reason, not_found } => ClaudeResponse {
            content: String::new(),
            error: Some(reason),
            cli_not_found: not_found,
        },
        InvocationOutcome::TimedOut => ClaudeResponse {
            content: String::new(),
            error: Some(tool.name().clone().concat(" CLI timed out")),
            cli_not_found: false,
        },
        InvocationOutcome::Completed { exit_success, stdout, stderr } => {
            let content = trimmed(stdout.as_str());
            let diagnostics = trimmed(stderr.as_str());
            if !exit_success && content.as_str().is_empty() {
                ClaudeResponse {
                    content: String::new(),
                    error: Some(
                        if diagnostics.as_str().is_empty() {
                            tool.name().clone().concat(" CLI exited with an error")
                        } else {
                            diagnostics
                        },
                    ),
                    cli_not_found: false,
                }
            } else {
                ClaudeResponse {
                    content,
                    error: if diagnostics.as_str().is_empty() {
                        None
                    } else {
                        Some(diagnostics)
                    },
                    cli_not_found: false,
                }
            }
        },
    }
}

} // verus!
