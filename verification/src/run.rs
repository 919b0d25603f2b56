//! The platform seam: what may be run, and what became of it.
//!
//! A tool is run with an *argument vector*, never a shell string: nothing is ever
//! interpolated into a shell. Two layers gate every run: the allowlist is the outer bound,
//! the capability the inner one.
use crate::args::{quoting, quoting_text};
use crate::call::{outcome, Call, CallView, Error, Failure};
use crate::number::{signed_decimal, signed_decimal_text};
use crate::text::{join, join_texts, listed, texts_of, trim, trimmed};
use vstd::prelude::*;
use vstd::string::StringExecFns;
use vstd::utf8::{decode_utf8, valid_utf8};

verus! {

/// The tools that may be run. Anything else is refused before a process is created.
pub const ALLOWED_TOOLS: [&'static str; 4] = ["git", "gh", "cargo", "just"];

/// A run that has passed the gates: a tool, its argument vector and its working directory.
#[derive(Debug, PartialEq, Eq)]
pub struct Command {
    /// The tool.
    pub tool: String,
    /// The argument vector.
    pub args: Vec<String>,
    /// The working directory; the process's own where there is none.
    pub dir: Option<String>,
}

/// A [`Command`] as plain text.
#[verifier::ext_equal]
pub struct CommandView {
    pub tool: Seq<char>,
    pub args: Seq<Seq<char>>,
    pub dir: Option<Seq<char>>,
}

impl DeepView for Command {
    type V = CommandView;

    open spec fn deep_view(&self) -> CommandView {
        CommandView {
            tool: self.tool@,
            args: self.args.deep_view(),
            dir: self.dir.deep_view(),
        }
    }
}

/// The scope that running a tool requires.
pub open spec fn exec_scope(tool: Seq<char>) -> Seq<char> {
    "urn:cap:exec:"@ + tool
}

/// What is said of a tool that is not on the allowlist.
pub open spec fn not_allowlisted(tool: Seq<char>) -> Seq<char> {
    "exec: `"@ + tool + "` is not an allowlisted tool ("@ + join(
        ALLOWED_TOOLS.deep_view(),
        ", "@,
    ) + ")"@
}

/// What is said of a scope that is not granted.
pub open spec fn not_granted(scope: Seq<char>) -> Seq<char> {
    quoting("exec: capability does not grant `"@, scope)
}

/// The run that a call may make of a tool, or why it may not: first the tool must be on the
/// allowlist, then its scope must be granted.
pub open spec fn gated(call: CallView, command: CommandView) -> Result<CommandView, Failure> {
    if !ALLOWED_TOOLS.deep_view().contains(command.tool) {
        Err(Failure::Endpoint(not_allowlisted(command.tool)))
    } else if !call.allows(exec_scope(command.tool)) {
        Err(Failure::Denied(not_granted(exec_scope(command.tool))))
    } else {
        Ok(command)
    }
}

/// Gate a run of a tool with an argument vector in a directory: the tool must be
/// allowlisted, and the call must hold the tool's scope. A missing capability is a typed,
/// permanent [`Error::Denied`].
pub fn gate(call: &Call, command: Command) -> (run: Result<Command, Error>)
    ensures
        outcome(run) == gated(call@, command.deep_view()),
{
    let tool = command.tool.as_str();
    if !listed(&ALLOWED_TOOLS, tool) {
        let mut why = "exec: `".to_string();
        why.append(tool);
        why.append("` is not an allowlisted tool (");
        why.append(join_texts(&texts_of(&ALLOWED_TOOLS), ", ").as_str());
        why.append(")");
        return Err(Error::Endpoint(why));
    }
    let mut scope = "urn:cap:exec:".to_string();
    scope.append(tool);
    if !call.allows(scope.as_str()) {
        return Err(
            Error::Denied(quoting_text("exec: capability does not grant `", scope.as_str())),
        );
    }
    Ok(command)
}

/// How a run ended.
#[derive(Debug, PartialEq, Eq)]
pub enum Ended {
    /// No process came of it, and why.
    NotStarted(String),
    /// The process exited.
    Exited {
        /// Whether it exited with success.
        success: bool,
        /// Its exit code, where it has one.
        code: Option<i32>,
        /// What it wrote.
        stdout: Vec<u8>,
        /// What it said of errors.
        stderr: Vec<u8>,
    },
}

/// An [`Ended`] as plain values.
#[verifier::ext_equal]
pub enum EndedView {
    NotStarted(Seq<char>),
    Exited { success: bool, code: Option<i32>, stdout: Seq<u8>, stderr: Seq<u8> },
}

impl DeepView for Ended {
    type V = EndedView;

    open spec fn deep_view(&self) -> EndedView {
        match self {
            Ended::NotStarted(why) => EndedView::NotStarted(why@),
            Ended::Exited { success, code, stdout, stderr } => EndedView::Exited {
                success: *success,
                code: *code,
                stdout: stdout@,
                stderr: stderr@,
            },
        }
    }
}

/// What bytes read as when every part that is not valid UTF-8 is replaced.
pub uninterp spec fn utf8_lossy(bytes: Seq<u8>) -> Seq<char>;

/// `String::from_utf8_lossy`: the bytes as text, with what is not valid UTF-8 replaced by
/// the replacement character; valid UTF-8 is decoded as it is. Which parts count as one
/// replacement is left to the name.
#[verifier::external_body]
fn from_utf8_lossy(bytes: &[u8]) -> (s: String)
    ensures
        s@ == utf8_lossy(bytes@),
        valid_utf8(bytes@) ==> s@ == decode_utf8(bytes@),
{
    String::from_utf8_lossy(bytes).into_owned()
}

/// What a process that exited comes to: what it wrote where it succeeded, and otherwise its
/// code and what it said of errors.
pub open spec fn exit_result(
    tool: Seq<char>,
    success: bool,
    code: Option<i32>,
    stdout: Seq<char>,
    stderr: Seq<char>,
) -> Result<Seq<char>, Failure> {
    if success {
        Ok(stdout)
    } else {
        let code = match code {
            Some(code) => code as int,
            None => -1int,
        };
        Err(
            Failure::Endpoint(
                "exec: `"@ + tool + "` exited "@ + signed_decimal(code) + ": "@ + trim(stderr),
            ),
        )
    }
}

/// What a process that exited comes to, from the text that it wrote.
pub fn exited(
    tool: &str,
    success: bool,
    code: Option<i32>,
    stdout: String,
    stderr: &str,
) -> (result: Result<String, Error>)
    ensures
        outcome(result) == exit_result(tool@, success, code, stdout@, stderr@),
{
    if success {
        Ok(stdout)
    } else {
        let code: i32 = match code {
            Some(code) => code,
            None => -1,
        };
        let mut why = "exec: `".to_string();
        why.append(tool);
        why.append("` exited ");
        why.append(signed_decimal_text(code).as_str());
        why.append(": ");
        why.append(trimmed(stderr).as_str());
        Err(Error::Endpoint(why))
    }
}

/// What a run of a tool comes to.
pub open spec fn ended_result(tool: Seq<char>, ended: EndedView) -> Result<Seq<char>, Failure> {
    match ended {
        EndedView::NotStarted(why) => Err(
            Failure::Endpoint("exec: could not run `"@ + tool + "`: "@ + why),
        ),
        EndedView::Exited { success, code, stdout, stderr } => exit_result(
            tool,
            success,
            code,
            utf8_lossy(stdout),
            utf8_lossy(stderr),
        ),
    }
}

/// What a run of a tool comes to: what it wrote on success; a failed start or an exit
/// without success is an [`Error::Endpoint`] that says why, so a caller sees it as data.
pub fn conclude(tool: &str, ended: Ended) -> (result: Result<String, Error>)
    ensures
        outcome(result) == ended_result(tool@, ended.deep_view()),
        ended matches Ended::Exited { success, stdout, .. } ==> (success && valid_utf8(stdout@)
            ==> outcome(result) == Ok::<Seq<char>, Failure>(decode_utf8(stdout@))),
{
    match ended {
        Ended::NotStarted(why) => {
            let mut message = "exec: could not run `".to_string();
            message.append(tool);
            message.append("`: ");
            message.append(why.as_str());
            Err(Error::Endpoint(message))
        },
        Ended::Exited { success, code, stdout, stderr } => {
            let written = from_utf8_lossy(stdout.as_slice());
            let said = from_utf8_lossy(stderr.as_slice());
            exited(tool, success, code, written, said.as_str())
        },
    }
}

} // verus!
