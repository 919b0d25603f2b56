//! The endpoints that run a tool: the low-level seam and the typed facades over it. Each
//! builds its invocation, and turns what the tool wrote into what is served.
use crate::args::{
    asks_json, limit, parse_limit, parse_path, parse_pr, path, pr_number, quoting, quoting_text,
    wants_json,
};
use crate::argv::{
    flag, log_args, log_argv, pr_args, pr_argv, pr_files_args, pr_files_argv, pr_list_args,
    pr_list_argv, push_flag, PR_LIST_STATES,
};
use crate::call::{outcome, Call, CallView, Error, Failure};
use crate::log::{commits_in, document, log_json};
use crate::repr::{body_as, json, text, ReprView, Representation};
use crate::run::{
    conclude, ended_result, gate, gated, Command, CommandView, Ended, EndedView,
};
use crate::text::{join, join_texts, lines, listed, push_text, split, split_text, texts_of};
use vstd::prelude::*;
use vstd::string::StringExecFns;
use vstd::utf8::{decode_utf8, decode_utf8_encode_utf8, valid_utf8};

verus! {

/// An endpoint that runs a tool.
#[derive(Debug, PartialEq, Eq)]
pub enum Facade {
    /// `urn:system:exec`, the low-level seam: `tool=` (allowlisted), `args=`
    /// (newline-separated argument vector) and optional `dir=`.
    Exec,
    /// A `git`-backed read: `git -C <dir> <args…>`.
    Git {
        /// The endpoint's identifier.
        id: String,
        /// Its title.
        title: String,
        /// Its summary.
        summary: String,
        /// The arguments behind the directory.
        git_args: Vec<String>,
    },
    /// A `gh`-backed read over a pull request: `gh <sub…> <pr> [--repo R]`, run in `dir`
    /// (or against `--repo owner/name`). `pr=` is required. Where there are fields,
    /// `as=application/json` selects a structured face (`gh … --json <fields>`), passed
    /// through verbatim.
    Pr {
        /// The endpoint's identifier.
        id: String,
        /// Its title.
        title: String,
        /// Its summary.
        summary: String,
        /// The subcommand.
        sub: Vec<String>,
        /// The fields of the structured face.
        json_fields: Option<String>,
    },
    /// `urn:repo:pr:files`, the paths that a pull request changes. Default face is one path
    /// per line; `as=application/json` passes gh's export through.
    PrFiles,
    /// `urn:repo:pr:list`, the pull requests, most recently updated first. `state=` filters
    /// (open by default; `all` for a mixed listing). Both faces are built from the same
    /// `--json` export so they cannot drift.
    PrList,
    /// `urn:repo:log`, recent history. The default face is `git log --oneline`;
    /// `as=application/json` renders `[{hash, author, date, subject}]` (full sha, author
    /// name, RFC 3339 author date) parsed from a unit-separator-delimited pretty format; a
    /// subject that somehow carries a separator merely truncates its own entry's subject.
    /// `path=` restricts either face to the commits that touched a file or subtree.
    Log,
}

/// A [`Facade`] as plain text.
#[verifier::ext_equal]
pub enum FacadeView {
    Exec,
    Git { id: Seq<char>, title: Seq<char>, summary: Seq<char>, git_args: Seq<Seq<char>> },
    Pr {
        id: Seq<char>,
        title: Seq<char>,
        summary: Seq<char>,
        sub: Seq<Seq<char>>,
        json_fields: Option<Seq<char>>,
    },
    PrFiles,
    PrList,
    Log,
}

impl DeepView for Facade {
    type V = FacadeView;

    open spec fn deep_view(&self) -> FacadeView {
        match self {
            Facade::Exec => FacadeView::Exec,
            Facade::Git { id, title, summary, git_args } => FacadeView::Git {
                id: id@,
                title: title@,
                summary: summary@,
                git_args: git_args.deep_view(),
            },
            Facade::Pr { id, title, summary, sub, json_fields } => FacadeView::Pr {
                id: id@,
                title: title@,
                summary: summary@,
                sub: sub.deep_view(),
                json_fields: json_fields.deep_view(),
            },
            Facade::PrFiles => FacadeView::PrFiles,
            Facade::PrList => FacadeView::PrList,
            Facade::Log => FacadeView::Log,
        }
    }
}

/// `urn:system:exec`.
pub fn system_exec() -> (facade: Facade)
    ensures
        facade.deep_view() == FacadeView::Exec,
{
    Facade::Exec
}

/// A `git`-backed read facade: builds `git -C <dir> <args…>` and runs it.
pub fn git_facade(id: &str, title: &str, summary: &str, git_args: &[&str]) -> (facade: Facade)
    ensures
        facade.deep_view() == (FacadeView::Git {
            id: id@,
            title: title@,
            summary: summary@,
            git_args: git_args.deep_view(),
        }),
{
    Facade::Git {
        id: id.to_string(),
        title: title.to_string(),
        summary: summary.to_string(),
        git_args: texts_of(git_args),
    }
}

/// A `gh`-backed read facade over a pull request.
pub fn gh_pr_facade(
    id: &str,
    title: &str,
    summary: &str,
    sub: &[&str],
    json_fields: Option<&str>,
) -> (facade: Facade)
    ensures
        facade.deep_view() == (FacadeView::Pr {
            id: id@,
            title: title@,
            summary: summary@,
            sub: sub.deep_view(),
            json_fields: json_fields.deep_view(),
        }),
{
    Facade::Pr {
        id: id.to_string(),
        title: title.to_string(),
        summary: summary.to_string(),
        sub: texts_of(sub),
        json_fields: match json_fields {
            Some(fields) => Some(fields.to_string()),
            None => None,
        },
    }
}

/// `urn:repo:pr:files`.
pub fn pr_files() -> (facade: Facade)
    ensures
        facade.deep_view() == FacadeView::PrFiles,
{
    Facade::PrFiles
}

/// `urn:repo:pr:list`.
pub fn pr_list() -> (facade: Facade)
    ensures
        facade.deep_view() == FacadeView::PrList,
{
    Facade::PrList
}

/// `urn:repo:log`.
pub fn log() -> (facade: Facade)
    ensures
        facade.deep_view() == FacadeView::Log,
{
    Facade::Log
}

/// The arguments that a text gives, one per line; empty lines give none.
pub open spec fn exec_argv(s: Seq<char>) -> Seq<Seq<char>> {
    split(s, '\n').filter(|a: Seq<char>| a.len() > 0)
}

/// The arguments that a text gives, one per line.
pub fn exec_args(s: &str) -> (args: Vec<String>)
    ensures
        args.deep_view() == exec_argv(s@),
{
    let pieces = split_text(s, '\n');
    let ghost all = pieces.deep_view();
    let ghost kept = |a: Seq<char>| a.len() > 0;
    let mut args: Vec<String> = Vec::new();
    let mut i: usize = 0;
    reveal(Seq::filter);
    assert(args.deep_view() =~= all.take(0).filter(kept));
    while i < pieces.len()
        invariant
            i <= pieces.len(),
            all == pieces.deep_view(),
            kept == (|a: Seq<char>| a.len() > 0),
            args.deep_view() == all.take(i as int).filter(kept),
        decreases pieces.len() - i,
    {
        reveal(Seq::filter);
        assert(all.take(i + 1).drop_last() =~= all.take(i as int));
        assert(all.take(i + 1).last() == pieces@[i as int]@);
        if !pieces[i].as_str().is_empty() {
            push_text(&mut args, pieces[i].as_str());
        }
        i = i + 1;
    }
    assert(all.take(i as int) =~= all);
    args
}

/// Whether the face that a call of a facade is served is JSON.
pub open spec fn serves_json(facade: FacadeView, call: CallView) -> bool {
    match facade {
        FacadeView::Exec => false,
        FacadeView::Git { .. } => false,
        FacadeView::Pr { json_fields, .. } => json_fields is Some && asks_json(call),
        FacadeView::PrFiles => asks_json(call),
        FacadeView::PrList => asks_json(call),
        FacadeView::Log => asks_json(call),
    }
}

/// The pull-request state that a call filters by.
pub open spec fn state_of(call: CallView) -> Seq<char> {
    match call.arg("state"@) {
        Some(state) => state,
        None => "open"@,
    }
}

/// What is said of a state outside the vocabulary.
pub open spec fn bad_state(state: Seq<char>) -> Seq<char> {
    quoting(
        "state must be one of "@ + join(PR_LIST_STATES.deep_view(), ", "@) + ", got `"@,
        state,
    )
}

/// The run that a call asks of a facade, before the gates, or why its arguments do not do.
pub open spec fn wanted(facade: FacadeView, call: CallView) -> Result<CommandView, Failure> {
    let dir = call.arg("dir"@);
    let repo = call.arg("repo"@);
    match facade {
        FacadeView::Exec => match call.arg("tool"@) {
            None => Err(Failure::MissingArgument("tool (git, gh, cargo, just)"@)),
            Some(tool) => Ok(
                CommandView {
                    tool,
                    args: exec_argv(
                        match call.arg("args"@) {
                            Some(args) => args,
                            None => Seq::empty(),
                        },
                    ),
                    dir,
                },
            ),
        },
        FacadeView::Git { git_args, .. } => Ok(
            CommandView { tool: "git"@, args: flag("-C"@, dir) + git_args, dir: None },
        ),
        FacadeView::Pr { sub, json_fields, .. } => match pr_number(call) {
            Err(failure) => Err(failure),
            Ok(pr) => {
                let fields = if asks_json(call) {
                    json_fields
                } else {
                    None
                };
                Ok(
                    CommandView { tool: "gh"@, args: pr_argv(sub, pr as nat, fields, repo), dir },
                )
            },
        },
        FacadeView::PrFiles => match pr_number(call) {
            Err(failure) => Err(failure),
            Ok(pr) => Ok(
                CommandView {
                    tool: "gh"@,
                    args: pr_files_argv(pr as nat, asks_json(call), repo),
                    dir,
                },
            ),
        },
        FacadeView::PrList => {
            let state = state_of(call);
            if !PR_LIST_STATES.deep_view().contains(state) {
                Err(Failure::Endpoint(bad_state(state)))
            } else {
                match limit(call, 30) {
                    Err(failure) => Err(failure),
                    Ok(count) => Ok(
                        CommandView {
                            tool: "gh"@,
                            args: pr_list_argv(state, count as nat, asks_json(call), repo),
                            dir,
                        },
                    ),
                }
            }
        },
        FacadeView::Log => match limit(call, 20) {
            Err(failure) => Err(failure),
            Ok(count) => match path(call) {
                Err(failure) => Err(failure),
                Ok(path) => Ok(
                    CommandView {
                        tool: "git"@,
                        args: log_argv(dir, count as nat, asks_json(call), path),
                        dir: None,
                    },
                ),
            },
        },
    }
}

/// The run that a call makes of a facade, or why it makes none: its arguments are read
/// first, then the gates are passed.
pub open spec fn planned(facade: FacadeView, call: CallView) -> Result<CommandView, Failure> {
    match wanted(facade, call) {
        Err(failure) => Err(failure),
        Ok(command) => gated(call, command),
    }
}

/// What a facade serves of what its tool wrote.
pub open spec fn rendered(facade: FacadeView, call: CallView, out: Seq<char>) -> ReprView {
    let as_json = serves_json(facade, call);
    if facade is Log && as_json {
        body_as(document(commits_in(lines(out))), true)
    } else {
        body_as(out, as_json)
    }
}

/// What a call of a facade comes to once its tool has been run.
pub open spec fn finished(
    facade: FacadeView,
    call: CallView,
    tool: Seq<char>,
    ended: EndedView,
) -> Result<ReprView, Failure> {
    match ended_result(tool, ended) {
        Err(failure) => Err(failure),
        Ok(out) => Ok(rendered(facade, call, out)),
    }
}

/// An optional text, owned.
fn owned(s: Option<&str>) -> (o: Option<String>)
    ensures
        o.deep_view() == s.deep_view(),
{
    match s {
        Some(s) => Some(s.to_string()),
        None => None,
    }
}

/// The texts of a list once more.
fn copied(list: &Vec<String>) -> (copy: Vec<String>)
    ensures
        copy.deep_view() == list.deep_view(),
{
    let mut copy: Vec<String> = Vec::new();
    push_all(&mut copy, list);
    assert(copy.deep_view() =~= list.deep_view());
    copy
}

/// Append a list of texts.
fn push_all(args: &mut Vec<String>, list: &Vec<String>)
    ensures
        final(args).deep_view() == old(args).deep_view() + list.deep_view(),
{
    let mut i: usize = 0;
    assert(args.deep_view() =~= old(args).deep_view() + list.deep_view().take(0));
    while i < list.len()
        invariant
            i <= list.len(),
            args.deep_view() == old(args).deep_view() + list.deep_view().take(i as int),
        decreases list.len() - i,
    {
        push_text(args, list[i].as_str());
        assert(args.deep_view() =~= old(args).deep_view() + list.deep_view().take(i + 1));
        i = i + 1;
    }
    assert(list.deep_view().take(i as int) =~= list.deep_view());
}

impl Facade {
    /// Whether the face that a call is served is JSON.
    fn answers_json(&self, call: &Call) -> (yes: bool)
        ensures
            yes == serves_json(self.deep_view(), call@),
    {
        match self {
            Facade::Exec => false,
            Facade::Git { .. } => false,
            Facade::Pr { json_fields, .. } => json_fields.is_some() && wants_json(call),
            Facade::PrFiles => wants_json(call),
            Facade::PrList => wants_json(call),
            Facade::Log => wants_json(call),
        }
    }

    /// The run that a call asks for, before the gates.
    fn want(&self, call: &Call) -> (command: Result<Command, Error>)
        ensures
            outcome(command) == wanted(self.deep_view(), call@),
    {
        let dir = call.inline_str("dir");
        let repo = call.inline_str("repo");
        match self {
            Facade::Exec => match call.inline_str("tool") {
                None => Err(Error::MissingArgument("tool (git, gh, cargo, just)".to_string())),
                Some(tool) => {
                    let args = match call.inline_str("args") {
                        Some(args) => exec_args(args),
                        None => exec_args(String::new().as_str()),
                    };
                    Ok(Command { tool: tool.to_string(), args, dir: owned(dir) })
                },
            },
            Facade::Git { git_args, .. } => {
                let mut args: Vec<String> = Vec::new();
                push_flag(&mut args, "-C", dir);
                push_all(&mut args, git_args);
                assert(args.deep_view() =~= flag("-C"@, dir.deep_view())
                    + git_args.deep_view());
                Ok(Command { tool: "git".to_string(), args, dir: None })
            },
            Facade::Pr { sub, json_fields, .. } => match parse_pr(call) {
                Err(error) => Err(error),
                Ok(pr) => {
                    let fields: Option<&str> = match json_fields {
                        Some(fields) => if wants_json(call) {
                            Some(fields.as_str())
                        } else {
                            None
                        },
                        None => None,
                    };
                    let args = pr_args(copied(sub), pr, fields, repo);
                    Ok(Command { tool: "gh".to_string(), args, dir: owned(dir) })
                },
            },
            Facade::PrFiles => match parse_pr(call) {
                Err(error) => Err(error),
                Ok(pr) => {
                    let args = pr_files_args(pr, wants_json(call), repo);
                    Ok(Command { tool: "gh".to_string(), args, dir: owned(dir) })
                },
            },
            Facade::PrList => {
                let state = match call.inline_str("state") {
                    Some(state) => state,
                    None => "open",
                };
                if !listed(&PR_LIST_STATES, state) {
                    let mut why = "state must be one of ".to_string();
                    why.append(join_texts(&texts_of(&PR_LIST_STATES), ", ").as_str());
                    why.append(", got `");
                    return Err(Error::Endpoint(quoting_text(why.as_str(), state)));
                }
                match parse_limit(call, 30) {
                    Err(error) => Err(error),
                    Ok(count) => {
                        let args = pr_list_args(state, count, wants_json(call), repo);
                        Ok(Command { tool: "gh".to_string(), args, dir: owned(dir) })
                    },
                }
            },
            Facade::Log => match parse_limit(call, 20) {
                Err(error) => Err(error),
                Ok(count) => match parse_path(call) {
                    Err(error) => Err(error),
                    Ok(pathspec) => {
                        let pathspec: Option<&str> = match &pathspec {
                            Some(s) => Some(s.as_str()),
                            None => None,
                        };
                        let args = log_args(dir, count, wants_json(call), pathspec);
                        Ok(Command { tool: "git".to_string(), args, dir: None })
                    },
                },
            },
        }
    }

    /// The run that a call makes, or why it makes none: nothing is run that is not in the
    /// result, and a refusal comes before any process.
    pub fn plan(&self, call: &Call) -> (command: Result<Command, Error>)
        ensures
            outcome(command) == planned(self.deep_view(), call@),
    {
        match self.want(call) {
            Err(error) => Err(error),
            Ok(command) => gate(call, command),
        }
    }

    /// What is served of what the tool wrote.
    pub fn render(&self, call: &Call, out: String) -> (repr: Representation)
        ensures
            repr.deep_view() == rendered(self.deep_view(), call@, out@),
    {
        let as_json = self.answers_json(call);
        match self {
            Facade::Log => if as_json {
                return json(log_json(out.as_str()));
            },
            _ => {},
        }
        if as_json {
            json(out)
        } else {
            text(out)
        }
    }

    /// What a call comes to once its tool has been run. Valid UTF-8 counts as the text
    /// that it decodes to, and a face that passes the output through serves it byte for byte.
    pub fn finish(&self, call: &Call, tool: &str, ended: Ended) -> (repr: Result<
        Representation,
        Error,
    >)
        ensures
            outcome(repr) == finished(self.deep_view(), call@, tool@, ended.deep_view()),
            ended matches Ended::Exited { success, stdout, .. } ==> (success && valid_utf8(
                stdout@,
            ) ==> outcome(repr) == Ok::<ReprView, Failure>(
                rendered(self.deep_view(), call@, decode_utf8(stdout@)),
            )),
            ended matches Ended::Exited { success, stdout, .. } ==> (success && valid_utf8(
                stdout@,
            ) && !(self is Log && asks_json(call@)) ==> repr is Ok && repr->Ok_0.bytes@
                == stdout@),
    {
        let ghost written = ended->stdout@;
        match conclude(tool, ended) {
            Err(error) => Err(error),
            Ok(out) => {
                proof {
                    if valid_utf8(written) {
                        decode_utf8_encode_utf8(written);
                    }
                }
                Ok(self.render(call, out))
            },
        }
    }
}

} // verus!
