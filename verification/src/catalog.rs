//! What the endpoints say of themselves. The engine routes named arguments by these
//! descriptions and matches on them when it selects, so they are part of the contract.
use crate::argv::PR_LIST_STATES;
use crate::describe::{
    defaulted_input, optional_input, required_input, ArgSpec, ArgSpecView, Description,
    DescriptionView, Verb, XSD_INTEGER, XSD_STRING,
};
use crate::facade::{Facade, FacadeView};
use crate::list::FS_READ;
use crate::run::ALLOWED_TOOLS;
use vstd::prelude::*;
use vstd::string::StringExecFns;

verus! {

/// The type of every text face.
pub const TEXT_OUTPUT: &'static str = "text/plain;charset=utf-8";

/// The type of every structured face.
pub const JSON_OUTPUT: &'static str = "application/json";

/// The faces that `as=` selects.
pub const FACES: [&'static str; 1] = ["application/json"];

/// The summary of `urn:system:exec`.
pub const EXEC_SUMMARY: &'static str =
    "Spawn an allowlisted external tool (git, gh, cargo, just) with an argument \
     vector — never a shell string, so no injection surface. Capability-gated per \
     tool (urn:cap:exec:{tool}). The typed urn:repo:* facades build the invocation.";

/// The summary of `urn:repo:pr:files`.
pub const PR_FILES_SUMMARY: &'static str =
    "The paths a pull request changes (gh pr view --json files), one per line; \
     as=application/json for the structured face ({files: [{path, additions, \
     deletions, changeType}]}). The open-PR half of \"which PRs touch this \
     subtree\" — urn:repo:log path= is the merged half.";

/// The summary of `urn:repo:pr:list`.
pub const PR_LIST_SUMMARY: &'static str =
    "The pull requests, most recently updated first (gh pr list), one per line as \
     number<TAB>title<TAB>state<TAB>branch<TAB>updated (RFC 3339, state \
     OPEN/CLOSED/MERGED); state= filters (default open, all for a mixed listing); \
     as=application/json for the structured face (number, title, state, headRefName, \
     updatedAt). Pass a number to urn:repo:pr:view / :diff / :checks.";

/// The summary of `urn:repo:log`.
pub const LOG_SUMMARY: &'static str =
    "The recent commits: one line each by default (git log --oneline); \
     as=application/json for [{hash, author, date, subject}] with the full sha \
     and RFC 3339 author date. path= restricts to the commits that touched a \
     file or subtree (git log -- <path>) — under squash-merge style, the \
     merged-PR-per-path index.";

/// The summary of `urn:repo:list`.
pub const LIST_SUMMARY: &'static str =
    "Enumerate the git repositories under a ROOT — each as name<TAB>path, one per \
     line — so an agent whose cwd is not a repo (e.g. ikigai mcp) can discover where \
     repos live and pass one as dir= to the urn:repo:* facades. ROOT is root= (arg), \
     else $IKIGAI_REPO_ROOT, else ~/git-personal; immediate child directories only.";

/// The repository directory of a git-backed endpoint.
pub open spec fn git_dir_input() -> ArgSpecView {
    optional_input(
        "dir"@,
        XSD_STRING@,
        "the repository directory (defaults to the process cwd)"@,
    )
}

/// The working directory of a gh-backed endpoint.
pub open spec fn gh_dir_input() -> ArgSpecView {
    optional_input("dir"@, XSD_STRING@, "a repo directory to run in (else the process cwd)"@)
}

/// The repository that a gh-backed endpoint asks about.
pub open spec fn repo_input() -> ArgSpecView {
    optional_input("repo"@, XSD_STRING@, "owner/name (else the repo at dir=/cwd)"@)
}

/// The number of a pull request.
pub open spec fn pr_input() -> ArgSpecView {
    required_input("pr"@, XSD_INTEGER@, "the pull-request number"@)
}

/// The face selector.
pub open spec fn face_input(summary: Seq<char>) -> ArgSpecView {
    optional_input("as"@, XSD_STRING@, summary).one_of(FACES.deep_view())
}

/// What an endpoint that runs a tool says of itself.
pub open spec fn described(facade: FacadeView) -> DescriptionView {
    let verbs = seq![Verb::Source, Verb::Meta];
    let text_only = seq![TEXT_OUTPUT@];
    let both_faces = seq![TEXT_OUTPUT@, JSON_OUTPUT@];
    let structured = "application/json for the structured face"@;
    match facade {
        FacadeView::Exec => DescriptionView {
            id: "system-exec"@,
            title: "Run an allowlisted dev tool"@,
            summary: EXEC_SUMMARY@,
            verbs,
            inputs: seq![
                required_input("tool"@, XSD_STRING@, "the tool to run"@).one_of(
                    ALLOWED_TOOLS.deep_view(),
                ),
                optional_input(
                    "args"@,
                    XSD_STRING@,
                    "the argument vector, one argument per line"@,
                ),
                optional_input(
                    "dir"@,
                    XSD_STRING@,
                    "working directory (defaults to the process cwd)"@,
                ),
            ],
            outputs: text_only,
            requires: seq!["urn:cap:exec:*"@],
        },
        FacadeView::Git { id, title, summary, .. } => DescriptionView {
            id,
            title,
            summary,
            verbs,
            inputs: seq![git_dir_input()],
            outputs: text_only,
            requires: seq!["urn:cap:exec:git"@],
        },
        FacadeView::Pr { id, title, summary, json_fields, .. } => DescriptionView {
            id,
            title,
            summary,
            verbs,
            inputs: match json_fields {
                Some(fields) => seq![
                    pr_input(),
                    repo_input(),
                    gh_dir_input(),
                    face_input("application/json for the structured face ("@ + fields + ")"@),
                ],
                None => seq![pr_input(), repo_input(), gh_dir_input()],
            },
            outputs: if json_fields is Some {
                both_faces
            } else {
                text_only
            },
            requires: seq!["urn:cap:exec:gh"@],
        },
        FacadeView::PrFiles => DescriptionView {
            id: "repo-pr-files"@,
            title: "PR changed files"@,
            summary: PR_FILES_SUMMARY@,
            verbs,
            inputs: seq![pr_input(), repo_input(), gh_dir_input(), face_input(structured)],
            outputs: both_faces,
            requires: seq!["urn:cap:exec:gh"@],
        },
        FacadeView::PrList => DescriptionView {
            id: "repo-pr-list"@,
            title: "Pull requests"@,
            summary: PR_LIST_SUMMARY@,
            verbs,
            inputs: seq![
                defaulted_input("state"@, XSD_STRING@, "which PRs to list by state"@, "open"@)
                    .one_of(PR_LIST_STATES.deep_view()),
                defaulted_input(
                    "limit"@,
                    XSD_INTEGER@,
                    "the maximum number of PRs to list"@,
                    "30"@,
                ),
                repo_input(),
                gh_dir_input(),
                face_input(structured),
            ],
            outputs: both_faces,
            requires: seq!["urn:cap:exec:gh"@],
        },
        FacadeView::Log => DescriptionView {
            id: "repo-log"@,
            title: "Recent history"@,
            summary: LOG_SUMMARY@,
            verbs,
            inputs: seq![
                defaulted_input(
                    "limit"@,
                    XSD_INTEGER@,
                    "the number of commits to show"@,
                    "20"@,
                ),
                optional_input(
                    "path"@,
                    XSD_STRING@,
                    "restrict to commits touching this file or subtree, relative to the repo root"@,
                ),
                git_dir_input(),
                face_input(structured),
            ],
            outputs: both_faces,
            requires: seq!["urn:cap:exec:git"@],
        },
    }
}

/// What `urn:repo:list` says of itself.
pub open spec fn list_described() -> DescriptionView {
    DescriptionView {
        id: "repo-list"@,
        title: "List repositories"@,
        summary: LIST_SUMMARY@,
        verbs: seq![Verb::Source, Verb::Meta],
        inputs: seq![
            optional_input(
                "root"@,
                XSD_STRING@,
                "the directory to scan (default: $IKIGAI_REPO_ROOT, else ~/git-personal)"@,
            ),
        ],
        outputs: seq![TEXT_OUTPUT@],
        requires: seq![FS_READ@],
    }
}

/// An input of a datatype that must be given.
fn required(name: &str, class: &str, summary: &str) -> (arg: ArgSpec)
    ensures
        arg.deep_view() == required_input(name@, class@, summary@),
{
    ArgSpec::new(name).class(class).summary(summary)
}

/// An input of a datatype that may be left out.
fn optional(name: &str, class: &str, summary: &str) -> (arg: ArgSpec)
    ensures
        arg.deep_view() == optional_input(name@, class@, summary@),
{
    required(name, class, summary).optional()
}

/// The repository directory of a git-backed endpoint.
fn git_dir() -> (arg: ArgSpec)
    ensures
        arg.deep_view() == git_dir_input(),
{
    optional("dir", XSD_STRING, "the repository directory (defaults to the process cwd)")
}

/// The working directory of a gh-backed endpoint.
fn gh_dir() -> (arg: ArgSpec)
    ensures
        arg.deep_view() == gh_dir_input(),
{
    optional("dir", XSD_STRING, "a repo directory to run in (else the process cwd)")
}

/// The repository that a gh-backed endpoint asks about.
fn repo() -> (arg: ArgSpec)
    ensures
        arg.deep_view() == repo_input(),
{
    optional("repo", XSD_STRING, "owner/name (else the repo at dir=/cwd)")
}

/// The number of a pull request.
fn pr() -> (arg: ArgSpec)
    ensures
        arg.deep_view() == pr_input(),
{
    required("pr", XSD_INTEGER, "the pull-request number")
}

/// The face selector.
fn face(summary: &str) -> (arg: ArgSpec)
    ensures
        arg.deep_view() == face_input(summary@),
{
    optional("as", XSD_STRING, summary).one_of(&FACES)
}

/// The beginning of every description here: an endpoint that is read, under one scope.
fn reading(id: &str, title: &str, summary: &str, scope: &str) -> (description: Description)
    ensures
        description.deep_view() == (DescriptionView {
            id: id@,
            title: title@,
            summary: summary@,
            verbs: seq![Verb::Source, Verb::Meta],
            inputs: Seq::empty(),
            outputs: Seq::empty(),
            requires: seq![scope@],
        }),
{
    let description = Description::new(id).title(title).summary(summary).verb(
        Verb::Source,
    ).verb(Verb::Meta).requiring(scope);
    assert(description.deep_view().verbs =~= seq![Verb::Source, Verb::Meta]);
    assert(description.deep_view().requires =~= seq![scope@]);
    description
}

impl Facade {
    /// What the endpoint says of itself.
    pub fn describe(&self) -> (description: Description)
        ensures
            description.deep_view() == described(self.deep_view()),
    {
        let description = match self {
            Facade::Exec => reading(
                "system-exec",
                "Run an allowlisted dev tool",
                EXEC_SUMMARY,
                "urn:cap:exec:*",
            ).input(
                required("tool", XSD_STRING, "the tool to run").one_of(&ALLOWED_TOOLS),
            ).input(
                optional("args", XSD_STRING, "the argument vector, one argument per line"),
            ).input(
                optional("dir", XSD_STRING, "working directory (defaults to the process cwd)"),
            ).output(TEXT_OUTPUT),
            Facade::Git { id, title, summary, .. } => reading(
                id.as_str(),
                title.as_str(),
                summary.as_str(),
                "urn:cap:exec:git",
            ).input(git_dir()).output(TEXT_OUTPUT),
            Facade::Pr { id, title, summary, json_fields, .. } => {
                let description = reading(
                    id.as_str(),
                    title.as_str(),
                    summary.as_str(),
                    "urn:cap:exec:gh",
                ).input(pr()).input(repo()).input(gh_dir());
                match json_fields {
                    Some(fields) => {
                        let mut structured =
                            "application/json for the structured face (".to_string();
                        structured.append(fields.as_str());
                        structured.append(")");
                        description.input(face(structured.as_str())).output(
                            TEXT_OUTPUT,
                        ).output(JSON_OUTPUT)
                    },
                    None => description.output(TEXT_OUTPUT),
                }
            },
            Facade::PrFiles => reading(
                "repo-pr-files",
                "PR changed files",
                PR_FILES_SUMMARY,
                "urn:cap:exec:gh",
            ).input(pr()).input(repo()).input(gh_dir()).input(
                face("application/json for the structured face"),
            ).output(TEXT_OUTPUT).output(JSON_OUTPUT),
            Facade::PrList => reading(
                "repo-pr-list",
                "Pull requests",
                PR_LIST_SUMMARY,
                "urn:cap:exec:gh",
            ).input(
                optional("state", XSD_STRING, "which PRs to list by state").one_of(
                    &PR_LIST_STATES,
                ).default_value("open"),
            ).input(
                optional("limit", XSD_INTEGER, "the maximum number of PRs to list").default_value(
                    "30",
                ),
            ).input(repo()).input(gh_dir()).input(
                face("application/json for the structured face"),
            ).output(TEXT_OUTPUT).output(JSON_OUTPUT),
            Facade::Log => reading(
                "repo-log",
                "Recent history",
                LOG_SUMMARY,
                "urn:cap:exec:git",
            ).input(
                optional("limit", XSD_INTEGER, "the number of commits to show").default_value(
                    "20",
                ),
            ).input(
                optional(
                    "path",
                    XSD_STRING,
                    "restrict to commits touching this file or subtree, relative to the repo root",
                ),
            ).input(git_dir()).input(
                face("application/json for the structured face"),
            ).output(TEXT_OUTPUT).output(JSON_OUTPUT),
        };
        assert(description.deep_view() =~= described(self.deep_view()));
        description
    }
}

/// What `urn:repo:list` says of itself.
pub fn describe_list() -> (description: Description)
    ensures
        description.deep_view() == list_described(),
{
    let description = reading("repo-list", "List repositories", LIST_SUMMARY, FS_READ).input(
        optional(
            "root",
            XSD_STRING,
            "the directory to scan (default: $IKIGAI_REPO_ROOT, else ~/git-personal)",
        ),
    ).output(TEXT_OUTPUT);
    assert(description.deep_view() =~= list_described());
    description
}

} // verus!
