//! What each endpoint declares, under the identifier at which it answers: its name and what
//! it is for, the verbs, the inputs that it takes, the types that it serves and the scope
//! that it requires.
use crate::argv::PR_LIST_STATES;
use crate::call::CallView;
use crate::catalog::{described, FACES};
use crate::describe::{ArgSpecView, DescriptionView, Verb};
use crate::facade::FacadeView;
use crate::host::{held_scopes, inline_args, invoked};
use crate::run::ALLOWED_TOOLS;
use crate::runs::{answers, lemma_answers};
use crate::space::{self_description, EndpointView};
use ikigai_core::Invocation;
use vstd::prelude::*;

verus! {

/// An input by its name, datatype, purpose, need, default and values.
pub open spec fn takes(
    name: Seq<char>,
    class: Seq<char>,
    summary: Seq<char>,
    required: bool,
    default: Option<Seq<char>>,
    one_of: Seq<Seq<char>>,
) -> ArgSpecView {
    ArgSpecView { name, summary, required, class: Some(class), default, one_of }
}

/// A description of an endpoint that is read under one scope.
pub open spec fn declares(
    id: Seq<char>,
    title: Seq<char>,
    summary: Seq<char>,
    inputs: Seq<ArgSpecView>,
    outputs: Seq<Seq<char>>,
    scope: Seq<char>,
) -> DescriptionView {
    DescriptionView {
        id,
        title,
        summary,
        verbs: seq![Verb::Source, Verb::Meta],
        inputs,
        outputs,
        requires: seq![scope],
    }
}

/// The lists that inputs are drawn from, one by one.
proof fn lemma_lists()
    ensures
        ALLOWED_TOOLS.deep_view() == seq!["git"@, "gh"@, "cargo"@, "just"@],
        PR_LIST_STATES.deep_view() == seq!["open"@, "closed"@, "merged"@, "all"@],
        FACES.deep_view() == seq!["application/json"@],
{
    assert(ALLOWED_TOOLS.deep_view() =~= seq!["git"@, "gh"@, "cargo"@, "just"@]);
    assert(PR_LIST_STATES.deep_view() =~= seq!["open"@, "closed"@, "merged"@, "all"@]);
    assert(FACES.deep_view() =~= seq!["application/json"@]);
}

/// What `urn:system:exec` declares.
pub proof fn exec_declares(endpoint: EndpointView)
    requires
        answers("urn:system:exec"@, endpoint),
    ensures
        self_description(endpoint) == declares(
            "system-exec"@,
            "Run an allowlisted dev tool"@,
            "Spawn an allowlisted external tool (git, gh, cargo, just) with an argument \
             vector — never a shell string, so no injection surface. Capability-gated per \
             tool (urn:cap:exec:{tool}). The typed urn:repo:* facades build the invocation."@,
            seq![
                takes("tool"@, "http://www.w3.org/2001/XMLSchema#string"@, "the tool to run"@, true, None, seq!["git"@, "gh"@, "cargo"@, "just"@]),
                takes("args"@, "http://www.w3.org/2001/XMLSchema#string"@, "the argument vector, one argument per line"@, false, None, seq![]),
                takes("dir"@, "http://www.w3.org/2001/XMLSchema#string"@, "working directory (defaults to the process cwd)"@, false, None, seq![]),
            ],
            seq!["text/plain;charset=utf-8"@],
            "urn:cap:exec:*"@,
        ),
{
    lemma_answers(0, endpoint);
    lemma_lists();
    assert(self_description(endpoint) =~~= declares(
            "system-exec"@,
            "Run an allowlisted dev tool"@,
            "Spawn an allowlisted external tool (git, gh, cargo, just) with an argument \
             vector — never a shell string, so no injection surface. Capability-gated per \
             tool (urn:cap:exec:{tool}). The typed urn:repo:* facades build the invocation."@,
            seq![
                takes("tool"@, "http://www.w3.org/2001/XMLSchema#string"@, "the tool to run"@, true, None, seq!["git"@, "gh"@, "cargo"@, "just"@]),
                takes("args"@, "http://www.w3.org/2001/XMLSchema#string"@, "the argument vector, one argument per line"@, false, None, seq![]),
                takes("dir"@, "http://www.w3.org/2001/XMLSchema#string"@, "working directory (defaults to the process cwd)"@, false, None, seq![]),
            ],
            seq!["text/plain;charset=utf-8"@],
            "urn:cap:exec:*"@,
        ));
}

/// What `urn:repo:status` declares.
pub proof fn status_declares(endpoint: EndpointView)
    requires
        answers("urn:repo:status"@, endpoint),
    ensures
        self_description(endpoint) == declares(
            "repo-status"@,
            "Repository status"@,
            "The working tree's status, machine-readable (git status --porcelain=v1 -b)."@,
            seq![
                takes("dir"@, "http://www.w3.org/2001/XMLSchema#string"@, "the repository directory (defaults to the process cwd)"@, false, None, seq![]),
            ],
            seq!["text/plain;charset=utf-8"@],
            "urn:cap:exec:git"@,
        ),
{
    lemma_answers(1, endpoint);
    lemma_lists();
    assert(self_description(endpoint) =~~= declares(
            "repo-status"@,
            "Repository status"@,
            "The working tree's status, machine-readable (git status --porcelain=v1 -b)."@,
            seq![
                takes("dir"@, "http://www.w3.org/2001/XMLSchema#string"@, "the repository directory (defaults to the process cwd)"@, false, None, seq![]),
            ],
            seq!["text/plain;charset=utf-8"@],
            "urn:cap:exec:git"@,
        ));
}

/// What `urn:repo:log` declares.
pub proof fn log_declares(endpoint: EndpointView)
    requires
        answers("urn:repo:log"@, endpoint),
    ensures
        self_description(endpoint) == declares(
            "repo-log"@,
            "Recent history"@,
            "The recent commits: one line each by default (git log --oneline); \
             as=application/json for [{hash, author, date, subject}] with the full sha and \
             RFC 3339 author date. path= restricts to the commits that touched a file or \
             subtree (git log -- <path>) — under squash-merge style, the merged-PR-per-path \
             index."@,
            seq![
                takes("limit"@, "http://www.w3.org/2001/XMLSchema#integer"@, "the number of commits to show"@, false, Some("20"@), seq![]),
                takes("path"@, "http://www.w3.org/2001/XMLSchema#string"@, "restrict to commits touching this file or subtree, relative to the repo root"@, false, None, seq![]),
                takes("dir"@, "http://www.w3.org/2001/XMLSchema#string"@, "the repository directory (defaults to the process cwd)"@, false, None, seq![]),
                takes("as"@, "http://www.w3.org/2001/XMLSchema#string"@, "application/json for the structured face"@, false, None, seq!["application/json"@]),
            ],
            seq!["text/plain;charset=utf-8"@, "application/json"@],
            "urn:cap:exec:git"@,
        ),
{
    lemma_answers(2, endpoint);
    lemma_lists();
    assert(self_description(endpoint) =~~= declares(
            "repo-log"@,
            "Recent history"@,
            "The recent commits: one line each by default (git log --oneline); \
             as=application/json for [{hash, author, date, subject}] with the full sha and \
             RFC 3339 author date. path= restricts to the commits that touched a file or \
             subtree (git log -- <path>) — under squash-merge style, the merged-PR-per-path \
             index."@,
            seq![
                takes("limit"@, "http://www.w3.org/2001/XMLSchema#integer"@, "the number of commits to show"@, false, Some("20"@), seq![]),
                takes("path"@, "http://www.w3.org/2001/XMLSchema#string"@, "restrict to commits touching this file or subtree, relative to the repo root"@, false, None, seq![]),
                takes("dir"@, "http://www.w3.org/2001/XMLSchema#string"@, "the repository directory (defaults to the process cwd)"@, false, None, seq![]),
                takes("as"@, "http://www.w3.org/2001/XMLSchema#string"@, "application/json for the structured face"@, false, None, seq!["application/json"@]),
            ],
            seq!["text/plain;charset=utf-8"@, "application/json"@],
            "urn:cap:exec:git"@,
        ));
}

/// What `urn:repo:branch` declares.
pub proof fn branch_declares(endpoint: EndpointView)
    requires
        answers("urn:repo:branch"@, endpoint),
    ensures
        self_description(endpoint) == declares(
            "repo-branch"@,
            "Current branch"@,
            "The current branch name (git branch --show-current)."@,
            seq![
                takes("dir"@, "http://www.w3.org/2001/XMLSchema#string"@, "the repository directory (defaults to the process cwd)"@, false, None, seq![]),
            ],
            seq!["text/plain;charset=utf-8"@],
            "urn:cap:exec:git"@,
        ),
{
    lemma_answers(3, endpoint);
    lemma_lists();
    assert(self_description(endpoint) =~~= declares(
            "repo-branch"@,
            "Current branch"@,
            "The current branch name (git branch --show-current)."@,
            seq![
                takes("dir"@, "http://www.w3.org/2001/XMLSchema#string"@, "the repository directory (defaults to the process cwd)"@, false, None, seq![]),
            ],
            seq!["text/plain;charset=utf-8"@],
            "urn:cap:exec:git"@,
        ));
}

/// What `urn:repo:list` declares.
pub proof fn list_declares(endpoint: EndpointView)
    requires
        answers("urn:repo:list"@, endpoint),
    ensures
        self_description(endpoint) == declares(
            "repo-list"@,
            "List repositories"@,
            "Enumerate the git repositories under a ROOT — each as name<TAB>path, one per \
             line — so an agent whose cwd is not a repo (e.g. ikigai mcp) can discover \
             where repos live and pass one as dir= to the urn:repo:* facades. ROOT is root= \
             (arg), else $IKIGAI_REPO_ROOT, else ~/git-personal; immediate child \
             directories only."@,
            seq![
                takes("root"@, "http://www.w3.org/2001/XMLSchema#string"@, "the directory to scan (default: $IKIGAI_REPO_ROOT, else ~/git-personal)"@, false, None, seq![]),
            ],
            seq!["text/plain;charset=utf-8"@],
            "urn:cap:fs:read:*"@,
        ),
{
    lemma_answers(4, endpoint);
    lemma_lists();
    assert(self_description(endpoint) =~~= declares(
            "repo-list"@,
            "List repositories"@,
            "Enumerate the git repositories under a ROOT — each as name<TAB>path, one per \
             line — so an agent whose cwd is not a repo (e.g. ikigai mcp) can discover \
             where repos live and pass one as dir= to the urn:repo:* facades. ROOT is root= \
             (arg), else $IKIGAI_REPO_ROOT, else ~/git-personal; immediate child \
             directories only."@,
            seq![
                takes("root"@, "http://www.w3.org/2001/XMLSchema#string"@, "the directory to scan (default: $IKIGAI_REPO_ROOT, else ~/git-personal)"@, false, None, seq![]),
            ],
            seq!["text/plain;charset=utf-8"@],
            "urn:cap:fs:read:*"@,
        ));
}

/// What `urn:repo:pr:checks` declares.
pub proof fn pr_checks_declares(endpoint: EndpointView)
    requires
        answers("urn:repo:pr:checks"@, endpoint),
    ensures
        self_description(endpoint) == declares(
            "repo-pr-checks"@,
            "PR check status"@,
            "The CI check runs for a pull request and their state (gh pr checks). A \
             SNAPSHOT — for a blocking wait use gh's own --watch; the standing poll job \
             (host-side, time transport) is what removes the wait from an agent's loop."@,
            seq![
                takes("pr"@, "http://www.w3.org/2001/XMLSchema#integer"@, "the pull-request number"@, true, None, seq![]),
                takes("repo"@, "http://www.w3.org/2001/XMLSchema#string"@, "owner/name (else the repo at dir=/cwd)"@, false, None, seq![]),
                takes("dir"@, "http://www.w3.org/2001/XMLSchema#string"@, "a repo directory to run in (else the process cwd)"@, false, None, seq![]),
            ],
            seq!["text/plain;charset=utf-8"@],
            "urn:cap:exec:gh"@,
        ),
{
    lemma_answers(5, endpoint);
    lemma_lists();
    assert(self_description(endpoint) =~~= declares(
            "repo-pr-checks"@,
            "PR check status"@,
            "The CI check runs for a pull request and their state (gh pr checks). A \
             SNAPSHOT — for a blocking wait use gh's own --watch; the standing poll job \
             (host-side, time transport) is what removes the wait from an agent's loop."@,
            seq![
                takes("pr"@, "http://www.w3.org/2001/XMLSchema#integer"@, "the pull-request number"@, true, None, seq![]),
                takes("repo"@, "http://www.w3.org/2001/XMLSchema#string"@, "owner/name (else the repo at dir=/cwd)"@, false, None, seq![]),
                takes("dir"@, "http://www.w3.org/2001/XMLSchema#string"@, "a repo directory to run in (else the process cwd)"@, false, None, seq![]),
            ],
            seq!["text/plain;charset=utf-8"@],
            "urn:cap:exec:gh"@,
        ));
}

/// What `urn:repo:pr:view` declares.
pub proof fn pr_view_declares(endpoint: EndpointView)
    requires
        answers("urn:repo:pr:view"@, endpoint),
    ensures
        self_description(endpoint) == declares(
            "repo-pr-view"@,
            "PR overview"@,
            "A pull request's title, state, and metadata (gh pr view); as=application/json \
             for the structured face, which carries headRefOid — the PR head commit sha a \
             review archive keys on."@,
            seq![
                takes("pr"@, "http://www.w3.org/2001/XMLSchema#integer"@, "the pull-request number"@, true, None, seq![]),
                takes("repo"@, "http://www.w3.org/2001/XMLSchema#string"@, "owner/name (else the repo at dir=/cwd)"@, false, None, seq![]),
                takes("dir"@, "http://www.w3.org/2001/XMLSchema#string"@, "a repo directory to run in (else the process cwd)"@, false, None, seq![]),
                takes("as"@, "http://www.w3.org/2001/XMLSchema#string"@, "application/json for the structured face (number,title,state,isDraft,headRefName,headRefOid,baseRefName,author,updatedAt,url,body)"@, false, None, seq!["application/json"@]),
            ],
            seq!["text/plain;charset=utf-8"@, "application/json"@],
            "urn:cap:exec:gh"@,
        ),
{
    lemma_answers(6, endpoint);
    lemma_lists();
    reveal_strlit("application/json for the structured face (");
    reveal_strlit("number,title,state,isDraft,headRefName,headRefOid,baseRefName,author,updatedAt,url,body");
    reveal_strlit(")");
    reveal_strlit("application/json for the structured face (number,title,state,isDraft,headRefName,headRefOid,baseRefName,author,updatedAt,url,body)");
    assert("application/json for the structured face ("@ + "number,title,state,isDraft,headRefName,headRefOid,baseRefName,author,updatedAt,url,body"@ + ")"@
        =~= "application/json for the structured face (number,title,state,isDraft,headRefName,headRefOid,baseRefName,author,updatedAt,url,body)"@);
    assert(self_description(endpoint) =~~= declares(
            "repo-pr-view"@,
            "PR overview"@,
            "A pull request's title, state, and metadata (gh pr view); as=application/json \
             for the structured face, which carries headRefOid — the PR head commit sha a \
             review archive keys on."@,
            seq![
                takes("pr"@, "http://www.w3.org/2001/XMLSchema#integer"@, "the pull-request number"@, true, None, seq![]),
                takes("repo"@, "http://www.w3.org/2001/XMLSchema#string"@, "owner/name (else the repo at dir=/cwd)"@, false, None, seq![]),
                takes("dir"@, "http://www.w3.org/2001/XMLSchema#string"@, "a repo directory to run in (else the process cwd)"@, false, None, seq![]),
                takes("as"@, "http://www.w3.org/2001/XMLSchema#string"@, "application/json for the structured face (number,title,state,isDraft,headRefName,headRefOid,baseRefName,author,updatedAt,url,body)"@, false, None, seq!["application/json"@]),
            ],
            seq!["text/plain;charset=utf-8"@, "application/json"@],
            "urn:cap:exec:gh"@,
        ));
}

/// What `urn:repo:pr:list` declares.
pub proof fn pr_list_declares(endpoint: EndpointView)
    requires
        answers("urn:repo:pr:list"@, endpoint),
    ensures
        self_description(endpoint) == declares(
            "repo-pr-list"@,
            "Pull requests"@,
            "The pull requests, most recently updated first (gh pr list), one per line as \
             number<TAB>title<TAB>state<TAB>branch<TAB>updated (RFC 3339, state \
             OPEN/CLOSED/MERGED); state= filters (default open, all for a mixed listing); \
             as=application/json for the structured face (number, title, state, \
             headRefName, updatedAt). Pass a number to urn:repo:pr:view / :diff / :checks."@,
            seq![
                takes("state"@, "http://www.w3.org/2001/XMLSchema#string"@, "which PRs to list by state"@, false, Some("open"@), seq!["open"@, "closed"@, "merged"@, "all"@]),
                takes("limit"@, "http://www.w3.org/2001/XMLSchema#integer"@, "the maximum number of PRs to list"@, false, Some("30"@), seq![]),
                takes("repo"@, "http://www.w3.org/2001/XMLSchema#string"@, "owner/name (else the repo at dir=/cwd)"@, false, None, seq![]),
                takes("dir"@, "http://www.w3.org/2001/XMLSchema#string"@, "a repo directory to run in (else the process cwd)"@, false, None, seq![]),
                takes("as"@, "http://www.w3.org/2001/XMLSchema#string"@, "application/json for the structured face"@, false, None, seq!["application/json"@]),
            ],
            seq!["text/plain;charset=utf-8"@, "application/json"@],
            "urn:cap:exec:gh"@,
        ),
{
    lemma_answers(7, endpoint);
    lemma_lists();
    assert(self_description(endpoint) =~~= declares(
            "repo-pr-list"@,
            "Pull requests"@,
            "The pull requests, most recently updated first (gh pr list), one per line as \
             number<TAB>title<TAB>state<TAB>branch<TAB>updated (RFC 3339, state \
             OPEN/CLOSED/MERGED); state= filters (default open, all for a mixed listing); \
             as=application/json for the structured face (number, title, state, \
             headRefName, updatedAt). Pass a number to urn:repo:pr:view / :diff / :checks."@,
            seq![
                takes("state"@, "http://www.w3.org/2001/XMLSchema#string"@, "which PRs to list by state"@, false, Some("open"@), seq!["open"@, "closed"@, "merged"@, "all"@]),
                takes("limit"@, "http://www.w3.org/2001/XMLSchema#integer"@, "the maximum number of PRs to list"@, false, Some("30"@), seq![]),
                takes("repo"@, "http://www.w3.org/2001/XMLSchema#string"@, "owner/name (else the repo at dir=/cwd)"@, false, None, seq![]),
                takes("dir"@, "http://www.w3.org/2001/XMLSchema#string"@, "a repo directory to run in (else the process cwd)"@, false, None, seq![]),
                takes("as"@, "http://www.w3.org/2001/XMLSchema#string"@, "application/json for the structured face"@, false, None, seq!["application/json"@]),
            ],
            seq!["text/plain;charset=utf-8"@, "application/json"@],
            "urn:cap:exec:gh"@,
        ));
}

/// What `urn:repo:pr:files` declares.
pub proof fn pr_files_declares(endpoint: EndpointView)
    requires
        answers("urn:repo:pr:files"@, endpoint),
    ensures
        self_description(endpoint) == declares(
            "repo-pr-files"@,
            "PR changed files"@,
            "The paths a pull request changes (gh pr view --json files), one per line; \
             as=application/json for the structured face ({files: [{path, additions, \
             deletions, changeType}]}). The open-PR half of \"which PRs touch this \
             subtree\" — urn:repo:log path= is the merged half."@,
            seq![
                takes("pr"@, "http://www.w3.org/2001/XMLSchema#integer"@, "the pull-request number"@, true, None, seq![]),
                takes("repo"@, "http://www.w3.org/2001/XMLSchema#string"@, "owner/name (else the repo at dir=/cwd)"@, false, None, seq![]),
                takes("dir"@, "http://www.w3.org/2001/XMLSchema#string"@, "a repo directory to run in (else the process cwd)"@, false, None, seq![]),
                takes("as"@, "http://www.w3.org/2001/XMLSchema#string"@, "application/json for the structured face"@, false, None, seq!["application/json"@]),
            ],
            seq!["text/plain;charset=utf-8"@, "application/json"@],
            "urn:cap:exec:gh"@,
        ),
{
    lemma_answers(8, endpoint);
    lemma_lists();
    assert(self_description(endpoint) =~~= declares(
            "repo-pr-files"@,
            "PR changed files"@,
            "The paths a pull request changes (gh pr view --json files), one per line; \
             as=application/json for the structured face ({files: [{path, additions, \
             deletions, changeType}]}). The open-PR half of \"which PRs touch this \
             subtree\" — urn:repo:log path= is the merged half."@,
            seq![
                takes("pr"@, "http://www.w3.org/2001/XMLSchema#integer"@, "the pull-request number"@, true, None, seq![]),
                takes("repo"@, "http://www.w3.org/2001/XMLSchema#string"@, "owner/name (else the repo at dir=/cwd)"@, false, None, seq![]),
                takes("dir"@, "http://www.w3.org/2001/XMLSchema#string"@, "a repo directory to run in (else the process cwd)"@, false, None, seq![]),
                takes("as"@, "http://www.w3.org/2001/XMLSchema#string"@, "application/json for the structured face"@, false, None, seq!["application/json"@]),
            ],
            seq!["text/plain;charset=utf-8"@, "application/json"@],
            "urn:cap:exec:gh"@,
        ));
}

/// What `urn:repo:pr:diff` declares.
pub proof fn pr_diff_declares(endpoint: EndpointView)
    requires
        answers("urn:repo:pr:diff"@, endpoint),
    ensures
        self_description(endpoint) == declares(
            "repo-pr-diff"@,
            "PR diff"@,
            "A pull request's unified diff (gh pr diff) — the raw change an explainer or a \
             code review reads. Pair with urn:repo:pr:view as=application/json for the head \
             sha the diff corresponds to."@,
            seq![
                takes("pr"@, "http://www.w3.org/2001/XMLSchema#integer"@, "the pull-request number"@, true, None, seq![]),
                takes("repo"@, "http://www.w3.org/2001/XMLSchema#string"@, "owner/name (else the repo at dir=/cwd)"@, false, None, seq![]),
                takes("dir"@, "http://www.w3.org/2001/XMLSchema#string"@, "a repo directory to run in (else the process cwd)"@, false, None, seq![]),
            ],
            seq!["text/plain;charset=utf-8"@],
            "urn:cap:exec:gh"@,
        ),
{
    lemma_answers(9, endpoint);
    lemma_lists();
    assert(self_description(endpoint) =~~= declares(
            "repo-pr-diff"@,
            "PR diff"@,
            "A pull request's unified diff (gh pr diff) — the raw change an explainer or a \
             code review reads. Pair with urn:repo:pr:view as=application/json for the head \
             sha the diff corresponds to."@,
            seq![
                takes("pr"@, "http://www.w3.org/2001/XMLSchema#integer"@, "the pull-request number"@, true, None, seq![]),
                takes("repo"@, "http://www.w3.org/2001/XMLSchema#string"@, "owner/name (else the repo at dir=/cwd)"@, false, None, seq![]),
                takes("dir"@, "http://www.w3.org/2001/XMLSchema#string"@, "a repo directory to run in (else the process cwd)"@, false, None, seq![]),
            ],
            seq!["text/plain;charset=utf-8"@],
            "urn:cap:exec:gh"@,
        ));
}

/// A read facade declares the name, the title and the summary that it was made with; and one
/// over a pull request declares a structured face exactly where it has fields for one.
pub proof fn facades_declare_what_they_are_made_with(
    id: Seq<char>,
    title: Seq<char>,
    summary: Seq<char>,
    args: Seq<Seq<char>>,
    fields: Seq<char>,
)
    ensures
        described(FacadeView::Git { id, title, summary, git_args: args }) == declares(
            id,
            title,
            summary,
            seq![
                takes("dir"@, "http://www.w3.org/2001/XMLSchema#string"@, "the repository directory (defaults to the process cwd)"@, false, None, seq![]),
            ],
            seq!["text/plain;charset=utf-8"@],
            "urn:cap:exec:git"@,
        ),
        described(FacadeView::Pr { id, title, summary, sub: args, json_fields: None }) == declares(
            id,
            title,
            summary,
            seq![
                takes("pr"@, "http://www.w3.org/2001/XMLSchema#integer"@, "the pull-request number"@, true, None, seq![]),
                takes("repo"@, "http://www.w3.org/2001/XMLSchema#string"@, "owner/name (else the repo at dir=/cwd)"@, false, None, seq![]),
                takes("dir"@, "http://www.w3.org/2001/XMLSchema#string"@, "a repo directory to run in (else the process cwd)"@, false, None, seq![]),
            ],
            seq!["text/plain;charset=utf-8"@],
            "urn:cap:exec:gh"@,
        ),
        described(FacadeView::Pr { id, title, summary, sub: args, json_fields: Some(fields) })
            == declares(
            id,
            title,
            summary,
            seq![
                takes("pr"@, "http://www.w3.org/2001/XMLSchema#integer"@, "the pull-request number"@, true, None, seq![]),
                takes("repo"@, "http://www.w3.org/2001/XMLSchema#string"@, "owner/name (else the repo at dir=/cwd)"@, false, None, seq![]),
                takes("dir"@, "http://www.w3.org/2001/XMLSchema#string"@, "a repo directory to run in (else the process cwd)"@, false, None, seq![]),
                takes("as"@, "http://www.w3.org/2001/XMLSchema#string"@, "application/json for the structured face ("@ + fields + ")"@, false, None, seq!["application/json"@]),
            ],
            seq!["text/plain;charset=utf-8"@, "application/json"@],
            "urn:cap:exec:gh"@,
        ),
{
    lemma_lists();
    assert(described(FacadeView::Git { id, title, summary, git_args: args }) =~~= declares(
            id,
            title,
            summary,
            seq![
                takes("dir"@, "http://www.w3.org/2001/XMLSchema#string"@, "the repository directory (defaults to the process cwd)"@, false, None, seq![]),
            ],
            seq!["text/plain;charset=utf-8"@],
            "urn:cap:exec:git"@,
        ));
    assert(described(FacadeView::Pr { id, title, summary, sub: args, json_fields: None })
        =~~= declares(
            id,
            title,
            summary,
            seq![
                takes("pr"@, "http://www.w3.org/2001/XMLSchema#integer"@, "the pull-request number"@, true, None, seq![]),
                takes("repo"@, "http://www.w3.org/2001/XMLSchema#string"@, "owner/name (else the repo at dir=/cwd)"@, false, None, seq![]),
                takes("dir"@, "http://www.w3.org/2001/XMLSchema#string"@, "a repo directory to run in (else the process cwd)"@, false, None, seq![]),
            ],
            seq!["text/plain;charset=utf-8"@],
            "urn:cap:exec:gh"@,
        ));
    assert(described(FacadeView::Pr { id, title, summary, sub: args, json_fields: Some(fields) })
        =~~= declares(
            id,
            title,
            summary,
            seq![
                takes("pr"@, "http://www.w3.org/2001/XMLSchema#integer"@, "the pull-request number"@, true, None, seq![]),
                takes("repo"@, "http://www.w3.org/2001/XMLSchema#string"@, "owner/name (else the repo at dir=/cwd)"@, false, None, seq![]),
                takes("dir"@, "http://www.w3.org/2001/XMLSchema#string"@, "a repo directory to run in (else the process cwd)"@, false, None, seq![]),
                takes("as"@, "http://www.w3.org/2001/XMLSchema#string"@, "application/json for the structured face ("@ + fields + ")"@, false, None, seq!["application/json"@]),
            ],
            seq!["text/plain;charset=utf-8"@, "application/json"@],
            "urn:cap:exec:gh"@,
        ));
}

/// A call has the arguments that it was given and no others, the later of two under one
/// name, and the scopes that were granted and no others.
pub proof fn calls_carry_what_they_are_given(
    call: CallView,
    name: Seq<char>,
    value: Seq<char>,
    other: Seq<char>,
)
    ensures
        (CallView { args: Map::empty(), grants: Set::empty() }).arg(name) is None,
        !(CallView { args: Map::empty(), grants: Set::empty() }).allows(name),
        call.with_arg(name, value).arg(name) == Some(value),
        other != name ==> call.with_arg(name, value).arg(other) == call.arg(other),
        call.with_arg(name, value).allows(other) == call.allows(other),
        (CallView { args: call.args, grants: call.grants.insert(name) }).allows(other) == (other
            == name || call.allows(other)),
        (CallView { args: call.args, grants: call.grants.insert(name) }).arg(other) == call.arg(
            other,
        ),
{
}

/// An invocation makes the call of its own inline arguments and its capability's own scopes.
pub proof fn invocations_are_taken_as_they_are(inv: &Invocation<'_>, name: Seq<char>)
    ensures
        invoked(inv).arg(name) == if inline_args(inv).contains_key(name) {
            Some(inline_args(inv)[name])
        } else {
            None
        },
        invoked(inv).allows(name) == held_scopes(inv).contains(name),
{
}

} // verus!
