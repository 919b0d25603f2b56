//! The argument vectors that the facades build for `git` and `gh`.
use crate::number::{decimal, decimal_text};
use crate::text::{push_text, texts_of};
use vstd::prelude::*;
use vstd::string::StringExecFns;

verus! {

/// The fields that the structured `urn:repo:pr:view` face carries. `headRefOid` is the PR
/// head commit sha, the key that a downstream review archive stores under (a review is *of*
/// a commit, not of a mutable branch tip).
pub const PR_VIEW_JSON_FIELDS: &'static str =
    "number,title,state,isDraft,headRefName,headRefOid,baseRefName,author,updatedAt,url,body";

/// The fields that both faces of `urn:repo:pr:list` are built from. `state` is gh's own
/// value (`OPEN`, `CLOSED`, `MERGED`, uppercase), so a mixed (`state=all`) listing stays
/// legible.
pub const PR_LIST_FIELDS: &'static str = "number,title,state,headRefName,updatedAt";

/// The states that `urn:repo:pr:list` will filter by: `gh pr list --state`'s own
/// vocabulary, `open` being gh's (and our) default.
pub const PR_LIST_STATES: [&'static str; 4] = ["open", "closed", "merged", "all"];

/// The gh Go-template for the text face of `urn:repo:pr:list`: one PR per line, its number,
/// title, state, branch and update time (RFC 3339) with tabs between. Real tab and newline
/// characters: arguments travel as an argument vector, never through a shell.
pub const PR_LIST_TEMPLATE: &'static str =
    "{{range .}}{{.number}}\t{{.title}}\t{{.state}}\t{{.headRefName}}\t{{timefmt \"2006-01-02T15:04:05Z07:00\" .updatedAt}}\n{{end}}";

/// The gh Go-template for the text face of `urn:repo:pr:files`: one changed path per line.
/// A real newline: arguments travel as an argument vector, never through a shell.
pub const PR_FILES_TEMPLATE: &'static str = "{{range .files}}{{.path}}\n{{end}}";

/// A flag and its value where there is one, nothing where there is none.
pub open spec fn flag(name: Seq<char>, value: Option<Seq<char>>) -> Seq<Seq<char>> {
    match value {
        Some(value) => seq![name, value],
        None => Seq::empty(),
    }
}

/// Append a flag and its value where there is one.
pub(crate) fn push_flag(args: &mut Vec<String>, name: &str, value: Option<&str>)
    ensures
        final(args).deep_view() == old(args).deep_view() + flag(name@, value.deep_view()),
{
    if let Some(value) = value {
        push_text(args, name);
        push_text(args, value);
    }
    assert(args.deep_view() =~= old(args).deep_view() + flag(name@, value.deep_view()));
}

/// The `gh pr list` argument vector.
pub open spec fn pr_list_argv(
    state: Seq<char>,
    limit: nat,
    want_json: bool,
    repo: Option<Seq<char>>,
) -> Seq<Seq<char>> {
    seq![
        "pr"@,
        "list"@,
        "--state"@,
        state,
        "--limit"@,
        decimal(limit),
        "--search"@,
        "sort:updated-desc"@,
        "--json"@,
        PR_LIST_FIELDS@,
    ] + flag(
        "--template"@,
        if want_json {
            None
        } else {
            Some(PR_LIST_TEMPLATE@)
        },
    ) + flag("--repo"@, repo)
}

/// Build the `gh pr list` argument vector. `gh pr list`'s own order is newest-CREATED
/// first; a listing exists to answer "what moved lately", so we always ask for
/// most-recently-UPDATED first. The search qualifier is the only sort that gh exposes:
/// `--search "sort:updated-desc"` routes the listing through the search API, which composes
/// with `--state` and leaves both faces' shapes untouched.
pub fn pr_list_args(
    state: &str,
    limit: u32,
    want_json: bool,
    repo: Option<&str>,
) -> (args: Vec<String>)
    ensures
        args.deep_view() == pr_list_argv(state@, limit as nat, want_json, repo.deep_view()),
{
    let mut args = texts_of(&["pr", "list", "--state"]);
    push_text(&mut args, state);
    push_text(&mut args, "--limit");
    push_text(&mut args, decimal_text(limit as u64).as_str());
    push_text(&mut args, "--search");
    push_text(&mut args, "sort:updated-desc");
    push_text(&mut args, "--json");
    push_text(&mut args, PR_LIST_FIELDS);
    let template: Option<&str> = if want_json {
        None
    } else {
        Some(PR_LIST_TEMPLATE)
    };
    push_flag(&mut args, "--template", template);
    push_flag(&mut args, "--repo", repo);
    assert(args.deep_view() =~= pr_list_argv(
        state@,
        limit as nat,
        want_json,
        repo.deep_view(),
    ));
    args
}

/// The `gh pr view --json files` argument vector.
pub open spec fn pr_files_argv(
    pr: nat,
    want_json: bool,
    repo: Option<Seq<char>>,
) -> Seq<Seq<char>> {
    seq!["pr"@, "view"@, decimal(pr), "--json"@, "files"@] + flag(
        "--template"@,
        if want_json {
            None
        } else {
            Some(PR_FILES_TEMPLATE@)
        },
    ) + flag("--repo"@, repo)
}

/// Build the `gh pr view --json files` argument vector that both faces of
/// `urn:repo:pr:files` share. Like [`pr_list_args`], the text face renders the same `--json`
/// export through a template (one path per line) so the faces cannot drift; the json face
/// passes gh's export through verbatim.
pub fn pr_files_args(pr: u64, want_json: bool, repo: Option<&str>) -> (args: Vec<String>)
    ensures
        args.deep_view() == pr_files_argv(pr as nat, want_json, repo.deep_view()),
{
    let mut args = texts_of(&["pr", "view"]);
    push_text(&mut args, decimal_text(pr).as_str());
    push_text(&mut args, "--json");
    push_text(&mut args, "files");
    let template: Option<&str> = if want_json {
        None
    } else {
        Some(PR_FILES_TEMPLATE)
    };
    push_flag(&mut args, "--template", template);
    push_flag(&mut args, "--repo", repo);
    assert(args.deep_view() =~= pr_files_argv(pr as nat, want_json, repo.deep_view()));
    args
}

/// The `gh` argument vector over one pull request: the subcommand, the number, the export's
/// fields where the structured face is asked for, the repository where one is named.
pub open spec fn pr_argv(
    sub: Seq<Seq<char>>,
    pr: nat,
    fields: Option<Seq<char>>,
    repo: Option<Seq<char>>,
) -> Seq<Seq<char>> {
    sub.push(decimal(pr)) + flag("--json"@, fields) + flag("--repo"@, repo)
}

/// Build the `gh` argument vector over one pull request.
pub fn pr_args(
    sub: Vec<String>,
    pr: u64,
    fields: Option<&str>,
    repo: Option<&str>,
) -> (args: Vec<String>)
    ensures
        args.deep_view() == pr_argv(
            sub.deep_view(),
            pr as nat,
            fields.deep_view(),
            repo.deep_view(),
        ),
{
    let mut args = sub;
    push_text(&mut args, decimal_text(pr).as_str());
    push_flag(&mut args, "--json", fields);
    push_flag(&mut args, "--repo", repo);
    args
}

/// The `git log` argument vector.
pub open spec fn log_argv(
    dir: Option<Seq<char>>,
    limit: nat,
    want_json: bool,
    path: Option<Seq<char>>,
) -> Seq<Seq<char>> {
    flag("-C"@, dir) + seq![
        "log"@,
        if want_json {
            "--pretty=format:%H%x1f%an%x1f%aI%x1f%s"@
        } else {
            "--oneline"@
        },
        "-"@ + decimal(limit),
    ] + flag("--"@, path)
}

/// Build the `git log` argument vector. The pathspec rides after `--`, so it reaches git as
/// a path and only a path.
pub fn log_args(
    dir: Option<&str>,
    limit: u32,
    want_json: bool,
    path: Option<&str>,
) -> (args: Vec<String>)
    ensures
        args.deep_view() == log_argv(
            dir.deep_view(),
            limit as nat,
            want_json,
            path.deep_view(),
        ),
{
    let mut args: Vec<String> = Vec::new();
    push_flag(&mut args, "-C", dir);
    push_text(&mut args, "log");
    if want_json {
        push_text(&mut args, "--pretty=format:%H%x1f%an%x1f%aI%x1f%s");
    } else {
        push_text(&mut args, "--oneline");
    }
    let mut count = "-".to_string();
    count.append(decimal_text(limit as u64).as_str());
    push_text(&mut args, count.as_str());
    push_flag(&mut args, "--", path);
    assert(args.deep_view() =~= log_argv(
        dir.deep_view(),
        limit as nat,
        want_json,
        path.deep_view(),
    ));
    args
}

} // verus!
