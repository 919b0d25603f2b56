//! What each endpoint runs: of every call, the tool, its whole argument vector and its
//! working directory, or the refusal that the call gets instead. Everything is stated of the
//! call's own arguments, under the identifiers at which the endpoints answer.
use crate::args::{asks_json, limit, path, pr_number};
use crate::argv::{log_argv, pr_argv, pr_files_argv, pr_list_argv, PR_LIST_STATES};
use crate::call::{CallView, Failure};
use crate::facade::{bad_state, planned, state_of, wanted, FacadeView};
use crate::laws::arguments_come_one_per_line;
use crate::list::{root_of, scan_of, EnvView, RootView, HOME_REPOS};
use crate::number::{all_digits, decimal, is_digit, number, unsigned_part, value};
use crate::run::{
    exec_scope, gated, not_allowlisted, not_granted, CommandView, ALLOWED_TOOLS,
};
use crate::space::{
    bindings, identifiers_are_distinct, step_of, BindingView, EndpointView, StepView,
};
use crate::text::{join, occurs_at, split, splitting_at_a_separator};
use vstd::prelude::*;

verus! {

/// A text with another one before it and one behind it.
pub open spec fn around(before: Seq<char>, s: Seq<char>, behind: Seq<char>) -> Seq<char> {
    before + s + behind
}

/// Whether a call asks for the structured face: its `as` argument has `json` somewhere in it.
pub open spec fn structured(call: CallView) -> bool {
    exists|before: Seq<char>, behind: Seq<char>|
        call.arg("as"@) == Some(#[trigger] around(before, "json"@, behind))
}

/// Two arguments where there is a value, and none where there is none.
pub open spec fn pair(name: Seq<char>, value: Option<Seq<char>>) -> Seq<Seq<char>> {
    match value {
        Some(value) => seq![name, value],
        None => Seq::empty(),
    }
}

/// Whether a text is one or more decimal digits and nothing else.
pub open spec fn digits_only(s: Seq<char>) -> bool {
    &&& s.len() > 0
    &&& forall|i: int| 0 <= i < s.len() ==> '0' <= #[trigger] s[i] <= '9'
}

/// Whether a text is a number without leading zeros.
pub open spec fn plain_number(s: Seq<char>) -> bool {
    &&& digits_only(s)
    &&& s.len() > 1 ==> s[0] != '0'
}

/// A run of gh in a call's directory.
pub open spec fn gh_run(call: CallView, args: Seq<Seq<char>>) -> Result<CommandView, Failure> {
    Ok(CommandView { tool: "gh"@, args, dir: call.arg("dir"@) })
}

/// A run of git, told of a call's directory by its own flag.
pub open spec fn git_run(call: CallView, args: Seq<Seq<char>>) -> Result<CommandView, Failure> {
    Ok(CommandView { tool: "git"@, args: pair("-C"@, call.arg("dir"@)) + args, dir: None })
}

/// A face is selected by substring: the structured one exactly where `json` stands somewhere
/// in the `as` argument.
pub proof fn faces_are_selected_by_substring(call: CallView)
    ensures
        structured(call) == asks_json(call),
{
    if structured(call) {
        let (before, behind) = choose|before: Seq<char>, behind: Seq<char>|
            call.arg("as"@) == Some(#[trigger] around(before, "json"@, behind));
        let face = around(before, "json"@, behind);
        let at = before.len() as int;
        assert(face.subrange(at, at + "json"@.len()) =~= "json"@);
        assert(occurs_at("json"@, face, at));
    }
    if asks_json(call) {
        let face = call.arg("as"@)->0;
        let at = choose|at: int| #[trigger] occurs_at("json"@, face, at);
        let before = face.take(at);
        let behind = face.skip(at + "json"@.len());
        assert(face =~= around(before, face.subrange(at, at + "json"@.len()), behind));
        assert(call.arg("as"@) == Some(around(before, "json"@, behind)));
    }
}

/// Digits are digits.
proof fn lemma_digits(s: Seq<char>)
    ensures
        digits_only(s) == all_digits(s),
{
    if all_digits(s) {
        assert forall|i: int| 0 <= i < s.len() implies '0' <= #[trigger] s[i] <= '9' by {
            assert(is_digit(s[i]));
        }
    }
}

/// A number without leading zeros is written as it was given.
proof fn lemma_written_as_given(s: Seq<char>)
    requires
        plain_number(s),
    ensures
        decimal(value(s)) == s,
        s.len() > 1 ==> value(s) >= 10,
        s[0] != '0' ==> value(s) > 0,
    decreases s.len(),
{
    let fewer = s.drop_last();
    let last = s.last();
    assert('0' <= last <= '9');
    if s.len() == 1 {
        assert(fewer =~= Seq::empty());
        assert(value(fewer) == 0);
        assert(decimal(value(s)) =~= s);
    } else {
        assert(plain_number(fewer));
        lemma_written_as_given(fewer);
        assert(fewer[0] == s[0]);
        let n = value(fewer);
        let d = (last as int - '0' as int) as nat;
        assert(value(s) == n * 10 + d);
        assert((n * 10 + d) / 10 == n);
        assert((n * 10 + d) % 10 == d);
        assert(decimal(value(s)) =~= s);
    }
}

/// A zero ahead of a number does not count.
proof fn lemma_zero_ahead(s: Seq<char>)
    ensures
        value(seq!['0'] + s) == value(s),
    decreases s.len(),
{
    let longer = seq!['0'] + s;
    if s.len() == 0 {
        assert(longer.drop_last() =~= Seq::empty());
        assert(value(longer.drop_last()) == 0);
    } else {
        lemma_zero_ahead(s.drop_last());
        assert(longer.drop_last() =~= seq!['0'] + s.drop_last());
    }
}

/// The scopes of the two tools that the facades run, and the tools themselves.
proof fn lemma_scopes_of_tools()
    ensures
        ALLOWED_TOOLS.deep_view() == seq!["git"@, "gh"@, "cargo"@, "just"@],
        ALLOWED_TOOLS.deep_view().contains("git"@),
        ALLOWED_TOOLS.deep_view().contains("gh"@),
        exec_scope("git"@) == "urn:cap:exec:git"@,
        exec_scope("gh"@) == "urn:cap:exec:gh"@,
{
    let tools = ALLOWED_TOOLS.deep_view();
    assert(tools =~= seq!["git"@, "gh"@, "cargo"@, "just"@]);
    assert(tools[0] == "git"@);
    assert(tools[1] == "gh"@);
    reveal_strlit("urn:cap:exec:");
    reveal_strlit("urn:cap:exec:git");
    reveal_strlit("urn:cap:exec:gh");
    reveal_strlit("git");
    reveal_strlit("gh");
    assert(exec_scope("git"@) =~= "urn:cap:exec:git"@);
    assert(exec_scope("gh"@) =~= "urn:cap:exec:gh"@);
}

/// A git-backed read runs git with the arguments that it was made with, in the directory
/// that the call names.
pub proof fn git_facades_run(
    id: Seq<char>,
    title: Seq<char>,
    summary: Seq<char>,
    git_args: Seq<Seq<char>>,
    call: CallView,
)
    ensures
        planned(FacadeView::Git { id, title, summary, git_args }, call) == if call.allows(
            "urn:cap:exec:git"@,
        ) {
            git_run(call, git_args)
        } else {
            Err(Failure::Denied("exec: capability does not grant `urn:cap:exec:git`"@))
        },
{
    lemma_scopes_of_tools();
    lemma_denied();
    let command = planned(FacadeView::Git { id, title, summary, git_args }, call);
    if command is Ok {
        assert(command->Ok_0.args =~= pair("-C"@, call.arg("dir"@)) + git_args);
    }
}

/// What a denial says.
proof fn lemma_denied()
    ensures
        not_granted("urn:cap:exec:git"@)
            == "exec: capability does not grant `urn:cap:exec:git`"@,
        not_granted("urn:cap:exec:gh"@)
            == "exec: capability does not grant `urn:cap:exec:gh`"@,
{
    reveal_strlit("exec: capability does not grant `");
    reveal_strlit("urn:cap:exec:git");
    reveal_strlit("urn:cap:exec:gh");
    reveal_strlit("`");
    reveal_strlit("exec: capability does not grant `urn:cap:exec:git`");
    reveal_strlit("exec: capability does not grant `urn:cap:exec:gh`");
    assert(not_granted("urn:cap:exec:git"@)
        =~= "exec: capability does not grant `urn:cap:exec:git`"@);
    assert(not_granted("urn:cap:exec:gh"@)
        =~= "exec: capability does not grant `urn:cap:exec:gh`"@);
}

/// A read over a pull request runs gh with its subcommand and the number as the call gives
/// it; the export's fields stand behind them exactly where the endpoint has a structured
/// face and the call asks for it, and the repository that the call names stands last.
pub proof fn pr_facades_run(
    id: Seq<char>,
    title: Seq<char>,
    summary: Seq<char>,
    sub: Seq<Seq<char>>,
    json_fields: Option<Seq<char>>,
    call: CallView,
    pr: Seq<char>,
)
    requires
        call.allows("urn:cap:exec:gh"@),
        call.arg("pr"@) == Some(pr),
        plain_number(pr),
        value(pr) <= u64::MAX,
    ensures
        planned(FacadeView::Pr { id, title, summary, sub, json_fields }, call) == gh_run(
            call,
            sub + seq![pr] + (if structured(call) {
                pair("--json"@, json_fields)
            } else {
                Seq::empty()
            }) + pair("--repo"@, call.arg("repo"@)),
        ),
{
    lemma_scopes_of_tools();
    faces_are_selected_by_substring(call);
    lemma_digits(pr);
    lemma_written_as_given(pr);
    let facade = FacadeView::Pr { id, title, summary, sub, json_fields };
    assert(planned(facade, call) is Ok);
    assert(planned(facade, call)->Ok_0.args =~= sub + seq![pr] + (if structured(call) {
        pair("--json"@, json_fields)
    } else {
        Seq::empty()
    }) + pair("--repo"@, call.arg("repo"@)));
}

/// The changed files of the pull request that the call names are asked of gh as one export;
/// the template that prints one path per line is there exactly where the text face is the
/// one to be served, and the repository that the call names stands last.
pub proof fn pr_files_runs(call: CallView, pr: Seq<char>)
    requires
        call.allows("urn:cap:exec:gh"@),
        call.arg("pr"@) == Some(pr),
        plain_number(pr),
        value(pr) <= u64::MAX,
    ensures
        planned(FacadeView::PrFiles, call) == gh_run(
            call,
            seq!["pr"@, "view"@, pr, "--json"@, "files"@] + (if structured(call) {
                Seq::empty()
            } else {
                seq!["--template"@, "{{range .files}}{{.path}}\n{{end}}"@]
            }) + pair("--repo"@, call.arg("repo"@)),
        ),
{
    lemma_scopes_of_tools();
    faces_are_selected_by_substring(call);
    lemma_digits(pr);
    lemma_written_as_given(pr);
    assert(planned(FacadeView::PrFiles, call) is Ok);
    assert(planned(FacadeView::PrFiles, call)->Ok_0.args =~= seq![
        "pr"@,
        "view"@,
        pr,
        "--json"@,
        "files"@,
    ] + (if structured(call) {
        Seq::empty()
    } else {
        seq!["--template"@, "{{range .files}}{{.path}}\n{{end}}"@]
    }) + pair("--repo"@, call.arg("repo"@)));
}

/// What a pull-request endpoint refuses: a call without a number, a number that is none, and
/// a call without the scope, in that order.
pub proof fn pr_endpoints_refuse(facade: FacadeView, call: CallView)
    requires
        facade is Pr || facade is PrFiles,
    ensures
        match call.arg("pr"@) {
            None => planned(facade, call) == Err::<CommandView, Failure>(
                Failure::MissingArgument("pr (the pull-request number)"@),
            ),
            Some(pr) => if !(digits_only(pr) && value(pr) <= u64::MAX) {
                planned(facade, call) == Err::<CommandView, Failure>(
                    Failure::Endpoint("pr must be a number, got `"@ + pr + "`"@),
                )
            } else if !call.allows("urn:cap:exec:gh"@) {
                planned(facade, call) == Err::<CommandView, Failure>(
                    Failure::Denied("exec: capability does not grant `urn:cap:exec:gh`"@),
                )
            } else {
                planned(facade, call) is Ok
            },
        },
{
    lemma_scopes_of_tools();
    lemma_denied();
    if call.arg("pr"@) is Some {
        lemma_digits(call.arg("pr"@)->0);
    }
}

/// Whether a text is one of the states that pull requests are listed by.
pub open spec fn is_state(s: Seq<char>) -> bool {
    s == "open"@ || s == "closed"@ || s == "merged"@ || s == "all"@
}

/// Whether a text gives a count: digits, with or without a plus sign before them, that spell
/// a number of thirty-two bits.
pub open spec fn gives_a_count(s: Seq<char>) -> bool {
    ||| digits_only(s) && value(s) <= u32::MAX
    ||| s.len() > 0 && s[0] == '+' && digits_only(s.skip(1)) && value(s.skip(1)) <= u32::MAX
}

/// What counts as a count.
proof fn lemma_count(s: Seq<char>)
    ensures
        gives_a_count(s) == (number(s, u32::MAX as nat) is Some),
        digits_only(s) && value(s) <= u32::MAX ==> number(s, u32::MAX as nat)
            == Some(value(s)),
{
    lemma_digits(s);
    lemma_digits(s.skip(1));
    if digits_only(s) {
        assert('0' <= s[0] <= '9');
        assert(unsigned_part(s) == s);
    }
}

/// The states, one by one, and what is said of any other.
proof fn lemma_states(s: Seq<char>)
    ensures
        PR_LIST_STATES.deep_view().contains(s) == is_state(s),
        bad_state(s) == "state must be one of open, closed, merged, all, got `"@
            + s + "`"@,
{
    let states = PR_LIST_STATES.deep_view();
    assert(states =~= seq!["open"@, "closed"@, "merged"@, "all"@]);
    assert(states[0] == "open"@ && states[1] == "closed"@ && states[2] == "merged"@ && states[3]
        == "all"@);
    let three = states.drop_last();
    let two = three.drop_last();
    assert(join(two.drop_last(), ", "@) == "open"@);
    assert(join(two, ", "@) == "open"@ + ", "@ + "closed"@);
    assert(join(three, ", "@) == "open"@ + ", "@ + "closed"@ + ", "@ + "merged"@);
    assert(join(states, ", "@) == "open"@ + ", "@ + "closed"@ + ", "@ + "merged"@ + ", "@
        + "all"@);
    reveal_strlit("open");
    reveal_strlit("closed");
    reveal_strlit("merged");
    reveal_strlit("all");
    reveal_strlit(", ");
    reveal_strlit("state must be one of ");
    reveal_strlit(", got `");
    reveal_strlit("state must be one of open, closed, merged, all, got `");
    assert("state must be one of "@ + join(states, ", "@) + ", got `"@
        =~= "state must be one of open, closed, merged, all, got `"@);
}

/// Pull requests are listed by the state that the call gives, or the open ones where it gives
/// none, as many as it gives, or thirty, the most recently updated first; the template that
/// prints one per line is there exactly where the text face is the one to be served, and the
/// repository that the call names stands last.
pub proof fn pr_list_runs(call: CallView)
    requires
        call.allows("urn:cap:exec:gh"@),
        call.arg("state"@) matches Some(state) ==> is_state(state),
        call.arg("limit"@) matches Some(count) ==> plain_number(count) && value(count)
            <= u32::MAX,
    ensures
        ({
            let state = match call.arg("state"@) {
                Some(state) => state,
                None => "open"@,
            };
            let count = match call.arg("limit"@) {
                Some(count) => count,
                None => "30"@,
            };
            planned(FacadeView::PrList, call) == gh_run(
                call,
                seq![
                    "pr"@,
                    "list"@,
                    "--state"@,
                    state,
                    "--limit"@,
                    count,
                    "--search"@,
                    "sort:updated-desc"@,
                    "--json"@,
                    "number,title,state,headRefName,updatedAt"@,
                ] + (if structured(call) {
                    Seq::empty()
                } else {
                    seq![
                        "--template"@,
                        "{{range .}}{{.number}}\t{{.title}}\t{{.state}}\t{{.headRefName}}\t{{timefmt \"2006-01-02T15:04:05Z07:00\" .updatedAt}}\n{{end}}"@,
                    ]
                }) + pair("--repo"@, call.arg("repo"@)),
            )
        }),
{
    lemma_scopes_of_tools();
    faces_are_selected_by_substring(call);
    lemma_states(state_of(call));
    lemma_states("open"@);
    lemma_count_is_handed_on(call, 30, "30"@);
    let state = match call.arg("state"@) {
        Some(state) => state,
        None => "open"@,
    };
    let count = match call.arg("limit"@) {
        Some(count) => count,
        None => "30"@,
    };
    assert(planned(FacadeView::PrList, call) is Ok);
    assert(planned(FacadeView::PrList, call)->Ok_0.args =~= seq![
        "pr"@,
        "list"@,
        "--state"@,
        state,
        "--limit"@,
        count,
        "--search"@,
        "sort:updated-desc"@,
        "--json"@,
        "number,title,state,headRefName,updatedAt"@,
    ] + (if structured(call) {
        Seq::empty()
    } else {
        seq![
            "--template"@,
            "{{range .}}{{.number}}\t{{.title}}\t{{.state}}\t{{.headRefName}}\t{{timefmt \"2006-01-02T15:04:05Z07:00\" .updatedAt}}\n{{end}}"@,
        ]
    }) + pair("--repo"@, call.arg("repo"@)));
}

/// The count that is handed on is the one that was given, or else the default.
proof fn lemma_count_is_handed_on(call: CallView, default: u32, spelled: Seq<char>)
    requires
        call.arg("limit"@) matches Some(count) ==> plain_number(count) && value(count)
            <= u32::MAX,
        (default == 30 && spelled == "30"@) || (default == 20 && spelled == "20"@),
    ensures
        limit(call, default) is Ok,
        decimal(limit(call, default)->Ok_0 as nat) == match call.arg("limit"@) {
            Some(count) => count,
            None => spelled,
        },
{
    match call.arg("limit"@) {
        Some(count) => {
            lemma_count(count);
            lemma_written_as_given(count);
        },
        None => {
            reveal_strlit("30");
            reveal_strlit("20");
            reveal_with_fuel(decimal, 3);
            assert(decimal(30) =~= "30"@);
            assert(decimal(20) =~= "20"@);
        },
    }
}

/// What the listing of pull requests refuses: a state that is none, a limit that is no count,
/// and a call without the scope, in that order.
pub proof fn pr_list_refuses(call: CallView)
    ensures
        ({
            let unknown_state = call.arg("state"@) is Some && !is_state(call.arg("state"@)->0);
            let bad_limit = call.arg("limit"@) is Some && !gives_a_count(call.arg("limit"@)->0);
            if unknown_state {
                planned(FacadeView::PrList, call) == Err::<CommandView, Failure>(
                    Failure::Endpoint(
                        "state must be one of open, closed, merged, all, got `"@ + call.arg(
                            "state"@,
                        )->0 + "`"@,
                    ),
                )
            } else if bad_limit {
                planned(FacadeView::PrList, call) == Err::<CommandView, Failure>(
                    Failure::Endpoint(
                        "limit must be a number, got `"@ + call.arg("limit"@)->0 + "`"@,
                    ),
                )
            } else if !call.allows("urn:cap:exec:gh"@) {
                planned(FacadeView::PrList, call) == Err::<CommandView, Failure>(
                    Failure::Denied("exec: capability does not grant `urn:cap:exec:gh`"@),
                )
            } else {
                planned(FacadeView::PrList, call) is Ok
            }
        }),
{
    lemma_scopes_of_tools();
    lemma_denied();
    lemma_states(state_of(call));
    lemma_states("open"@);
    if call.arg("limit"@) is Some {
        lemma_count(call.arg("limit"@)->0);
    }
}

/// The history is asked of git in the directory that the call names, as many commits as it
/// gives, or twenty; commits are printed with their four fields exactly where the structured
/// face is the one to be served; and the path that the call names stands last, behind git's
/// own delimiter.
pub proof fn log_runs(call: CallView)
    requires
        call.allows("urn:cap:exec:git"@),
        call.arg("limit"@) matches Some(count) ==> plain_number(count) && value(count)
            <= u32::MAX,
        call.arg("path"@) matches Some(path) ==> path.len() > 0 && path[0] != '-',
    ensures
        ({
            let count = match call.arg("limit"@) {
                Some(count) => count,
                None => "20"@,
            };
            planned(FacadeView::Log, call) == git_run(
                call,
                seq![
                    "log"@,
                    if structured(call) {
                        "--pretty=format:%H%x1f%an%x1f%aI%x1f%s"@
                    } else {
                        "--oneline"@
                    },
                    "-"@ + count,
                ] + pair("--"@, call.arg("path"@)),
            )
        }),
{
    lemma_scopes_of_tools();
    faces_are_selected_by_substring(call);
    lemma_count_is_handed_on(call, 20, "20"@);
    let count = match call.arg("limit"@) {
        Some(count) => count,
        None => "20"@,
    };
    assert(planned(FacadeView::Log, call) is Ok);
    assert(planned(FacadeView::Log, call)->Ok_0.args =~= pair("-C"@, call.arg("dir"@)) + (seq![
        "log"@,
        if structured(call) {
            "--pretty=format:%H%x1f%an%x1f%aI%x1f%s"@
        } else {
            "--oneline"@
        },
        "-"@ + count,
    ] + pair("--"@, call.arg("path"@))));
}

/// What the history refuses: a limit that is no count, a path that is empty or looks like a
/// flag, and a call without the scope, in that order.
pub proof fn log_refuses(call: CallView)
    ensures
        ({
            let bad_limit = call.arg("limit"@) is Some && !gives_a_count(call.arg("limit"@)->0);
            if bad_limit {
                planned(FacadeView::Log, call) == Err::<CommandView, Failure>(
                    Failure::Endpoint(
                        "limit must be a number, got `"@ + call.arg("limit"@)->0 + "`"@,
                    ),
                )
            } else if call.arg("path"@) is Some && call.arg("path"@)->0.len() == 0 {
                planned(FacadeView::Log, call) == Err::<CommandView, Failure>(
                    Failure::Endpoint("path must not be empty"@),
                )
            } else if call.arg("path"@) is Some && call.arg("path"@)->0[0] == '-' {
                planned(FacadeView::Log, call) == Err::<CommandView, Failure>(
                    Failure::Endpoint(
                        "path must be a pathspec, not a flag: got `"@ + call.arg("path"@)->0
                            + "`"@,
                    ),
                )
            } else if !call.allows("urn:cap:exec:git"@) {
                planned(FacadeView::Log, call) == Err::<CommandView, Failure>(
                    Failure::Denied("exec: capability does not grant `urn:cap:exec:git`"@),
                )
            } else {
                planned(FacadeView::Log, call) is Ok
            }
        }),
{
    lemma_scopes_of_tools();
    lemma_denied();
    if call.arg("limit"@) is Some {
        lemma_count(call.arg("limit"@)->0);
    }
}

/// Counts and pull requests are read as numbers: a zero ahead of the digits changes nothing,
/// nor does a plus sign ahead of a count.
pub proof fn numbers_are_read_as_numbers(facade: FacadeView, call: CallView, digits: Seq<char>)
    requires
        digits_only(digits),
    ensures
        value(digits) <= u64::MAX ==> planned(
            facade,
            call.with_arg("pr"@, seq!['0'] + digits),
        ) == planned(facade, call.with_arg("pr"@, digits)),
        value(digits) <= u32::MAX ==> planned(
            facade,
            call.with_arg("limit"@, seq!['0'] + digits),
        ) == planned(facade, call.with_arg("limit"@, digits)),
        value(digits) <= u32::MAX ==> planned(
            facade,
            call.with_arg("limit"@, seq!['+'] + digits),
        ) == planned(facade, call.with_arg("limit"@, digits)),
{
    let zero = seq!['0'] + digits;
    let plus = seq!['+'] + digits;
    assert(plus.skip(1) =~= digits);
    assert(digits_only(zero));
    lemma_zero_ahead(digits);
    lemma_digits(zero);
    lemma_digits(digits);
    lemma_same_number(facade, call, "pr"@, zero, digits);
    lemma_count(zero);
    lemma_count(digits);
    lemma_same_number(facade, call, "limit"@, zero, digits);
    lemma_same_number(facade, call, "limit"@, plus, digits);
}

/// Two ways to write one number under one name make the same call.
proof fn lemma_same_number(
    facade: FacadeView,
    call: CallView,
    name: Seq<char>,
    one: Seq<char>,
    other: Seq<char>,
)
    requires
        name == "pr"@ || name == "limit"@,
    ensures
        name == "pr"@ && pr_number(call.with_arg(name, one))
            == pr_number(call.with_arg(name, other)) ==> planned(
            facade,
            call.with_arg(name, one),
        ) == planned(facade, call.with_arg(name, other)),
        name == "limit"@ && number(one, u32::MAX as nat) is Some
            && number(one, u32::MAX as nat) == number(
            other,
            u32::MAX as nat,
        ) ==> planned(facade, call.with_arg(name, one)) == planned(
            facade,
            call.with_arg(name, other),
        ),
{
    let a = call.with_arg(name, one);
    let b = call.with_arg(name, other);
    reveal_strlit("pr");
    reveal_strlit("limit");
    reveal_strlit("tool");
    reveal_strlit("args");
    reveal_strlit("dir");
    reveal_strlit("repo");
    reveal_strlit("state");
    reveal_strlit("path");
    reveal_strlit("as");
    assert("pr"@.len() == 2 && "limit"@.len() == 5);
    assert("path"@.len() == 4 && "repo"@.len() == 4);
    assert("limit"@[0] != "state"@[0]);
    assert("pr"@[0] != "as"@[0]);
    assert(a.arg("tool"@) == b.arg("tool"@));
    assert(a.arg("args"@) == b.arg("args"@));
    assert(a.arg("dir"@) == b.arg("dir"@));
    assert(a.arg("repo"@) == b.arg("repo"@));
    assert(a.arg("state"@) == b.arg("state"@));
    assert(a.arg("path"@) == b.arg("path"@));
    assert(a.arg("as"@) == b.arg("as"@));
    if name == "pr"@ {
        assert(a.arg("limit"@) == b.arg("limit"@));
    } else {
        assert(a.arg("pr"@) == b.arg("pr"@));
    }
    if (name == "pr"@ && pr_number(a) == pr_number(b)) || (name
        == "limit"@ && number(one, u32::MAX as nat) is Some
        && number(one, u32::MAX as nat) == number(
        other,
        u32::MAX as nat,
    )) {
        assert(wanted(facade, a) == wanted(facade, b));
    }
}

/// Whether a text names one of the four tools that may be run.
pub open spec fn is_tool(s: Seq<char>) -> bool {
    s == "git"@ || s == "gh"@ || s == "cargo"@ || s == "just"@
}

/// The tools, one by one, and what is said of any other.
proof fn lemma_tool(s: Seq<char>)
    ensures
        ALLOWED_TOOLS.deep_view().contains(s) == is_tool(s),
        not_allowlisted(s) == "exec: `"@ + s
            + "` is not an allowlisted tool (git, gh, cargo, just)"@,
{
    let tools = ALLOWED_TOOLS.deep_view();
    lemma_scopes_of_tools();
    assert(tools[2] == "cargo"@ && tools[3] == "just"@);
    let three = tools.drop_last();
    let two = three.drop_last();
    assert(join(two.drop_last(), ", "@) == "git"@);
    assert(join(two, ", "@) == "git"@ + ", "@ + "gh"@);
    assert(join(three, ", "@) == "git"@ + ", "@ + "gh"@ + ", "@ + "cargo"@);
    let all = "git"@ + ", "@ + "gh"@ + ", "@ + "cargo"@ + ", "@ + "just"@;
    assert(join(tools, ", "@) == all);
    reveal_strlit("git");
    reveal_strlit("gh");
    reveal_strlit("cargo");
    reveal_strlit("just");
    reveal_strlit(", ");
    reveal_strlit("` is not an allowlisted tool (");
    reveal_strlit(")");
    reveal_strlit("` is not an allowlisted tool (git, gh, cargo, just)");
    assert("` is not an allowlisted tool ("@ + all + ")"@
        =~= "` is not an allowlisted tool (git, gh, cargo, just)"@);
    assert(not_allowlisted(s) =~= "exec: `"@ + s + (
    "` is not an allowlisted tool ("@ + all + ")"@));
}

/// The low-level seam runs the tool that the call names, with the arguments that it gives one
/// per line and no others, in the directory that it names.
pub proof fn exec_runs(call: CallView, tool: Seq<char>, given: Seq<Seq<char>>)
    requires
        call.arg("tool"@) == Some(tool),
        is_tool(tool),
        call.allows("urn:cap:exec:"@ + tool),
        forall|i: int|
            0 <= i < given.len() ==> (#[trigger] given[i]).len() > 0 && !given[i].contains('\n'),
        match call.arg("args"@) {
            Some(args) => args == join(given, seq!['\n']),
            None => given.len() == 0,
        },
    ensures
        planned(FacadeView::Exec, call) == Ok::<CommandView, Failure>(
            CommandView { tool, args: given, dir: call.arg("dir"@) },
        ),
{
    lemma_tool(tool);
    arguments_come_one_per_line(given);
    if call.arg("args"@) is None {
        assert(given =~= Seq::empty());
        assert(join(given, seq!['\n']) =~= Seq::empty());
    }
}

/// The lines of the low-level seam's arguments stand for themselves: two texts of arguments
/// with a line feed between them give the arguments of the one and then those of the other.
pub proof fn exec_takes_line_after_line(call: CallView, one: Seq<char>, other: Seq<char>)
    requires
        planned(FacadeView::Exec, call) is Ok,
    ensures
        planned(FacadeView::Exec, call.with_arg("args"@, one)) is Ok,
        planned(FacadeView::Exec, call.with_arg("args"@, other)) is Ok,
        planned(
            FacadeView::Exec,
            call.with_arg("args"@, one + seq!['\n'] + other),
        ) == Ok::<CommandView, Failure>(
            CommandView {
                args: planned(FacadeView::Exec, call.with_arg("args"@, one))->Ok_0.args + planned(
                    FacadeView::Exec,
                    call.with_arg("args"@, other),
                )->Ok_0.args,
                ..planned(FacadeView::Exec, call)->Ok_0
            },
        ),
{
    reveal_strlit("args");
    reveal_strlit("tool");
    reveal_strlit("dir");
    assert("args"@[0] != "tool"@[0]);
    splitting_at_a_separator(one, other, '\n');
    Seq::filter_distributes_over_add(
        split(one, '\n'),
        split(other, '\n'),
        |a: Seq<char>| a.len() > 0,
    );
}

/// What the low-level seam refuses: a call without a tool, a tool that is not one of the
/// four, and a call without the scope of its tool, in that order.
pub proof fn exec_refuses(call: CallView)
    ensures
        match call.arg("tool"@) {
            None => planned(FacadeView::Exec, call) == Err::<CommandView, Failure>(
                Failure::MissingArgument("tool (git, gh, cargo, just)"@),
            ),
            Some(tool) => if !is_tool(tool) {
                planned(FacadeView::Exec, call) == Err::<CommandView, Failure>(
                    Failure::Endpoint(
                        "exec: `"@ + tool + "` is not an allowlisted tool (git, gh, cargo, just)"@,
                    ),
                )
            } else if !call.allows("urn:cap:exec:"@ + tool) {
                planned(FacadeView::Exec, call) == Err::<CommandView, Failure>(
                    Failure::Denied(
                        "exec: capability does not grant `urn:cap:exec:"@ + tool + "`"@,
                    ),
                )
            } else {
                planned(FacadeView::Exec, call) is Ok
            },
        },
{
    if call.arg("tool"@) is Some {
        let tool = call.arg("tool"@)->0;
        lemma_tool(tool);
        reveal_strlit("exec: capability does not grant `");
        reveal_strlit("urn:cap:exec:");
        reveal_strlit("exec: capability does not grant `urn:cap:exec:");
        assert(not_granted(exec_scope(tool))
            =~= "exec: capability does not grant `urn:cap:exec:"@ + tool + "`"@);
    }
}

/// Repositories are looked for, under the one scope for it, where the call says, or else
/// where the environment says, or else in the one directory under the home directory; and
/// where none of these is known the call is told so.
pub proof fn list_scans(call: CallView, env: EnvView)
    ensures
        HOME_REPOS@ == "git-personal"@,
        call.allows("urn:cap:fs:read:*"@) ==> scan_of(call, env) == root_of(call, env),
        !call.allows("urn:cap:fs:read:*"@) ==> scan_of(call, env) == Err::<RootView, Failure>(
            Failure::Denied("repo-list: capability does not grant `urn:cap:fs:read:*`"@),
        ),
        call.allows("urn:cap:fs:read:*"@) ==> {
            &&& call.arg("root"@) matches Some(root) ==> scan_of(call, env) == Ok::<
                RootView,
                Failure,
            >(RootView::Dir(root))
            &&& call.arg("root"@) is None ==> (env.repo_root matches Some(root) ==> scan_of(
                call,
                env,
            ) == Ok::<RootView, Failure>(RootView::Dir(root)))
            &&& call.arg("root"@) is None && env.repo_root is None ==> (env.home matches Some(
                home,
            ) ==> scan_of(call, env) == Ok::<RootView, Failure>(RootView::UnderHome(home)))
            &&& call.arg("root"@) is None && env.repo_root is None && env.home is None
                ==> scan_of(call, env) == Err::<RootView, Failure>(
                Failure::Endpoint(
                    "repo-list: no root=, no IKIGAI_REPO_ROOT, and $HOME is unset"@,
                ),
            )
        },
{
    reveal_strlit("repo-list: capability does not grant `");
    reveal_strlit("urn:cap:fs:read:*");
    reveal_strlit("`");
    reveal_strlit("repo-list: capability does not grant `urn:cap:fs:read:*`");
    assert("repo-list: capability does not grant `"@ + "urn:cap:fs:read:*"@ + "`"@
        =~= "repo-list: capability does not grant `urn:cap:fs:read:*`"@);
}

/// Whether an endpoint of the space answers under an identifier.
pub open spec fn answers(iri: Seq<char>, endpoint: EndpointView) -> bool {
    bindings().contains(BindingView { iri, endpoint })
}

/// One endpoint answers under an identifier.
pub(crate) proof fn lemma_answers(k: int, endpoint: EndpointView)
    requires
        0 <= k < 10,
        answers(bindings()[k].iri, endpoint),
    ensures
        endpoint == bindings()[k].endpoint,
{
    identifiers_are_distinct();
    let binding = BindingView { iri: bindings()[k].iri, endpoint };
    let i = choose|i: int| 0 <= i < bindings().len() && bindings()[i] == binding;
    assert(bindings()[i].iri == bindings()[k].iri);
}

/// An endpoint answers under each of the ten identifiers.
pub proof fn the_space_answers()
    ensures
        exists|e: EndpointView| #[trigger] answers("urn:system:exec"@, e),
        exists|e: EndpointView| #[trigger] answers("urn:repo:status"@, e),
        exists|e: EndpointView| #[trigger] answers("urn:repo:log"@, e),
        exists|e: EndpointView| #[trigger] answers("urn:repo:branch"@, e),
        exists|e: EndpointView| #[trigger] answers("urn:repo:list"@, e),
        exists|e: EndpointView| #[trigger] answers("urn:repo:pr:checks"@, e),
        exists|e: EndpointView| #[trigger] answers("urn:repo:pr:view"@, e),
        exists|e: EndpointView| #[trigger] answers("urn:repo:pr:list"@, e),
        exists|e: EndpointView| #[trigger] answers("urn:repo:pr:files"@, e),
        exists|e: EndpointView| #[trigger] answers("urn:repo:pr:diff"@, e),
{
    let all = bindings();
    assert(all.contains(all[0]) && all.contains(all[1]) && all.contains(all[2])
        && all.contains(all[3]) && all.contains(all[4]));
    assert(all.contains(all[5]) && all.contains(all[6]) && all.contains(all[7])
        && all.contains(all[8]) && all.contains(all[9]));
    assert(answers("urn:system:exec"@, all[0].endpoint));
    assert(answers("urn:repo:status"@, all[1].endpoint));
    assert(answers("urn:repo:log"@, all[2].endpoint));
    assert(answers("urn:repo:branch"@, all[3].endpoint));
    assert(answers("urn:repo:list"@, all[4].endpoint));
    assert(answers("urn:repo:pr:checks"@, all[5].endpoint));
    assert(answers("urn:repo:pr:view"@, all[6].endpoint));
    assert(answers("urn:repo:pr:list"@, all[7].endpoint));
    assert(answers("urn:repo:pr:files"@, all[8].endpoint));
    assert(answers("urn:repo:pr:diff"@, all[9].endpoint));
}

/// A planned command as an endpoint's step.
pub open spec fn as_step(command: Result<CommandView, Failure>) -> Result<StepView, Failure> {
    match command {
        Ok(command) => Ok(StepView::Run(command)),
        Err(failure) => Err(failure),
    }
}

/// `urn:repo:status` asks git for the status, and `urn:repo:branch` for the current branch.
pub proof fn status_and_branch_run(
    status: EndpointView,
    branch: EndpointView,
    call: CallView,
    env: EnvView,
)
    requires
        answers("urn:repo:status"@, status),
        answers("urn:repo:branch"@, branch),
    ensures
        call.allows("urn:cap:exec:git"@) ==> {
            &&& step_of(status, call, env) == as_step(
                git_run(call, seq!["status"@, "--porcelain=v1"@, "-b"@]),
            )
            &&& step_of(branch, call, env) == as_step(
                git_run(call, seq!["branch"@, "--show-current"@]),
            )
        },
        !call.allows("urn:cap:exec:git"@) ==> {
            let denied = Failure::Denied("exec: capability does not grant `urn:cap:exec:git`"@);
            &&& step_of(status, call, env) == Err::<StepView, Failure>(denied)
            &&& step_of(branch, call, env) == Err::<StepView, Failure>(denied)
        },
{
    lemma_answers(1, status);
    lemma_answers(3, branch);
    match status {
        EndpointView::Tool(FacadeView::Git { id, title, summary, git_args }) => {
            git_facades_run(id, title, summary, git_args, call);
        },
        _ => {},
    }
    match branch {
        EndpointView::Tool(FacadeView::Git { id, title, summary, git_args }) => {
            git_facades_run(id, title, summary, git_args, call);
        },
        _ => {},
    }
}

/// The endpoints over one pull request ask gh for what their identifiers say: the checks, the
/// overview and the diff. The overview's structured face carries, among others, the head
/// commit; the two others have none and ask for none.
pub proof fn pr_reads_run(
    checks: EndpointView,
    view: EndpointView,
    diff: EndpointView,
    call: CallView,
    env: EnvView,
    pr: Seq<char>,
)
    requires
        answers("urn:repo:pr:checks"@, checks),
        answers("urn:repo:pr:view"@, view),
        answers("urn:repo:pr:diff"@, diff),
        call.allows("urn:cap:exec:gh"@),
        call.arg("pr"@) == Some(pr),
        plain_number(pr),
        value(pr) <= u64::MAX,
    ensures
        step_of(checks, call, env) == as_step(
            gh_run(call, seq!["pr"@, "checks"@, pr] + pair("--repo"@, call.arg("repo"@))),
        ),
        step_of(diff, call, env) == as_step(
            gh_run(call, seq!["pr"@, "diff"@, pr] + pair("--repo"@, call.arg("repo"@))),
        ),
        step_of(view, call, env) == as_step(
            gh_run(
                call,
                seq!["pr"@, "view"@, pr] + (if structured(call) {
                    seq![
                        "--json"@,
                        "number,title,state,isDraft,headRefName,headRefOid,baseRefName,author,updatedAt,url,body"@,
                    ]
                } else {
                    Seq::empty()
                }) + pair("--repo"@, call.arg("repo"@)),
            ),
        ),
{
    lemma_answers(5, checks);
    lemma_answers(6, view);
    lemma_answers(9, diff);
    let named = pair("--repo"@, call.arg("repo"@));
    match checks {
        EndpointView::Tool(FacadeView::Pr { id, title, summary, sub, json_fields }) => {
            pr_facades_run(id, title, summary, sub, json_fields, call, pr);
            assert(planned(checks->Tool_0, call)->Ok_0.args =~= seq!["pr"@, "checks"@, pr]
                + named);
        },
        _ => {},
    }
    match diff {
        EndpointView::Tool(FacadeView::Pr { id, title, summary, sub, json_fields }) => {
            pr_facades_run(id, title, summary, sub, json_fields, call, pr);
            assert(planned(diff->Tool_0, call)->Ok_0.args =~= seq!["pr"@, "diff"@, pr] + named);
        },
        _ => {},
    }
    match view {
        EndpointView::Tool(FacadeView::Pr { id, title, summary, sub, json_fields }) => {
            pr_facades_run(id, title, summary, sub, json_fields, call, pr);
            assert(planned(view->Tool_0, call)->Ok_0.args =~= seq!["pr"@, "view"@, pr] + (
            if structured(call) {
                seq![
                    "--json"@,
                    "number,title,state,isDraft,headRefName,headRefOid,baseRefName,author,updatedAt,url,body"@,
                ]
            } else {
                Seq::empty()
            }) + named);
        },
        _ => {},
    }
}

/// Under the other identifiers answer the endpoints that are made for them, and the listing
/// of repositories is the one that scans.
pub proof fn other_identifiers_answer(endpoint: EndpointView, call: CallView, env: EnvView)
    ensures
        answers("urn:system:exec"@, endpoint) ==> step_of(endpoint, call, env) == as_step(
            planned(FacadeView::Exec, call),
        ),
        answers("urn:repo:log"@, endpoint) ==> step_of(endpoint, call, env) == as_step(
            planned(FacadeView::Log, call),
        ),
        answers("urn:repo:pr:list"@, endpoint) ==> step_of(endpoint, call, env) == as_step(
            planned(FacadeView::PrList, call),
        ),
        answers("urn:repo:pr:files"@, endpoint) ==> step_of(endpoint, call, env) == as_step(
            planned(FacadeView::PrFiles, call),
        ),
        answers("urn:repo:list"@, endpoint) ==> match scan_of(call, env) {
            Ok(root) => step_of(endpoint, call, env) == Ok::<StepView, Failure>(
                StepView::Scan(root),
            ),
            Err(failure) => step_of(endpoint, call, env) == Err::<StepView, Failure>(failure),
        },
{
    if answers("urn:system:exec"@, endpoint) {
        lemma_answers(0, endpoint);
    }
    if answers("urn:repo:log"@, endpoint) {
        lemma_answers(2, endpoint);
    }
    if answers("urn:repo:list"@, endpoint) {
        lemma_answers(4, endpoint);
    }
    if answers("urn:repo:pr:list"@, endpoint) {
        lemma_answers(7, endpoint);
    }
    if answers("urn:repo:pr:files"@, endpoint) {
        lemma_answers(8, endpoint);
    }
}

/// The gates let a run through as it is, or refuse it: a tool that is not one of the four, and
/// a call without the scope of the tool, in that order.
pub proof fn gates_let_through(call: CallView, command: CommandView)
    ensures
        gated(call, command) == if !is_tool(command.tool) {
            Err(
                Failure::Endpoint(
                    "exec: `"@ + command.tool
                        + "` is not an allowlisted tool (git, gh, cargo, just)"@,
                ),
            )
        } else if !call.allows("urn:cap:exec:"@ + command.tool) {
            Err(
                Failure::Denied(
                    "exec: capability does not grant `urn:cap:exec:"@ + command.tool + "`"@,
                ),
            )
        } else {
            Ok(command)
        },
{
    lemma_tool(command.tool);
    reveal_strlit("exec: capability does not grant `");
    reveal_strlit("urn:cap:exec:");
    reveal_strlit("exec: capability does not grant `urn:cap:exec:");
    assert(not_granted(exec_scope(command.tool))
        =~= "exec: capability does not grant `urn:cap:exec:"@ + command.tool + "`"@);
}

/// An endpoint's step is its plan: a run for one that runs a tool, a scan for the listing.
pub proof fn steps_are_plans(facade: FacadeView, call: CallView, env: EnvView)
    ensures
        step_of(EndpointView::Tool(facade), call, env) == as_step(planned(facade, call)),
        match scan_of(call, env) {
            Ok(root) => step_of(EndpointView::List, call, env) == Ok::<StepView, Failure>(
                StepView::Scan(root),
            ),
            Err(failure) => step_of(EndpointView::List, call, env) == Err::<StepView, Failure>(
                failure,
            ),
        },
{
}

/// A count is the number that its digits spell, and the default where none is given.
pub proof fn counts_are_read(call: CallView, default: u32)
    ensures
        match call.arg("limit"@) {
            None => limit(call, default) == Ok::<u32, Failure>(default),
            Some(s) => if !gives_a_count(s) {
                limit(call, default) == Err::<u32, Failure>(
                    Failure::Endpoint("limit must be a number, got `"@ + s + "`"@),
                )
            } else if digits_only(s) {
                limit(call, default) matches Ok(n) && n == value(s)
            } else {
                limit(call, default) matches Ok(n) && n == value(s.skip(1))
            },
        },
{
    if call.arg("limit"@) is Some {
        let s = call.arg("limit"@)->0;
        lemma_count(s);
        lemma_digits(s);
        lemma_digits(s.skip(1));
    }
}

/// A pull request is the number that its digits spell.
pub proof fn pull_requests_are_read(call: CallView)
    ensures
        match call.arg("pr"@) {
            None => pr_number(call) == Err::<u64, Failure>(
                Failure::MissingArgument("pr (the pull-request number)"@),
            ),
            Some(s) => if digits_only(s) && value(s) <= u64::MAX {
                pr_number(call) matches Ok(n) && n == value(s)
            } else {
                pr_number(call) == Err::<u64, Failure>(
                    Failure::Endpoint("pr must be a number, got `"@ + s + "`"@),
                )
            },
        },
{
    if call.arg("pr"@) is Some {
        lemma_digits(call.arg("pr"@)->0);
    }
}

/// A path is taken as it is given, unless it is empty or looks like a flag.
pub proof fn paths_are_read(call: CallView)
    ensures
        match call.arg("path"@) {
            None => path(call) == Ok::<Option<Seq<char>>, Failure>(None),
            Some(s) => if s.len() == 0 {
                path(call) == Err::<Option<Seq<char>>, Failure>(
                    Failure::Endpoint("path must not be empty"@),
                )
            } else if s[0] == '-' {
                path(call) == Err::<Option<Seq<char>>, Failure>(
                    Failure::Endpoint(
                        "path must be a pathspec, not a flag: got `"@ + s + "`"@,
                    ),
                )
            } else {
                path(call) == Ok::<Option<Seq<char>>, Failure>(Some(s))
            },
        },
{
}

/// The argument vectors, whatever they are built for: each argument stands where the tool
/// looks for it, a template is there for the text face alone, and what is not given is left
/// out.
pub proof fn argument_vectors_are_whole(
    words: Seq<Seq<char>>,
    state: Seq<char>,
    n: nat,
    fields: Option<Seq<char>>,
    dir: Option<Seq<char>>,
    pathspec: Option<Seq<char>>,
    repo: Option<Seq<char>>,
)
    ensures
        pr_argv(words, n, fields, repo) == words + seq![decimal(n)] + pair(
            "--json"@,
            fields,
        ) + pair("--repo"@, repo),
        pr_files_argv(n, true, repo) == seq![
            "pr"@,
            "view"@,
            decimal(n),
            "--json"@,
            "files"@,
        ] + pair("--repo"@, repo),
        pr_files_argv(n, false, repo) == seq![
            "pr"@,
            "view"@,
            decimal(n),
            "--json"@,
            "files"@,
            "--template"@,
            "{{range .files}}{{.path}}\n{{end}}"@,
        ] + pair("--repo"@, repo),
        pr_list_argv(state, n, true, repo) == seq![
            "pr"@,
            "list"@,
            "--state"@,
            state,
            "--limit"@,
            decimal(n),
            "--search"@,
            "sort:updated-desc"@,
            "--json"@,
            "number,title,state,headRefName,updatedAt"@,
        ] + pair("--repo"@, repo),
        pr_list_argv(state, n, false, repo) == seq![
            "pr"@,
            "list"@,
            "--state"@,
            state,
            "--limit"@,
            decimal(n),
            "--search"@,
            "sort:updated-desc"@,
            "--json"@,
            "number,title,state,headRefName,updatedAt"@,
            "--template"@,
            "{{range .}}{{.number}}\t{{.title}}\t{{.state}}\t{{.headRefName}}\t{{timefmt \"2006-01-02T15:04:05Z07:00\" .updatedAt}}\n{{end}}"@,
        ] + pair("--repo"@, repo),
        log_argv(dir, n, true, pathspec) == pair("-C"@, dir) + seq![
            "log"@,
            "--pretty=format:%H%x1f%an%x1f%aI%x1f%s"@,
            "-"@ + decimal(n),
        ] + pair("--"@, pathspec),
        log_argv(dir, n, false, pathspec) == pair("-C"@, dir) + seq![
            "log"@,
            "--oneline"@,
            "-"@ + decimal(n),
        ] + pair("--"@, pathspec),
{
}

} // verus!
