//! What holds of the endpoints as a whole: what may run, what a description promises, what
//! reaches a tool.
use crate::args::{asks_json, limit, pr_number, quoting};
use crate::argv::{
    flag, log_argv, pr_files_argv, pr_list_argv, PR_FILES_TEMPLATE, PR_LIST_STATES,
    PR_LIST_TEMPLATE,
};
use crate::call::{CallView, Failure};
use crate::catalog::{described, list_described, FACES, JSON_OUTPUT, TEXT_OUTPUT};
use crate::describe::DescriptionView;
use crate::facade::{
    bad_state, exec_argv, finished, planned, rendered, serves_json, state_of, wanted, FacadeView,
};
use crate::host::{argument_names, asked_scopes};
use crate::list::{scan_of, EnvView, FS_READ};
use crate::number::{all_digits, decimal, decimal_reads_back, decimal_spells_its_number, number};
use crate::repr::canonical_types;
use crate::run::{
    ended_result, exec_scope, not_allowlisted, not_granted, utf8_lossy, CommandView, EndedView,
    ALLOWED_TOOLS,
};
use crate::space::{self_description, step_of, EndpointView, StepView};
use crate::text::{
    join, occurs, occurs_at, pieces_hold_no_separator, split, splitting_undoes_joining, trim,
};
use vstd::prelude::*;

verus! {

/// The tools that may be run, one by one.
proof fn lemma_tools()
    ensures
        ALLOWED_TOOLS.deep_view() == seq!["git"@, "gh"@, "cargo"@, "just"@],
        ALLOWED_TOOLS.deep_view().contains("git"@),
        ALLOWED_TOOLS.deep_view().contains("gh"@),
{
    let tools = ALLOWED_TOOLS.deep_view();
    assert(tools =~= seq!["git"@, "gh"@, "cargo"@, "just"@]);
    assert(tools[0] == "git"@);
    assert(tools[1] == "gh"@);
}

/// No grant, no tool: whatever endpoint is called with whatever arguments, what is run is an
/// allowlisted tool whose scope the call holds.
pub proof fn only_granted_tools_run(facade: FacadeView, call: CallView)
    ensures
        planned(facade, call) matches Ok(command) ==> {
            &&& ALLOWED_TOOLS.deep_view().contains(command.tool)
            &&& call.allows(exec_scope(command.tool))
        },
{
}

/// The allowlist is the outer bound: a tool off the list is refused, as such, under every
/// grant.
pub proof fn unlisted_tools_are_refused(call: CallView, tool: Seq<char>)
    requires
        call.arg("tool"@) == Some(tool),
        !ALLOWED_TOOLS.deep_view().contains(tool),
    ensures
        planned(FacadeView::Exec, call) == Err::<CommandView, Failure>(
            Failure::Endpoint(not_allowlisted(tool)),
        ),
{
}

/// A missing capability is a typed refusal: a call that is well formed for an endpoint is
/// run when it holds the scope of the tool, and denied, with that scope named, when it does
/// not.
pub proof fn ungranted_calls_are_denied(facade: FacadeView, call: CallView)
    requires
        wanted(facade, call) is Ok,
        ALLOWED_TOOLS.deep_view().contains(wanted(facade, call)->Ok_0.tool),
    ensures
        ({
            let scope = exec_scope(wanted(facade, call)->Ok_0.tool);
            planned(facade, call) == if call.allows(scope) {
                wanted(facade, call)
            } else {
                Err(Failure::Denied(not_granted(scope)))
            }
        }),
{
}

/// Scopes are matched exactly: the wildcard that the low-level seam is offered under is a
/// scope like any other, and whoever holds nothing but that runs nothing.
pub proof fn the_wildcard_runs_nothing(facade: FacadeView, call: CallView)
    requires
        forall|scope: Seq<char>| call.allows(scope) ==> scope == "urn:cap:exec:*"@,
    ensures
        planned(facade, call) is Err,
{
    lemma_tools();
    reveal_strlit("urn:cap:exec:*");
    reveal_strlit("urn:cap:exec:");
    reveal_strlit("git");
    reveal_strlit("gh");
    reveal_strlit("cargo");
    reveal_strlit("just");
    if planned(facade, call) is Ok {
        let tool = planned(facade, call)->Ok_0.tool;
        assert(exec_scope(tool)[13] == tool[0]);
    }
}

/// The tool that an endpoint runs, where it runs one only.
pub open spec fn tool_of(facade: FacadeView) -> Option<Seq<char>> {
    match facade {
        FacadeView::Exec => None,
        FacadeView::Git { .. } => Some("git"@),
        FacadeView::Log => Some("git"@),
        FacadeView::Pr { .. } => Some("gh"@),
        FacadeView::PrFiles => Some("gh"@),
        FacadeView::PrList => Some("gh"@),
    }
}

/// The declared scope is the enforced one. A typed facade declares the scope of the one tool
/// that it ever runs: with it a well-formed call runs, without it the call is denied.
pub proof fn facades_enforce_what_they_declare(facade: FacadeView, call: CallView)
    requires
        !(facade is Exec),
    ensures
        tool_of(facade) is Some,
        described(facade).requires == seq![exec_scope(tool_of(facade)->0)],
        wanted(facade, call) matches Ok(command) ==> {
            &&& command.tool == tool_of(facade)->0
            &&& planned(facade, call) == if call.allows(described(facade).requires[0]) {
                Ok(command)
            } else {
                Err(Failure::Denied(not_granted(described(facade).requires[0])))
            }
        },
        planned(facade, call) is Ok ==> call.allows(described(facade).requires[0]),
{
    lemma_tools();
    reveal_strlit("urn:cap:exec:");
    reveal_strlit("urn:cap:exec:git");
    reveal_strlit("urn:cap:exec:gh");
    reveal_strlit("git");
    reveal_strlit("gh");
    assert("urn:cap:exec:git"@ =~= exec_scope("git"@));
    assert("urn:cap:exec:gh"@ =~= exec_scope("gh"@));
}

/// The low-level seam declares the family of scopes that it enforces: every tool that it
/// takes is one of those that it declares, under the scope of that name in the family.
pub proof fn the_seam_enforces_its_family(call: CallView)
    ensures
        described(FacadeView::Exec).requires == seq![exec_scope("*"@)],
        planned(FacadeView::Exec, call) matches Ok(command) ==> {
            &&& call.arg("tool"@) == Some(command.tool)
            &&& described(FacadeView::Exec).inputs[0].name == "tool"@
            &&& described(FacadeView::Exec).inputs[0].one_of.contains(command.tool)
            &&& call.allows(exec_scope(command.tool))
        },
{
    reveal_strlit("urn:cap:exec:");
    reveal_strlit("urn:cap:exec:*");
    reveal_strlit("*");
    assert("urn:cap:exec:*"@ =~= exec_scope("*"@));
}

/// Listing repositories is gated before anything else: without the declared scope it is
/// denied whatever its arguments and the environment say, and with it it never is.
pub proof fn listing_enforces_what_it_declares(call: CallView, env: EnvView)
    ensures
        list_described().requires == seq![FS_READ@],
        scan_of(call, env) matches Err(Failure::Denied(_)) <==> !call.allows(FS_READ@),
{
}

/// Listing runs no tool and needs no tool's scope: grants for tools neither open it nor are
/// asked of it.
pub proof fn listing_asks_for_no_tool(call: CallView, tool: Seq<char>, env: EnvView)
    requires
        ALLOWED_TOOLS.deep_view().contains(tool),
    ensures
        scan_of(CallView { args: call.args, grants: call.grants.insert(exec_scope(tool)) }, env)
            == scan_of(call, env),
{
    lemma_tools();
    reveal_strlit("urn:cap:exec:");
    reveal_strlit("urn:cap:fs:read:*");
    assert(exec_scope(tool)[8] != FS_READ@[8]);
}

/// An explicit root wins over whatever the environment says.
pub proof fn an_explicit_root_wins(call: CallView, one: EnvView, other: EnvView)
    requires
        call.arg("root"@) is Some,
    ensures
        scan_of(call, one) == scan_of(call, other),
{
}

/// Whether two calls give a description's inputs alike.
pub open spec fn agree_on(description: DescriptionView, a: CallView, b: CallView) -> bool {
    forall|i: int|
        0 <= i < description.inputs.len() ==> a.arg(
            (#[trigger] description.inputs[i]).name,
        ) == b.arg(description.inputs[i].name)
}

/// The declared inputs are all that an endpoint reads: two calls under the same grants that
/// agree on them are planned alike and served alike, whatever else they carry.
pub proof fn only_declared_inputs_count(
    facade: FacadeView,
    a: CallView,
    b: CallView,
    out: Seq<char>,
)
    requires
        agree_on(described(facade), a, b),
        a.grants == b.grants,
    ensures
        planned(facade, a) == planned(facade, b),
        rendered(facade, a, out) == rendered(facade, b, out),
{
    let inputs = described(facade).inputs;
    match facade {
        FacadeView::Exec => {
            assert(inputs[0].name == "tool"@);
            assert(inputs[1].name == "args"@);
            assert(inputs[2].name == "dir"@);
        },
        FacadeView::Git { .. } => {
            assert(inputs[0].name == "dir"@);
        },
        FacadeView::Pr { json_fields, .. } => {
            assert(inputs[0].name == "pr"@);
            assert(inputs[1].name == "repo"@);
            assert(inputs[2].name == "dir"@);
            if json_fields is Some {
                assert(inputs[3].name == "as"@);
            }
        },
        FacadeView::PrFiles => {
            assert(inputs[0].name == "pr"@);
            assert(inputs[1].name == "repo"@);
            assert(inputs[2].name == "dir"@);
            assert(inputs[3].name == "as"@);
        },
        FacadeView::PrList => {
            assert(inputs[0].name == "state"@);
            assert(inputs[1].name == "limit"@);
            assert(inputs[2].name == "repo"@);
            assert(inputs[3].name == "dir"@);
            assert(inputs[4].name == "as"@);
        },
        FacadeView::Log => {
            assert(inputs[0].name == "limit"@);
            assert(inputs[1].name == "path"@);
            assert(inputs[2].name == "dir"@);
            assert(inputs[3].name == "as"@);
        },
    }
}

/// The same of listing: its one declared input and the environment decide where it scans.
pub proof fn only_the_declared_root_counts(a: CallView, b: CallView, env: EnvView)
    requires
        agree_on(list_described(), a, b),
        a.grants == b.grants,
    ensures
        scan_of(a, env) == scan_of(b, env),
{
    assert(list_described().inputs[0].name == "root"@);
}

/// Whether a call lacks an input that a description requires.
pub open spec fn lacks_required(description: DescriptionView, call: CallView) -> bool {
    exists|i: int|
        0 <= i < description.inputs.len() && (#[trigger] description.inputs[i]).required
            && call.arg(description.inputs[i].name) is None
}

/// Required inputs are required, and no others: a call that lacks one is told of a missing
/// argument whatever else it carries and whatever it is granted, and no other call is.
pub proof fn missing_inputs_are_named(facade: FacadeView, call: CallView)
    ensures
        planned(facade, call) matches Err(Failure::MissingArgument(_)) <==> lacks_required(
            described(facade),
            call,
        ),
{
    let inputs = described(facade).inputs;
    assert(inputs.len() > 0);
    if facade is Exec || facade is Pr || facade is PrFiles {
        assert(inputs[0].required);
    }
}

/// The digits of the declared counts.
proof fn lemma_default_counts()
    ensures
        number("30"@, u32::MAX as nat) == Some(30nat),
        number("20"@, u32::MAX as nat) == Some(20nat),
{
    reveal_strlit("30");
    reveal_strlit("20");
    reveal_with_fuel(decimal, 3);
    assert("30"@ =~= decimal(30));
    assert("20"@ =~= decimal(20));
    decimal_reads_back(30, u32::MAX as nat);
    decimal_reads_back(20, u32::MAX as nat);
}

/// Declared defaults are the ones that count: giving an input that was left out its declared
/// default changes neither what is run nor what is served.
pub proof fn declared_defaults_count(facade: FacadeView, call: CallView, i: int, out: Seq<char>)
    requires
        0 <= i < described(facade).inputs.len(),
        described(facade).inputs[i].default is Some,
        call.arg(described(facade).inputs[i].name) is None,
    ensures
        ({
            let input = described(facade).inputs[i];
            let spelled = call.with_arg(input.name, input.default->0);
            &&& planned(facade, spelled) == planned(facade, call)
            &&& rendered(facade, spelled, out) == rendered(facade, call, out)
        }),
{
    let inputs = described(facade).inputs;
    match facade {
        FacadeView::PrList => {
            if i == 0 {
                lemma_default_state(call, out);
            } else {
                assert(i == 1);
                lemma_default_limit(call, out);
            }
        },
        FacadeView::Log => {
            assert(i == 0);
            lemma_default_limit(call, out);
        },
        _ => {
            assert(inputs[i].default is None);
        },
    }
}

/// A call that is given one argument more has its other arguments as before.
proof fn lemma_other_arguments(call: CallView, name: Seq<char>, value: Seq<char>)
    ensures
        call.with_arg(name, value).arg(name) == Some(value),
        call.with_arg(name, value).grants == call.grants,
        forall|other: Seq<char>|
            other != name ==> #[trigger] call.with_arg(name, value).arg(other) == call.arg(other),
{
}

/// The default state is the declared one.
proof fn lemma_default_state(call: CallView, out: Seq<char>)
    requires
        call.arg("state"@) is None,
    ensures
        planned(FacadeView::PrList, call.with_arg("state"@, "open"@)) == planned(
            FacadeView::PrList,
            call,
        ),
        rendered(FacadeView::PrList, call.with_arg("state"@, "open"@), out) == rendered(
            FacadeView::PrList,
            call,
            out,
        ),
{
    lemma_names_differ();
    lemma_other_arguments(call, "state"@, "open"@);
    let spelled = call.with_arg("state"@, "open"@);
    assert(spelled.arg("limit"@) == call.arg("limit"@));
    assert(spelled.arg("repo"@) == call.arg("repo"@));
    assert(spelled.arg("dir"@) == call.arg("dir"@));
    assert(spelled.arg("as"@) == call.arg("as"@));
}

/// The default counts are the declared ones.
proof fn lemma_default_limit(call: CallView, out: Seq<char>)
    requires
        call.arg("limit"@) is None,
    ensures
        planned(FacadeView::PrList, call.with_arg("limit"@, "30"@)) == planned(
            FacadeView::PrList,
            call,
        ),
        rendered(FacadeView::PrList, call.with_arg("limit"@, "30"@), out) == rendered(
            FacadeView::PrList,
            call,
            out,
        ),
        planned(FacadeView::Log, call.with_arg("limit"@, "20"@)) == planned(
            FacadeView::Log,
            call,
        ),
        rendered(FacadeView::Log, call.with_arg("limit"@, "20"@), out) == rendered(
            FacadeView::Log,
            call,
            out,
        ),
{
    lemma_names_differ();
    lemma_default_counts();
    lemma_other_arguments(call, "limit"@, "30"@);
    lemma_other_arguments(call, "limit"@, "20"@);
    let thirty = call.with_arg("limit"@, "30"@);
    assert(thirty.arg("state"@) == call.arg("state"@));
    assert(thirty.arg("repo"@) == call.arg("repo"@));
    assert(thirty.arg("dir"@) == call.arg("dir"@));
    assert(thirty.arg("as"@) == call.arg("as"@));
    let twenty = call.with_arg("limit"@, "20"@);
    assert(twenty.arg("path"@) == call.arg("path"@));
    assert(twenty.arg("dir"@) == call.arg("dir"@));
    assert(twenty.arg("as"@) == call.arg("as"@));
}

/// The names of the inputs are different names.
proof fn lemma_names_differ()
    ensures
        "state"@.len() == 5,
        "limit"@.len() == 5,
        "state"@[0] != "limit"@[0],
        "repo"@.len() == 4,
        "path"@.len() == 4,
        "dir"@.len() == 3,
        "as"@.len() == 2,
{
    reveal_strlit("state");
    reveal_strlit("limit");
    reveal_strlit("repo");
    reveal_strlit("path");
    reveal_strlit("dir");
    reveal_strlit("as");
}

/// A state outside the declared vocabulary is refused under every grant, before any other
/// argument is read, and what is asked of gh is one of the declared states.
pub proof fn states_stay_in_the_vocabulary(call: CallView)
    ensures
        described(FacadeView::PrList).inputs[0].name == "state"@,
        described(FacadeView::PrList).inputs[0].one_of == PR_LIST_STATES.deep_view(),
        !PR_LIST_STATES.deep_view().contains(state_of(call)) ==> planned(
            FacadeView::PrList,
            call,
        ) == Err::<CommandView, Failure>(
            Failure::Endpoint(bad_state(state_of(call))),
        ),
        planned(FacadeView::PrList, call) matches Ok(command) ==> {
            &&& command.args[2] == "--state"@
            &&& PR_LIST_STATES.deep_view().contains(command.args[3])
        },
{
}

/// A media type that is served is one that the description declares.
pub proof fn served_types_are_declared(facade: FacadeView, call: CallView, out: Seq<char>)
    ensures
        described(facade).outputs.contains(
            rendered(facade, call, out).repr_type.canonical(),
        ),
{
    canonical_types();
    let outputs = described(facade).outputs;
    assert(outputs[0] == TEXT_OUTPUT@);
    if serves_json(facade, call) {
        assert(outputs[1] == JSON_OUTPUT@);
    }
}

/// Every declared output is served: a call without `as=` gets the text face, and the same
/// call with `as=application/json` gets the structured face where one is declared.
pub proof fn declared_outputs_are_served(facade: FacadeView, call: CallView, out: Seq<char>)
    requires
        call.arg("as"@) is None,
    ensures
        rendered(facade, call, out).repr_type.canonical() == TEXT_OUTPUT@,
        rendered(
            facade,
            call.with_arg("as"@, FACES.deep_view()[0]),
            out,
        ).repr_type.canonical() == if described(facade).outputs.contains(JSON_OUTPUT@) {
            JSON_OUTPUT@
        } else {
            TEXT_OUTPUT@
        },
        forall|output: Seq<char>|
            described(facade).outputs.contains(output) ==> output == TEXT_OUTPUT@ || output
                == JSON_OUTPUT@,
        described(facade).outputs.contains(TEXT_OUTPUT@),
{
    canonical_types();
    json_selects_json(call);
    let outputs = described(facade).outputs;
    assert(outputs[0] == TEXT_OUTPUT@);
    if outputs.len() > 1 {
        assert(outputs[1] == JSON_OUTPUT@);
    }
    reveal_strlit("text/plain;charset=utf-8");
    reveal_strlit("application/json");
    assert(TEXT_OUTPUT@[0] != JSON_OUTPUT@[0]);
}

/// A face is selected by substring: `as=application/json` and `as=json` both work, and so
/// does every value that holds `json` somewhere.
pub proof fn json_selects_json(call: CallView)
    ensures
        asks_json(call.with_arg("as"@, "application/json"@)),
        asks_json(call.with_arg("as"@, "json"@)),
        forall|before: Seq<char>, behind: Seq<char>|
            asks_json(#[trigger] call.with_arg("as"@, before + "json"@ + behind)),
        FACES.deep_view()[0] == "application/json"@,
{
    assert forall|before: Seq<char>, behind: Seq<char>|
        asks_json(#[trigger] call.with_arg("as"@, before + "json"@ + behind)) by {
        let face = before + "json"@ + behind;
        let at = before.len() as int;
        assert(face.subrange(at, at + "json"@.len()) =~= "json"@);
        assert(occurs_at("json"@, face, at));
    }
    reveal_strlit("application/json");
    reveal_strlit("application/");
    reveal_strlit("json");
    assert("application/json"@ =~= "application/"@ + "json"@ + Seq::empty());
    assert("json"@ =~= Seq::empty() + "json"@ + Seq::empty());
    assert(asks_json(call.with_arg("as"@, "application/"@ + "json"@ + Seq::empty())));
    assert(asks_json(call.with_arg("as"@, Seq::empty() + "json"@ + Seq::empty())));
}

/// The two faces of `urn:repo:pr:list` cannot drift: both ask for one export, and the text
/// face only adds the template that renders it.
pub proof fn list_faces_share_one_export(
    state: Seq<char>,
    count: nat,
    repo: Option<Seq<char>>,
)
    ensures
        ({
            let plain = pr_list_argv(state, count, false, repo);
            let structured = pr_list_argv(state, count, true, repo);
            &&& structured == plain.take(10) + plain.skip(12)
            &&& plain[10] == "--template"@
            &&& plain[11] == PR_LIST_TEMPLATE@
        }),
{
    let plain = pr_list_argv(state, count, false, repo);
    assert(pr_list_argv(state, count, true, repo) =~= plain.take(10) + plain.skip(12));
}

/// The two faces of `urn:repo:pr:files` cannot drift: both ask for one export, and the text
/// face only adds the template that renders it.
pub proof fn files_faces_share_one_export(pr: nat, repo: Option<Seq<char>>)
    ensures
        ({
            let plain = pr_files_argv(pr, false, repo);
            let structured = pr_files_argv(pr, true, repo);
            &&& structured == plain.take(5) + plain.skip(7)
            &&& plain[5] == "--template"@
            &&& plain[6] == PR_FILES_TEMPLATE@
        }),
{
    let plain = pr_files_argv(pr, false, repo);
    assert(pr_files_argv(pr, true, repo) =~= plain.take(5) + plain.skip(7));
}

/// Whether a call names a pull request by a number.
pub open spec fn names_a_pr(call: CallView) -> bool {
    pr_number(call) is Ok
}

/// A stray `pr=` never becomes a flag: over the whole `urn:repo:pr:*` family a value that is
/// no number is refused under every grant, and what stands behind the subcommand is the
/// number in digits.
pub proof fn pr_is_never_a_flag(facade: FacadeView, call: CallView)
    requires
        facade is Pr || facade is PrFiles,
    ensures
        !names_a_pr(call) && call.arg("pr"@) is Some ==> planned(facade, call) == Err::<
            CommandView,
            Failure,
        >(Failure::Endpoint(quoting("pr must be a number, got `"@, call.arg("pr"@)->0))),
        planned(facade, call) is Ok ==> names_a_pr(call),
        planned(facade, call) matches Ok(command) ==> {
            let at = match facade {
                FacadeView::Pr { sub, .. } => sub.len() as int,
                _ => 2,
            };
            &&& command.args[at] == decimal(pr_number(call)->Ok_0 as nat)
            &&& all_digits(command.args[at])
        },
{
    if names_a_pr(call) {
        decimal_spells_its_number(pr_number(call)->Ok_0 as nat);
    }
}

/// A stray `limit=` never becomes a flag: a value that is no number is refused under every
/// grant, and what is handed on is the number in digits.
pub proof fn limit_is_always_a_count(facade: FacadeView, call: CallView)
    ensures
        facade is PrList ==> (planned(facade, call) matches Ok(command) ==> {
            &&& limit(call, 30) is Ok
            &&& command.args[4] == "--limit"@
            &&& command.args[5] == decimal(limit(call, 30)->Ok_0 as nat)
            &&& all_digits(command.args[5])
        }),
        facade is Log ==> (planned(facade, call) matches Ok(command) ==> {
            let at = flag("-C"@, call.arg("dir"@)).len() + 2;
            &&& limit(call, 20) is Ok
            &&& command.args[at as int] == "-"@ + decimal(limit(call, 20)->Ok_0 as nat)
            &&& all_digits(decimal(limit(call, 20)->Ok_0 as nat))
        }),
{
    if limit(call, 30) is Ok {
        decimal_spells_its_number(limit(call, 30)->Ok_0 as nat);
    }
    if limit(call, 20) is Ok {
        decimal_spells_its_number(limit(call, 20)->Ok_0 as nat);
    }
}

/// A path reaches git as a path and only a path: it is the last argument, right behind
/// git's own delimiter, it is not empty and does not look like a flag. Without a path the
/// count is the last argument. Either face takes the same path.
pub proof fn paths_ride_behind_the_delimiter(call: CallView)
    ensures
        planned(FacadeView::Log, call) matches Ok(command) ==> match call.arg("path"@) {
            Some(pathspec) => {
                let end = command.args.len() as int;
                &&& pathspec.len() > 0
                &&& pathspec[0] != '-'
                &&& command.args[end - 2] == "--"@
                &&& command.args[end - 1] == pathspec
            },
            None => command.args.last() == "-"@ + decimal(limit(call, 20)->Ok_0 as nat),
        },
{
}

/// Both faces of the history ask for the same commits: their invocations differ in the one
/// argument that says how a commit is printed.
pub proof fn log_faces_ask_for_the_same_commits(
    dir: Option<Seq<char>>,
    count: nat,
    pathspec: Option<Seq<char>>,
)
    ensures
        ({
            let at = flag("-C"@, dir).len() + 1;
            &&& log_argv(dir, count, true, pathspec) == log_argv(
                dir,
                count,
                false,
                pathspec,
            ).update(at as int, "--pretty=format:%H%x1f%an%x1f%aI%x1f%s"@)
            &&& log_argv(dir, count, false, pathspec)[at as int] == "--oneline"@
        }),
{
    let at = flag("-C"@, dir).len() + 1;
    assert(log_argv(dir, count, true, pathspec) =~= log_argv(
        dir,
        count,
        false,
        pathspec,
    ).update(at as int, "--pretty=format:%H%x1f%an%x1f%aI%x1f%s"@));
}

/// A listing of pull requests answers "what moved lately": under every state, limit and
/// face it asks for the most recently updated first.
pub proof fn listings_are_by_recency(call: CallView)
    ensures
        planned(FacadeView::PrList, call) matches Ok(command) ==> {
            &&& command.args[6] == "--search"@
            &&& command.args[7] == "sort:updated-desc"@
        },
{
}

/// The directory that a call names is where the tool works: git is told so by its own flag,
/// ahead of everything else, and every other tool is started there.
pub proof fn directories_are_handed_on(facade: FacadeView, call: CallView)
    ensures
        planned(facade, call) matches Ok(command) ==> if facade is Git || facade is Log {
            let first = flag("-C"@, call.arg("dir"@));
            &&& command.dir is None
            &&& command.args.take(first.len() as int) == first
        } else {
            command.dir == call.arg("dir"@)
        },
{
    if planned(facade, call) is Ok && (facade is Git || facade is Log) {
        let first = flag("-C"@, call.arg("dir"@));
        let args = planned(facade, call)->Ok_0.args;
        assert(args.take(first.len() as int) =~= first);
    }
}

/// The repository that a call names is handed on to gh, behind everything else.
pub proof fn repositories_are_handed_on(facade: FacadeView, call: CallView, repo: Seq<char>)
    requires
        tool_of(facade) == Some("gh"@),
        call.arg("repo"@) == Some(repo),
    ensures
        planned(facade, call) matches Ok(command) ==> {
            let end = command.args.len() as int;
            &&& command.args[end - 2] == "--repo"@
            &&& command.args[end - 1] == repo
        },
{
    reveal_strlit("git");
    reveal_strlit("gh");
}

/// A run is served exactly when its tool exited with success; every other end is an
/// endpoint's error that says why: what kept the process from starting, or what the tool
/// said of errors.
pub proof fn failed_runs_say_why(
    facade: FacadeView,
    call: CallView,
    tool: Seq<char>,
    ended: EndedView,
)
    ensures
        finished(facade, call, tool, ended) is Ok <==> (ended matches EndedView::Exited {
            success: true,
            ..
        }),
        match ended {
            EndedView::NotStarted(why) => finished(facade, call, tool, ended) matches Err(
                Failure::Endpoint(message),
            ) && occurs(why, message),
            EndedView::Exited { success, stderr, .. } => !success ==> (finished(
                facade,
                call,
                tool,
                ended,
            ) matches Err(Failure::Endpoint(message)) && occurs(
                trim(utf8_lossy(stderr)),
                message,
            )),
        },
{
    match ended {
        EndedView::NotStarted(why) => {
            lemma_ends_with("exec: could not run `"@ + tool + "`: "@, why);
        },
        EndedView::Exited { success, code, stdout, stderr } => {
            if !success {
                let said = trim(utf8_lossy(stderr));
                let message = ended_result(tool, ended)->Err_0->Endpoint_0;
                lemma_ends_with(message.take(message.len() - said.len()), said);
                assert(message =~= message.take(message.len() - said.len()) + said);
            }
        },
    }
}

/// A text occurs where it stands last.
proof fn lemma_ends_with(before: Seq<char>, s: Seq<char>)
    ensures
        occurs(s, before + s),
{
    let at = before.len() as int;
    assert((before + s).subrange(at, at + s.len()) =~= s);
    assert(occurs_at(s, before + s, at));
}

/// The argument vector of the low-level seam is what its lines say: arguments that are not
/// empty and hold no line feed, written one per line, come out as they went in.
pub proof fn arguments_come_one_per_line(args: Seq<Seq<char>>)
    requires
        forall|i: int|
            0 <= i < args.len() ==> (#[trigger] args[i]).len() > 0 && !args[i].contains('\n'),
    ensures
        exec_argv(join(args, seq!['\n'])) == args,
{
    if args.len() == 0 {
        assert(join(args, seq!['\n']) =~= Seq::empty());
        reveal_with_fuel(Seq::filter, 2);
        assert(seq![Seq::<char>::empty()].drop_last() =~= Seq::empty());
        assert(exec_argv(Seq::empty()) =~= args);
    } else {
        splitting_undoes_joining(args, '\n');
        lemma_keeps_all(args);
    }
}

/// Nothing is taken out of a list of texts that are not empty.
proof fn lemma_keeps_all(args: Seq<Seq<char>>)
    requires
        forall|i: int| 0 <= i < args.len() ==> (#[trigger] args[i]).len() > 0,
    ensures
        args.filter(|a: Seq<char>| a.len() > 0) == args,
    decreases args.len(),
{
    reveal(Seq::filter);
    if args.len() > 0 {
        lemma_keeps_all(args.drop_last());
        assert(args.last().len() > 0);
        assert(args.drop_last().push(args.last()) =~= args);
    } else {
        assert(args.filter(|a: Seq<char>| a.len() > 0) =~= args);
    }
}

/// Whatever text the arguments are given in, no argument that comes of it is empty or holds
/// a line feed.
pub proof fn arguments_are_single_lines(s: Seq<char>)
    ensures
        forall|i: int|
            0 <= i < exec_argv(s).len() ==> (#[trigger] exec_argv(s)[i]).len() > 0
                && !exec_argv(s)[i].contains('\n'),
{
    pieces_hold_no_separator(s, '\n');
    lemma_kept_texts(split(s, '\n'));
}

/// What is kept of a list of texts is not empty and was in the list.
proof fn lemma_kept_texts(texts: Seq<Seq<char>>)
    ensures
        ({
            let kept = texts.filter(|a: Seq<char>| a.len() > 0);
            forall|i: int|
                0 <= i < kept.len() ==> (#[trigger] kept[i]).len() > 0 && texts.contains(kept[i])
        }),
    decreases texts.len(),
{
    reveal(Seq::filter);
    if texts.len() > 0 {
        let fewer = texts.drop_last();
        lemma_kept_texts(fewer);
        let kept = texts.filter(|a: Seq<char>| a.len() > 0);
        let kept_before = fewer.filter(|a: Seq<char>| a.len() > 0);
        assert forall|i: int| 0 <= i < kept.len() implies (#[trigger] kept[i]).len() > 0
            && texts.contains(kept[i]) by {
            if i < kept_before.len() {
                assert(kept[i] == kept_before[i]);
                let k = choose|k: int| 0 <= k < fewer.len() && fewer[k] == kept[i];
                assert(texts[k] == kept[i]);
            } else {
                assert(kept[i] == texts[texts.len() - 1]);
            }
        }
    }
}

/// A call that is cut down to the arguments that the endpoints read and the scopes that they
/// ask for.
pub open spec fn cut_down(call: CallView) -> CallView {
    CallView {
        args: call.args.restrict(argument_names()),
        grants: call.grants.intersect(asked_scopes()),
    }
}

/// Reading a call off an invocation loses nothing: no endpoint can tell the call that is cut
/// down from the whole one.
pub proof fn reading_a_call_loses_nothing(
    facade: FacadeView,
    call: CallView,
    out: Seq<char>,
    env: EnvView,
)
    ensures
        planned(facade, cut_down(call)) == planned(facade, call),
        rendered(facade, cut_down(call), out) == rendered(facade, call, out),
        scan_of(cut_down(call), env) == scan_of(call, env),
{
    let small = cut_down(call);
    lemma_tools();
    lemma_scopes();
    assert(forall|name: Seq<char>|
        argument_names().contains(name) ==> #[trigger] small.arg(name) == call.arg(name));
    assert(forall|tool: Seq<char>|
        ALLOWED_TOOLS.deep_view().contains(tool) ==> small.allows(#[trigger] exec_scope(tool))
            == call.allows(exec_scope(tool)));
    assert(small.arg("tool"@) == call.arg("tool"@));
    assert(small.arg("args"@) == call.arg("args"@));
    assert(small.arg("dir"@) == call.arg("dir"@));
    assert(small.arg("as"@) == call.arg("as"@));
    assert(small.arg("limit"@) == call.arg("limit"@));
    assert(small.arg("pr"@) == call.arg("pr"@));
    assert(small.arg("path"@) == call.arg("path"@));
    assert(small.arg("repo"@) == call.arg("repo"@));
    assert(small.arg("state"@) == call.arg("state"@));
    assert(small.arg("root"@) == call.arg("root"@));
    assert(wanted(facade, small) == wanted(facade, call));
}

/// The scope of every tool that may be run is asked for.
proof fn lemma_scopes()
    ensures
        forall|tool: Seq<char>|
            ALLOWED_TOOLS.deep_view().contains(tool) ==> asked_scopes().contains(
                #[trigger] exec_scope(tool),
            ),
{
    lemma_tools();
    reveal_strlit("urn:cap:exec:");
    reveal_strlit("urn:cap:exec:git");
    reveal_strlit("urn:cap:exec:gh");
    reveal_strlit("urn:cap:exec:cargo");
    reveal_strlit("urn:cap:exec:just");
    reveal_strlit("git");
    reveal_strlit("gh");
    reveal_strlit("cargo");
    reveal_strlit("just");
    assert("urn:cap:exec:git"@ =~= exec_scope("git"@));
    assert("urn:cap:exec:gh"@ =~= exec_scope("gh"@));
    assert("urn:cap:exec:cargo"@ =~= exec_scope("cargo"@));
    assert("urn:cap:exec:just"@ =~= exec_scope("just"@));
}

/// Nothing is done without a grant: whatever endpoint of the space is called, a tool that it
/// wants run is allowlisted and granted, and a directory is read only under the scope for it.
pub proof fn every_step_is_granted(endpoint: EndpointView, call: CallView, env: EnvView)
    ensures
        match step_of(endpoint, call, env) {
            Ok(StepView::Run(command)) => {
                &&& endpoint is Tool
                &&& ALLOWED_TOOLS.deep_view().contains(command.tool)
                &&& call.allows(exec_scope(command.tool))
            },
            Ok(StepView::Scan(_)) => endpoint is List && call.allows(FS_READ@),
            Err(_) => true,
        },
{
}

/// Every endpoint but the low-level seam does nothing without the scope that it declares.
pub proof fn every_endpoint_enforces_what_it_declares(
    endpoint: EndpointView,
    call: CallView,
    env: EnvView,
)
    requires
        endpoint != EndpointView::Tool(FacadeView::Exec),
    ensures
        step_of(endpoint, call, env) is Ok ==> call.allows(
            self_description(endpoint).requires[0],
        ),
{
    if endpoint is Tool {
        facades_enforce_what_they_declare(endpoint->Tool_0, call);
    }
}

/// Every endpoint reads its declared inputs alone: two calls under the same grants that agree
/// on them want the same done.
pub proof fn every_endpoint_reads_its_inputs_alone(
    endpoint: EndpointView,
    a: CallView,
    b: CallView,
    env: EnvView,
)
    requires
        agree_on(self_description(endpoint), a, b),
        a.grants == b.grants,
    ensures
        step_of(endpoint, a, env) == step_of(endpoint, b, env),
{
    match endpoint {
        EndpointView::Tool(facade) => {
            only_declared_inputs_count(facade, a, b, Seq::empty());
        },
        EndpointView::List => {
            only_the_declared_root_counts(a, b, env);
        },
    }
}

/// Every endpoint tells of a missing argument exactly where a required input is left out.
pub proof fn every_endpoint_names_missing_inputs(
    endpoint: EndpointView,
    call: CallView,
    env: EnvView,
)
    ensures
        step_of(endpoint, call, env) matches Err(Failure::MissingArgument(_)) <==> lacks_required(
            self_description(endpoint),
            call,
        ),
{
    if endpoint is Tool {
        missing_inputs_are_named(endpoint->Tool_0, call);
    }
}

} // verus!
