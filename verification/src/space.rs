//! The dev-tooling space: which endpoint answers under which identifier.
use crate::argv::{flag, PR_VIEW_JSON_FIELDS};
use crate::call::{CallView, Failure};
use crate::catalog::{describe_list, described, list_described};
use crate::describe::{Description, DescriptionView, Verb, XSD_INTEGER, XSD_STRING};
use crate::facade::{
    gh_pr_facade, git_facade, log, planned, pr_files, pr_list, system_exec, Facade, FacadeView,
};
use crate::list::{scan_of, EnvView, Root, RootView};
use crate::run::{Command, CommandView};
use vstd::prelude::*;

verus! {

/// The summary of `urn:repo:status`.
pub const STATUS_SUMMARY: &'static str =
    "The working tree's status, machine-readable (git status --porcelain=v1 -b).";

/// The summary of `urn:repo:branch`.
pub const BRANCH_SUMMARY: &'static str = "The current branch name (git branch --show-current).";

/// The summary of `urn:repo:pr:checks`.
pub const PR_CHECKS_SUMMARY: &'static str =
    "The CI check runs for a pull request and their state (gh pr checks). A \
     SNAPSHOT — for a blocking wait use gh's own --watch; the standing poll job \
     (host-side, time transport) is what removes the wait from an agent's loop.";

/// The summary of `urn:repo:pr:view`.
pub const PR_VIEW_SUMMARY: &'static str =
    "A pull request's title, state, and metadata (gh pr view); \
     as=application/json for the structured face, which carries headRefOid — \
     the PR head commit sha a review archive keys on.";

/// The summary of `urn:repo:pr:diff`.
pub const PR_DIFF_SUMMARY: &'static str =
    "A pull request's unified diff (gh pr diff) — the raw change an explainer \
     or a code review reads. Pair with urn:repo:pr:view as=application/json for the \
     head sha the diff corresponds to.";

/// An endpoint of the space.
#[derive(Debug, PartialEq, Eq)]
pub enum Endpoint {
    /// One that runs a tool.
    Tool(Facade),
    /// `urn:repo:list`, which reads a directory and runs nothing.
    List,
}

/// An [`Endpoint`] as plain text.
#[verifier::ext_equal]
pub enum EndpointView {
    Tool(FacadeView),
    List,
}

impl DeepView for Endpoint {
    type V = EndpointView;

    open spec fn deep_view(&self) -> EndpointView {
        match self {
            Endpoint::Tool(facade) => EndpointView::Tool(facade.deep_view()),
            Endpoint::List => EndpointView::List,
        }
    }
}

/// What an endpoint says of itself.
pub open spec fn self_description(endpoint: EndpointView) -> DescriptionView {
    match endpoint {
        EndpointView::Tool(facade) => described(facade),
        EndpointView::List => list_described(),
    }
}

impl Endpoint {
    /// What the endpoint says of itself.
    pub fn describe(&self) -> (description: Description)
        ensures
            description.deep_view() == self_description(self.deep_view()),
    {
        match self {
            Endpoint::Tool(facade) => facade.describe(),
            Endpoint::List => describe_list(),
        }
    }
}

/// What an endpoint wants done before it can serve.
#[derive(Debug, PartialEq, Eq)]
pub enum Step {
    /// This tool is to be run.
    Run(Command),
    /// This directory is to be read.
    Scan(Root),
}

/// A [`Step`] as plain text.
#[verifier::ext_equal]
pub enum StepView {
    Run(CommandView),
    Scan(RootView),
}

impl DeepView for Step {
    type V = StepView;

    open spec fn deep_view(&self) -> StepView {
        match self {
            Step::Run(command) => StepView::Run(command.deep_view()),
            Step::Scan(root) => StepView::Scan(root.deep_view()),
        }
    }
}

/// What a call of an endpoint wants done, or why it is refused: a tool-running endpoint runs
/// its planned command, the listing scans its root.
pub open spec fn step_of(
    endpoint: EndpointView,
    call: CallView,
    env: EnvView,
) -> Result<StepView, Failure> {
    match endpoint {
        EndpointView::Tool(facade) => match planned(facade, call) {
            Ok(command) => Ok(StepView::Run(command)),
            Err(failure) => Err(failure),
        },
        EndpointView::List => match scan_of(call, env) {
            Ok(root) => Ok(StepView::Scan(root)),
            Err(failure) => Err(failure),
        },
    }
}

/// `urn:repo:list`.
pub fn list() -> (endpoint: Endpoint)
    ensures
        endpoint.deep_view() == EndpointView::List,
{
    Endpoint::List
}

/// An endpoint and the identifier under which it answers.
#[derive(Debug, PartialEq, Eq)]
pub struct Binding {
    /// The identifier, matched exactly.
    pub iri: String,
    /// The endpoint.
    pub endpoint: Endpoint,
}

/// A [`Binding`] as plain text.
#[verifier::ext_equal]
pub struct BindingView {
    pub iri: Seq<char>,
    pub endpoint: EndpointView,
}

impl DeepView for Binding {
    type V = BindingView;

    open spec fn deep_view(&self) -> BindingView {
        BindingView { iri: self.iri@, endpoint: self.endpoint.deep_view() }
    }
}

/// A tool-running endpoint under an identifier.
pub open spec fn binds(iri: Seq<char>, facade: FacadeView) -> BindingView {
    BindingView { iri, endpoint: EndpointView::Tool(facade) }
}

/// The endpoint of `urn:repo:status`.
pub open spec fn status_facade() -> FacadeView {
    FacadeView::Git {
        id: "repo-status"@,
        title: "Repository status"@,
        summary: STATUS_SUMMARY@,
        git_args: seq!["status"@, "--porcelain=v1"@, "-b"@],
    }
}

/// The endpoint of `urn:repo:branch`.
pub open spec fn branch_facade() -> FacadeView {
    FacadeView::Git {
        id: "repo-branch"@,
        title: "Current branch"@,
        summary: BRANCH_SUMMARY@,
        git_args: seq!["branch"@, "--show-current"@],
    }
}

/// The endpoint of `urn:repo:pr:checks`.
pub open spec fn checks_facade() -> FacadeView {
    FacadeView::Pr {
        id: "repo-pr-checks"@,
        title: "PR check status"@,
        summary: PR_CHECKS_SUMMARY@,
        sub: seq!["pr"@, "checks"@],
        json_fields: None,
    }
}

/// The endpoint of `urn:repo:pr:view`.
pub open spec fn view_facade() -> FacadeView {
    FacadeView::Pr {
        id: "repo-pr-view"@,
        title: "PR overview"@,
        summary: PR_VIEW_SUMMARY@,
        sub: seq!["pr"@, "view"@],
        json_fields: Some(PR_VIEW_JSON_FIELDS@),
    }
}

/// The endpoint of `urn:repo:pr:diff`.
pub open spec fn diff_facade() -> FacadeView {
    FacadeView::Pr {
        id: "repo-pr-diff"@,
        title: "PR diff"@,
        summary: PR_DIFF_SUMMARY@,
        sub: seq!["pr"@, "diff"@],
        json_fields: None,
    }
}

/// The endpoints of the space and their identifiers.
pub open spec fn bindings() -> Seq<BindingView> {
    seq![
        binds("urn:system:exec"@, FacadeView::Exec),
        binds("urn:repo:status"@, status_facade()),
        binds("urn:repo:log"@, FacadeView::Log),
        binds("urn:repo:branch"@, branch_facade()),
        BindingView { iri: "urn:repo:list"@, endpoint: EndpointView::List },
        binds("urn:repo:pr:checks"@, checks_facade()),
        binds("urn:repo:pr:view"@, view_facade()),
        binds("urn:repo:pr:list"@, FacadeView::PrList),
        binds("urn:repo:pr:files"@, FacadeView::PrFiles),
        binds("urn:repo:pr:diff"@, diff_facade()),
    ]
}

/// Bind one endpoint more.
fn bind(space: &mut Vec<Binding>, iri: &str, endpoint: Endpoint)
    ensures
        final(space).deep_view() == old(space).deep_view().push(
            BindingView { iri: iri@, endpoint: endpoint.deep_view() },
        ),
{
    let ghost view = BindingView { iri: iri@, endpoint: endpoint.deep_view() };
    space.push(Binding { iri: iri.to_string(), endpoint });
    assert(space.deep_view() =~= old(space).deep_view().push(view));
}

/// The dev-tooling space: the exec seam and the read facades.
pub fn space() -> (space: Vec<Binding>)
    ensures
        space.deep_view() == bindings(),
{
    let mut space: Vec<Binding> = Vec::new();
    bind(&mut space, "urn:system:exec", Endpoint::Tool(system_exec()));
    let status = git_facade(
        "repo-status",
        "Repository status",
        STATUS_SUMMARY,
        &["status", "--porcelain=v1", "-b"],
    );
    assert(status.deep_view() =~= status_facade());
    bind(&mut space, "urn:repo:status", Endpoint::Tool(status));
    bind(&mut space, "urn:repo:log", Endpoint::Tool(log()));
    let branch = git_facade(
        "repo-branch",
        "Current branch",
        BRANCH_SUMMARY,
        &["branch", "--show-current"],
    );
    assert(branch.deep_view() =~= branch_facade());
    bind(&mut space, "urn:repo:branch", Endpoint::Tool(branch));
    bind(&mut space, "urn:repo:list", list());
    let checks = gh_pr_facade(
        "repo-pr-checks",
        "PR check status",
        PR_CHECKS_SUMMARY,
        &["pr", "checks"],
        None,
    );
    assert(checks.deep_view() =~= checks_facade());
    bind(&mut space, "urn:repo:pr:checks", Endpoint::Tool(checks));
    let view = gh_pr_facade(
        "repo-pr-view",
        "PR overview",
        PR_VIEW_SUMMARY,
        &["pr", "view"],
        Some(PR_VIEW_JSON_FIELDS),
    );
    assert(view.deep_view() =~= view_facade());
    bind(&mut space, "urn:repo:pr:view", Endpoint::Tool(view));
    bind(&mut space, "urn:repo:pr:list", Endpoint::Tool(pr_list()));
    bind(&mut space, "urn:repo:pr:files", Endpoint::Tool(pr_files()));
    let diff = gh_pr_facade(
        "repo-pr-diff",
        "PR diff",
        PR_DIFF_SUMMARY,
        &["pr", "diff"],
        None,
    );
    assert(diff.deep_view() =~= diff_facade());
    bind(&mut space, "urn:repo:pr:diff", Endpoint::Tool(diff));
    assert(space.deep_view() =~= bindings());
    space
}

/// Ten endpoints answer, each under an identifier of its own: no endpoint hides another.
pub proof fn identifiers_are_distinct()
    ensures
        bindings().len() == 10,
        forall|i: int, j: int|
            0 <= i < j < 10 ==> #[trigger] bindings()[i].iri != #[trigger] bindings()[j].iri,
{
    reveal_strlit("urn:system:exec");
    reveal_strlit("urn:repo:status");
    reveal_strlit("urn:repo:log");
    reveal_strlit("urn:repo:branch");
    reveal_strlit("urn:repo:list");
    reveal_strlit("urn:repo:pr:checks");
    reveal_strlit("urn:repo:pr:view");
    reveal_strlit("urn:repo:pr:list");
    reveal_strlit("urn:repo:pr:files");
    reveal_strlit("urn:repo:pr:diff");
    assert("urn:system:exec"@[4] != "urn:repo:status"@[4]);
    assert("urn:system:exec"@[4] != "urn:repo:branch"@[4]);
    assert("urn:repo:status"@[9] != "urn:repo:branch"@[9]);
    assert("urn:repo:pr:view"@[12] != "urn:repo:pr:list"@[12]);
    assert("urn:repo:pr:view"@[12] != "urn:repo:pr:diff"@[12]);
    assert("urn:repo:pr:list"@[12] != "urn:repo:pr:diff"@[12]);
    assert(bindings()[0].iri == "urn:system:exec"@);
    assert(bindings()[1].iri == "urn:repo:status"@);
    assert(bindings()[2].iri == "urn:repo:log"@);
    assert(bindings()[3].iri == "urn:repo:branch"@);
    assert(bindings()[4].iri == "urn:repo:list"@);
    assert(bindings()[5].iri == "urn:repo:pr:checks"@);
    assert(bindings()[6].iri == "urn:repo:pr:view"@);
    assert(bindings()[7].iri == "urn:repo:pr:list"@);
    assert(bindings()[8].iri == "urn:repo:pr:files"@);
    assert(bindings()[9].iri == "urn:repo:pr:diff"@);
}

/// What the endpoint at a position says of itself.
pub open spec fn description_at(i: int) -> DescriptionView {
    self_description(bindings()[i].endpoint)
}

/// A name in lower-case words with single hyphens between them.
pub open spec fn is_kebab_case(s: Seq<char>) -> bool {
    &&& s.len() > 0
    &&& forall|i: int| 0 <= i < s.len() ==> #[trigger] s[i] == '-' || 'a' <= s[i] <= 'z'
    &&& forall|i: int|
        0 <= i < s.len() && #[trigger] s[i] == '-' ==> 0 < i < s.len() - 1 && s[i + 1] != '-'
}

/// The endpoints' own names are distinct, and each is in kebab case.
pub proof fn names_are_distinct()
    ensures
        forall|i: int, j: int|
            0 <= i < j < 10 ==> (#[trigger] description_at(i)).id != (#[trigger] description_at(
                j,
            )).id,
        forall|i: int| 0 <= i < 10 ==> is_kebab_case((#[trigger] description_at(i)).id),
{
    reveal_strlit("system-exec");
    reveal_strlit("repo-status");
    reveal_strlit("repo-log");
    reveal_strlit("repo-branch");
    reveal_strlit("repo-list");
    reveal_strlit("repo-pr-checks");
    reveal_strlit("repo-pr-view");
    reveal_strlit("repo-pr-list");
    reveal_strlit("repo-pr-files");
    reveal_strlit("repo-pr-diff");
    assert("system-exec"@[0] != "repo-status"@[0]);
    assert("system-exec"@[0] != "repo-branch"@[0]);
    assert("repo-status"@[5] != "repo-branch"@[5]);
    assert("repo-pr-view"@[8] != "repo-pr-list"@[8]);
    assert("repo-pr-view"@[8] != "repo-pr-diff"@[8]);
    assert("repo-pr-list"@[8] != "repo-pr-diff"@[8]);
    assert(description_at(0).id == "system-exec"@);
    assert(description_at(1).id == "repo-status"@);
    assert(description_at(2).id == "repo-log"@);
    assert(description_at(3).id == "repo-branch"@);
    assert(description_at(4).id == "repo-list"@);
    assert(description_at(5).id == "repo-pr-checks"@);
    assert(description_at(6).id == "repo-pr-view"@);
    assert(description_at(7).id == "repo-pr-list"@);
    assert(description_at(8).id == "repo-pr-files"@);
    assert(description_at(9).id == "repo-pr-diff"@);
}

/// Every endpoint is a read: it answers to being read and to being asked about itself, and
/// to nothing else; and it declares one scope, at least one type that it serves, and a
/// datatype for every input.
pub proof fn every_endpoint_is_a_read(i: int)
    requires
        0 <= i < bindings().len(),
    ensures
        description_at(i).verbs == seq![Verb::Source, Verb::Meta],
        description_at(i).requires.len() == 1,
        description_at(i).outputs.len() > 0,
        forall|k: int|
            0 <= k < description_at(i).inputs.len() ==> {
                let class = (#[trigger] description_at(i).inputs[k]).class;
                class == Some(XSD_STRING@) || class == Some(XSD_INTEGER@)
            },
{
}

/// Whether a tool's arguments begin with a subcommand that only reads.
pub open spec fn is_read(tool: Seq<char>, args: Seq<Seq<char>>) -> bool {
    ||| tool == "git"@ && (args[0] == "status"@ || args[0] == "log"@)
    ||| tool == "git"@ && args[0] == "branch"@ && args[1] == "--show-current"@
    ||| tool == "gh"@ && args[0] == "pr"@ && (args[1] == "view"@ || args[1] == "list"@ || args[1]
        == "checks"@ || args[1] == "diff"@)
}

/// The verb tells the truth: whatever a typed facade of the space is called with, what it
/// runs is a subcommand that only reads.
pub proof fn facades_only_read(i: int, call: CallView)
    requires
        0 <= i < bindings().len(),
        bindings()[i].endpoint is Tool,
        !(bindings()[i].endpoint->Tool_0 is Exec),
    ensures
        planned(bindings()[i].endpoint->Tool_0, call) matches Ok(command) ==> {
            let ahead = if command.tool == "git"@ {
                flag("-C"@, call.arg("dir"@)).len() as int
            } else {
                0
            };
            is_read(command.tool, command.args.skip(ahead))
        },
{
    reveal_strlit("git");
    reveal_strlit("gh");
    let facade = bindings()[i].endpoint->Tool_0;
    if planned(facade, call) is Ok {
        let command = planned(facade, call)->Ok_0;
        let ahead = if command.tool == "git"@ {
            flag("-C"@, call.arg("dir"@)).len() as int
        } else {
            0
        };
        let args = command.args.skip(ahead);
        assert(args[0] == command.args[ahead]);
        assert(args[1] == command.args[ahead + 1]);
    }
}

} // verus!
