//! Answering the kernel's own invocations: the call that one makes is read off it, and the
//! endpoints are asked with that call.
use crate::args::asks_json;
use crate::call::{outcome, Call, CallView, Error, Failure};
use crate::facade::{finished, planned, rendered, Facade, FacadeView};
use crate::laws::{cut_down, reading_a_call_loses_nothing};
use crate::list::{plan_scan, scan_of, Env, EnvView, Root};
use crate::repr::{ReprView, Representation};
use crate::run::{ended_result, Command, Ended};
use crate::space::{step_of, Endpoint, Step};
use ikigai_core::Invocation;
use vstd::prelude::*;
use vstd::utf8::{decode_utf8, valid_utf8};

verus! {

/// The kernel's context of one invocation: its request and its capability.
#[verifier::external_type_specification]
#[verifier::external_body]
pub struct ExInvocation<'a>(Invocation<'a>);

/// The arguments of an invocation's request that are given inline and are valid UTF-8, by
/// name.
pub uninterp spec fn inline_args(inv: &Invocation<'_>) -> Map<Seq<char>, Seq<char>>;

/// The scopes that an invocation's capability holds; the root capability holds every one.
pub uninterp spec fn held_scopes(inv: &Invocation<'_>) -> Set<Seq<char>>;

/// A scope that a capability grants just by holding it: neither an exclusion, whose rule
/// begins with a minus sign behind a colon, nor the name of a principal.
pub open spec fn plain_scope(scope: Seq<char>) -> bool {
    &&& forall|i: int| 0 <= i < scope.len() - 1 && scope[i] == ':' ==> #[trigger] scope[i + 1] != '-'
    &&& !"urn:cap:principal:"@.is_prefix_of(scope)
}

/// `Invocation::inline_str`: the text of the argument of that name, where the request
/// carries one inline and it is valid UTF-8. The error that says why there is none is
/// dropped.
#[verifier::external_body]
fn inline_str<'a>(inv: &'a Invocation<'_>, name: &str) -> (value: Option<&'a str>)
    ensures
        value matches Some(text) ==> inline_args(inv).contains_pair(name@, text@),
        value is None ==> !inline_args(inv).contains_key(name@),
{
    inv.inline_str(name).ok()
}

/// `Capability::allows` of the invocation's capability: whether the capability grants the
/// scope. Matching is exact: a plain scope is granted when the capability is root or holds
/// that very scope.
#[verifier::external_body]
fn allows(inv: &Invocation<'_>, scope: &str) -> (granted: bool)
    requires
        plain_scope(scope@),
    ensures
        granted == held_scopes(inv).contains(scope@),
{
    inv.capability.allows(scope)
}

/// The names of the arguments that the endpoints read.
pub open spec fn argument_names() -> Set<Seq<char>> {
    set![
        "tool"@, "args"@, "dir"@, "as"@, "limit"@, "pr"@, "path"@, "repo"@, "state"@, "root"@,
    ]
}

/// The scopes that the endpoints ask for.
pub open spec fn asked_scopes() -> Set<Seq<char>> {
    set![
        "urn:cap:exec:git"@,
        "urn:cap:exec:gh"@,
        "urn:cap:exec:cargo"@,
        "urn:cap:exec:just"@,
        "urn:cap:fs:read:*"@,
    ]
}

/// Carry one argument over, where the invocation has it.
fn with_inline(call: Call, inv: &Invocation<'_>, name: &str) -> (next: Call)
    ensures
        next@ == if inline_args(inv).contains_key(name@) {
            call@.with_arg(name@, inline_args(inv)[name@])
        } else {
            call@
        },
{
    match inline_str(inv, name) {
        Some(value) => call.with_arg(name, value),
        None => call,
    }
}

/// Carry one grant over, where the invocation's capability has it.
fn with_scope(call: Call, inv: &Invocation<'_>, scope: &str) -> (next: Call)
    requires
        plain_scope(scope@),
    ensures
        next@ == (CallView {
            args: call@.args,
            grants: if held_scopes(inv).contains(scope@) {
                call@.grants.insert(scope@)
            } else {
                call@.grants
            },
        }),
{
    if allows(inv, scope) {
        call.with_grant(scope)
    } else {
        call
    }
}

/// The scopes that the endpoints ask for are plain ones.
proof fn lemma_asked_scopes_are_plain()
    ensures
        forall|scope: Seq<char>| asked_scopes().contains(scope) ==> plain_scope(scope),
{
    reveal_strlit("urn:cap:exec:git");
    reveal_strlit("urn:cap:exec:gh");
    reveal_strlit("urn:cap:exec:cargo");
    reveal_strlit("urn:cap:exec:just");
    reveal_strlit("urn:cap:fs:read:*");
    reveal_strlit("urn:cap:principal:");
    assert forall|scope: Seq<char>| asked_scopes().contains(scope) implies plain_scope(scope) by {
        assert(scope[8] != "urn:cap:principal:"@[8]);
    }
}

impl Call {
    /// The call that an invocation makes: of its inline text arguments those that the
    /// endpoints read, and of the scopes that they ask for those that its capability holds.
    pub fn of(inv: &Invocation<'_>) -> (call: Call)
        ensures
            call@ == (CallView {
                args: inline_args(inv).restrict(argument_names()),
                grants: held_scopes(inv).intersect(asked_scopes()),
            }),
    {
        proof {
            lemma_asked_scopes_are_plain();
        }
        let call = Call::new();
        let call = with_inline(call, inv, "tool");
        let call = with_inline(call, inv, "args");
        let call = with_inline(call, inv, "dir");
        let call = with_inline(call, inv, "as");
        let call = with_inline(call, inv, "limit");
        let call = with_inline(call, inv, "pr");
        let call = with_inline(call, inv, "path");
        let call = with_inline(call, inv, "repo");
        let call = with_inline(call, inv, "state");
        let call = with_inline(call, inv, "root");
        assert(call@.args =~= inline_args(inv).restrict(argument_names()));
        let call = with_scope(call, inv, "urn:cap:exec:git");
        let call = with_scope(call, inv, "urn:cap:exec:gh");
        let call = with_scope(call, inv, "urn:cap:exec:cargo");
        let call = with_scope(call, inv, "urn:cap:exec:just");
        let call = with_scope(call, inv, "urn:cap:fs:read:*");
        assert(call@.grants =~= held_scopes(inv).intersect(asked_scopes()));
        call
    }
}

/// The call that an invocation makes, whole.
pub open spec fn invoked(inv: &Invocation<'_>) -> CallView {
    CallView { args: inline_args(inv), grants: held_scopes(inv) }
}

impl Facade {
    /// The run that an invocation makes, or why it makes none.
    pub fn plan_for(&self, inv: &Invocation<'_>) -> (command: Result<Command, Error>)
        ensures
            outcome(command) == planned(self.deep_view(), invoked(inv)),
    {
        proof {
            lemma_reads_the_same(self.deep_view(), invoked(inv), Seq::empty());
        }
        self.plan(&Call::of(inv))
    }

    /// What an invocation comes to once its tool has been run. Valid UTF-8 counts as the
    /// text that it decodes to, and a face that passes the output through serves it byte for
    /// byte.
    pub fn finish_for(&self, inv: &Invocation<'_>, tool: &str, ended: Ended) -> (repr: Result<
        Representation,
        Error,
    >)
        ensures
            outcome(repr) == finished(
                self.deep_view(),
                invoked(inv),
                tool@,
                ended.deep_view(),
            ),
            ended matches Ended::Exited { success, stdout, .. } ==> (success && valid_utf8(
                stdout@,
            ) ==> outcome(repr) == Ok::<ReprView, Failure>(
                rendered(self.deep_view(), invoked(inv), decode_utf8(stdout@)),
            )),
            ended matches Ended::Exited { success, stdout, .. } ==> (success && valid_utf8(
                stdout@,
            ) && !(self is Log && asks_json(invoked(inv))) ==> repr is Ok
                && repr->Ok_0.bytes@ == stdout@),
    {
        proof {
            let out = ended_result(tool@, ended.deep_view())->Ok_0;
            lemma_reads_the_same(self.deep_view(), invoked(inv), out);
            lemma_reads_the_same(self.deep_view(), invoked(inv), decode_utf8(ended->stdout@));
        }
        self.finish(&Call::of(inv), tool, ended)
    }
}

/// The arguments and scopes that are carried over are all that an endpoint asks for.
proof fn lemma_reads_the_same(facade: FacadeView, call: CallView, out: Seq<char>)
    ensures
        planned(facade, cut_down(call)) == planned(facade, call),
        rendered(facade, cut_down(call), out) == rendered(facade, call, out),
{
    reading_a_call_loses_nothing(facade, call, out, EnvView { repo_root: None, home: None });
}

/// Where an invocation of `urn:repo:list` may scan.
pub fn plan_scan_for(inv: &Invocation<'_>, env: Env) -> (root: Result<Root, Error>)
    ensures
        outcome(root) == scan_of(invoked(inv), env.deep_view()),
{
    proof {
        reading_a_call_loses_nothing(
            FacadeView::Exec,
            invoked(inv),
            Seq::empty(),
            env.deep_view(),
        );
    }
    plan_scan(&Call::of(inv), env)
}

impl Endpoint {
    /// What an invocation of the endpoint wants done, or why it is refused.
    pub fn plan_for(&self, inv: &Invocation<'_>, env: Env) -> (step: Result<Step, Error>)
        ensures
            outcome(step) == step_of(self.deep_view(), invoked(inv), env.deep_view()),
    {
        match self {
            Endpoint::Tool(facade) => match facade.plan_for(inv) {
                Ok(command) => Ok(Step::Run(command)),
                Err(error) => Err(error),
            },
            Endpoint::List => match plan_scan_for(inv, env) {
                Ok(root) => Ok(Step::Scan(root)),
                Err(error) => Err(error),
            },
        }
    }
}

} // verus!
