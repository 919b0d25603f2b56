//! What an endpoint is called with, and how it refuses.
use crate::text::same;
use vstd::prelude::*;

verus! {

/// Why a call was refused or failed.
#[derive(Debug, PartialEq, Eq)]
pub enum Error {
    /// A required argument was absent.
    MissingArgument(String),
    /// The endpoint failed while producing its representation, or refused an argument.
    Endpoint(String),
    /// The capability did not authorize the call: a permanent refusal.
    Denied(String),
}

/// An [`Error`] as plain text.
pub enum Failure {
    MissingArgument(Seq<char>),
    Endpoint(Seq<char>),
    Denied(Seq<char>),
}

impl DeepView for Error {
    type V = Failure;

    open spec fn deep_view(&self) -> Failure {
        match self {
            Error::MissingArgument(what) => Failure::MissingArgument(what@),
            Error::Endpoint(what) => Failure::Endpoint(what@),
            Error::Denied(what) => Failure::Denied(what@),
        }
    }
}

/// A result with its value and its error seen as plain values.
pub open spec fn outcome<T: DeepView>(result: Result<T, Error>) -> Result<T::V, Failure> {
    match result {
        Ok(value) => Ok(value.deep_view()),
        Err(error) => Err(error.deep_view()),
    }
}

/// What a call carries: the inline text arguments by name, and the capability scopes that
/// are granted to it.
pub struct Call {
    args: Vec<(String, String)>,
    grants: Vec<String>,
}

/// A [`Call`] as a map of arguments and a set of scopes.
#[verifier::ext_equal]
pub struct CallView {
    pub args: Map<Seq<char>, Seq<char>>,
    pub grants: Set<Seq<char>>,
}

/// The map that a list of named values stands for; of two values under one name the later
/// one counts.
pub open spec fn named(entries: Seq<(Seq<char>, Seq<char>)>) -> Map<Seq<char>, Seq<char>>
    decreases entries.len(),
{
    if entries.len() == 0 {
        Map::empty()
    } else {
        named(entries.drop_last()).insert(entries.last().0, entries.last().1)
    }
}

impl View for Call {
    type V = CallView;

    closed spec fn view(&self) -> CallView {
        CallView {
            args: named(self.args.deep_view()),
            grants: self.grants.deep_view().to_set(),
        }
    }
}

impl CallView {
    /// The argument of a name, where it is given.
    pub open spec fn arg(self, name: Seq<char>) -> Option<Seq<char>> {
        if self.args.contains_key(name) {
            Some(self.args[name])
        } else {
            None
        }
    }

    /// Whether a scope is granted.
    pub open spec fn allows(self, scope: Seq<char>) -> bool {
        self.grants.contains(scope)
    }

    /// The same call with one argument given, or given anew.
    pub open spec fn with_arg(self, name: Seq<char>, value: Seq<char>) -> CallView {
        CallView { args: self.args.insert(name, value), grants: self.grants }
    }
}

impl Call {
    /// A call with no arguments and no grants.
    pub fn new() -> (call: Call)
        ensures
            call@ == (CallView { args: Map::empty(), grants: Set::empty() }),
    {
        let call = Call { args: Vec::new(), grants: Vec::new() };
        assert(call@.grants =~= Set::empty());
        call
    }

    /// The same call with one argument given, or given anew.
    pub fn with_arg(self, name: &str, value: &str) -> (call: Call)
        ensures
            call@ == self@.with_arg(name@, value@),
    {
        let mut args = self.args;
        let ghost before = args.deep_view();
        args.push((name.to_string(), value.to_string()));
        assert(args.deep_view() =~= before.push((name@, value@)));
        assert(args.deep_view().drop_last() =~= before);
        Call { args, grants: self.grants }
    }

    /// The same call with one scope granted.
    pub fn with_grant(self, scope: &str) -> (call: Call)
        ensures
            call@ == (CallView { args: self@.args, grants: self@.grants.insert(scope@) }),
    {
        let mut grants = self.grants;
        let ghost before = grants.deep_view();
        grants.push(scope.to_string());
        let call = Call { args: self.args, grants };
        proof {
            let after = call.grants.deep_view();
            assert(after =~= before.push(scope@));
            assert forall|s: Seq<char>|
                after.to_set().contains(s) == before.to_set().insert(scope@).contains(s) by {
                if before.contains(s) {
                    let k = before.index_of(s);
                    assert(after[k] == s);
                }
                if s == scope@ {
                    assert(after[before.len() as int] == s);
                }
            }
            assert(call@.grants =~= self@.grants.insert(scope@));
        }
        call
    }

    /// The argument of a name, where it is given.
    pub fn inline_str(&self, name: &str) -> (value: Option<&str>)
        ensures
            value.deep_view() == self@.arg(name@),
    {
        let ghost all = self.args.deep_view();
        let mut i: usize = self.args.len();
        assert(all.take(i as int) =~= all);
        while i > 0
            invariant
                i <= self.args.len(),
                all == self.args.deep_view(),
                named(all).contains_key(name@) == named(all.take(i as int)).contains_key(name@),
                named(all).contains_key(name@) ==> named(all)[name@] == named(
                    all.take(i as int),
                )[name@],
            decreases i,
        {
            let entry = &self.args[i - 1];
            assert(all.take(i as int).drop_last() =~= all.take(i - 1));
            assert(all.take(i as int).last() == (entry.0@, entry.1@));
            if same(entry.0.as_str(), name) {
                return Some(entry.1.as_str());
            }
            i = i - 1;
        }
        None
    }

    /// Whether a scope is granted, matched exactly.
    pub fn allows(&self, scope: &str) -> (granted: bool)
        ensures
            granted == self@.allows(scope@),
    {
        let ghost all = self.grants.deep_view();
        let mut i: usize = 0;
        while i < self.grants.len()
            invariant
                i <= self.grants.len(),
                all == self.grants.deep_view(),
                forall|k: int| 0 <= k < i ==> all[k] != scope@,
            decreases self.grants.len() - i,
        {
            if same(self.grants[i].as_str(), scope) {
                assert(all[i as int] == scope@);
                assert(all.contains(scope@));
                return true;
            }
            i = i + 1;
        }
        false
    }
}

} // verus!
