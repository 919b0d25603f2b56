//! `urn:repo:list`: where it scans, which entries are repositories, and in what order they
//! are listed.
use crate::args::{quoting, quoting_text};
use crate::call::{outcome, Call, CallView, Error, Failure};
use crate::repr::{body_as, text, ReprView, Representation};
use crate::text::{
    chars_of, join, join_texts, split, splitting_at_a_separator, splitting_undoes_joining,
};
use vstd::prelude::*;
use vstd::relations::{sorted_by, total_ordering};
use vstd::seq_lib::{lemma_multiset_commutative, lemma_sorted_unique};
use vstd::string::StringExecFns;

verus! {

/// Listing the repositories under a ROOT reads directory names: a filesystem read.
/// `urn:repo:list` declares and enforces this scope. Matching is exact, so the wildcard
/// token is the literal grant, not a prefix rule.
pub const FS_READ: &'static str = "urn:cap:fs:read:*";

/// The directory under the home directory that is scanned when nothing else is said: this
/// ecosystem's home for its sibling repositories.
pub const HOME_REPOS: &'static str = "git-personal";

/// What the environment says of where repositories are.
#[derive(Debug, PartialEq, Eq)]
pub struct Env {
    /// `IKIGAI_REPO_ROOT`, where it is set.
    pub repo_root: Option<String>,
    /// `HOME`, where it is set.
    pub home: Option<String>,
}

/// An [`Env`] as plain text.
#[verifier::ext_equal]
pub struct EnvView {
    pub repo_root: Option<Seq<char>>,
    pub home: Option<Seq<char>>,
}

impl DeepView for Env {
    type V = EnvView;

    open spec fn deep_view(&self) -> EnvView {
        EnvView { repo_root: self.repo_root.deep_view(), home: self.home.deep_view() }
    }
}

/// Where repositories are looked for.
#[derive(Debug, PartialEq, Eq)]
pub enum Root {
    /// In this directory.
    Dir(String),
    /// In [`HOME_REPOS`] under this home directory.
    UnderHome(String),
}

/// A [`Root`] as plain text.
#[verifier::ext_equal]
pub enum RootView {
    Dir(Seq<char>),
    UnderHome(Seq<char>),
}

impl DeepView for Root {
    type V = RootView;

    open spec fn deep_view(&self) -> RootView {
        match self {
            Root::Dir(dir) => RootView::Dir(dir@),
            Root::UnderHome(home) => RootView::UnderHome(home@),
        }
    }
}

/// Where a call looks for repositories, in priority order: the `root` argument, the
/// environment's root, the directory under the home directory.
pub open spec fn root_of(call: CallView, env: EnvView) -> Result<RootView, Failure> {
    match (call.arg("root"@), env.repo_root, env.home) {
        (Some(root), _, _) => Ok(RootView::Dir(root)),
        (None, Some(root), _) => Ok(RootView::Dir(root)),
        (None, None, Some(home)) => Ok(RootView::UnderHome(home)),
        (None, None, None) => Err(
            Failure::Endpoint("repo-list: no root=, no IKIGAI_REPO_ROOT, and $HOME is unset"@),
        ),
    }
}

/// Where `urn:repo:list` scans, in priority order: an explicit `root=` argument, then the
/// `IKIGAI_REPO_ROOT` environment variable, then [`HOME_REPOS`] under the home directory.
pub fn repo_root(call: &Call, env: Env) -> (root: Result<Root, Error>)
    ensures
        outcome(root) == root_of(call@, env.deep_view()),
{
    if let Some(root) = call.inline_str("root") {
        return Ok(Root::Dir(root.to_string()));
    }
    if let Some(root) = env.repo_root {
        return Ok(Root::Dir(root));
    }
    match env.home {
        Some(home) => Ok(Root::UnderHome(home)),
        None => Err(
            Error::Endpoint(
                "repo-list: no root=, no IKIGAI_REPO_ROOT, and $HOME is unset".to_string(),
            ),
        ),
    }
}

/// Where a call may scan, or why it may not: its capability must grant [`FS_READ`] before
/// anything else is asked.
pub open spec fn scan_of(call: CallView, env: EnvView) -> Result<RootView, Failure> {
    if !call.allows(FS_READ@) {
        Err(Failure::Denied(quoting("repo-list: capability does not grant `"@, FS_READ@)))
    } else {
        root_of(call, env)
    }
}

/// Where a call of `urn:repo:list` may scan.
pub fn plan_scan(call: &Call, env: Env) -> (root: Result<Root, Error>)
    ensures
        outcome(root) == scan_of(call@, env.deep_view()),
{
    if !call.allows(FS_READ) {
        return Err(
            Error::Denied(quoting_text("repo-list: capability does not grant `", FS_READ)),
        );
    }
    repo_root(call, env)
}

/// What is said of a directory that could not be read.
pub open spec fn unreadable_root(root: Seq<char>, why: Seq<char>) -> Failure {
    Failure::Endpoint("repo-list: cannot read root `"@ + root + "`: "@ + why)
}

/// What is said of a directory that could not be read.
pub fn unreadable(root: &str, why: &str) -> (error: Error)
    ensures
        error.deep_view() == unreadable_root(root@, why@),
{
    let mut message = "repo-list: cannot read root `".to_string();
    message.append(root);
    message.append("`: ");
    message.append(why);
    Error::Endpoint(message)
}

/// An entry of the scanned directory.
#[derive(Debug, PartialEq, Eq)]
pub struct Entry {
    /// Its name, where it is valid UTF-8.
    pub name: Option<String>,
    /// Its path: the scanned directory's with its name behind it.
    pub path: String,
    /// Its absolute path, where that could be had.
    pub absolute: Option<String>,
    /// Whether it is a directory.
    pub is_dir: bool,
    /// Whether it holds a `.git` entry.
    pub has_git: bool,
}

/// An [`Entry`] as plain values.
#[verifier::ext_equal]
pub struct EntryView {
    pub name: Option<Seq<char>>,
    pub path: Seq<char>,
    pub absolute: Option<Seq<char>>,
    pub is_dir: bool,
    pub has_git: bool,
}

impl DeepView for Entry {
    type V = EntryView;

    open spec fn deep_view(&self) -> EntryView {
        EntryView {
            name: self.name.deep_view(),
            path: self.path@,
            absolute: self.absolute.deep_view(),
            is_dir: self.is_dir,
            has_git: self.has_git,
        }
    }
}

/// A repository's name and path, as plain text.
pub type RepoView = (Seq<char>, Seq<char>);

/// The path that an entry is listed with: the absolute one, or else its path as it is.
pub open spec fn listed_path(entry: EntryView) -> Seq<char> {
    match entry.absolute {
        Some(path) => path,
        None => entry.path,
    }
}

/// The repository that an entry is: a directory that holds a `.git` entry and whose name is
/// valid UTF-8.
pub open spec fn repo_in(entry: EntryView) -> Option<RepoView> {
    match entry.name {
        Some(name) => if entry.is_dir && entry.has_git {
            Some((name, listed_path(entry)))
        } else {
            None
        },
        None => None,
    }
}

/// The repositories among entries, in the entries' order.
pub open spec fn repos_in(entries: Seq<EntryView>) -> Seq<RepoView>
    decreases entries.len(),
{
    if entries.len() == 0 {
        Seq::empty()
    } else {
        let before = repos_in(entries.drop_last());
        match repo_in(entries.last()) {
            Some(repo) => before.push(repo),
            None => before,
        }
    }
}

/// Whether a text stands before another one or is the same: by the first character in which
/// they differ, and a text before every longer one that begins with it.
pub open spec fn text_le(a: Seq<char>, b: Seq<char>) -> bool
    decreases a.len(),
{
    if a.len() == 0 {
        true
    } else if b.len() == 0 {
        false
    } else if a[0] == b[0] {
        text_le(a.skip(1), b.skip(1))
    } else {
        (a[0] as int) <= (b[0] as int)
    }
}

/// Whether a repository stands before another one or is the same: by name, then by path.
pub open spec fn repo_le(a: RepoView, b: RepoView) -> bool {
    if a.0 == b.0 {
        text_le(a.1, b.1)
    } else {
        text_le(a.0, b.0)
    }
}

/// The order in which repositories are listed.
pub open spec fn repo_order() -> spec_fn(RepoView, RepoView) -> bool {
    |a: RepoView, b: RepoView| repo_le(a, b)
}

/// The repositories among entries, in the order in which they are listed.
pub open spec fn listing(entries: Seq<EntryView>) -> Seq<RepoView> {
    repos_in(entries).sort_by(repo_order())
}

/// A repository's line: its name, a tab, its path.
pub open spec fn row(repo: RepoView) -> Seq<char> {
    repo.0 + "\t"@ + repo.1
}

/// The lines of repositories.
pub open spec fn rows(repos: Seq<RepoView>) -> Seq<Seq<char>> {
    Seq::new(repos.len(), |i: int| row(repos[i]))
}

/// What `urn:repo:list` says of the entries of a directory.
pub open spec fn listing_body(entries: Seq<EntryView>) -> Seq<char> {
    join(rows(listing(entries)), "\n"@)
}

/// Any two texts are in order one way or the other, and both ways only where they are the
/// same.
proof fn lemma_text_le_total(a: Seq<char>, b: Seq<char>)
    ensures
        text_le(a, a),
        text_le(a, b) || text_le(b, a),
        text_le(a, b) && text_le(b, a) ==> a == b,
    decreases a.len(),
{
    if a.len() > 0 {
        if b.len() > 0 {
            lemma_text_le_total(a.skip(1), b.skip(1));
            if a[0] == b[0] && a.skip(1) == b.skip(1) {
                assert(a =~= seq![a[0]] + a.skip(1));
                assert(b =~= seq![b[0]] + b.skip(1));
            }
        } else {
            lemma_text_le_total(a.skip(1), b);
        }
    } else if b.len() == 0 {
        assert(a =~= b);
    }
}

/// Texts in order with one between them are in order.
proof fn lemma_text_le_transitive(a: Seq<char>, b: Seq<char>, c: Seq<char>)
    requires
        text_le(a, b),
        text_le(b, c),
    ensures
        text_le(a, c),
    decreases a.len(),
{
    if a.len() > 0 && a[0] == b[0] && b[0] == c[0] {
        lemma_text_le_transitive(a.skip(1), b.skip(1), c.skip(1));
    }
}

/// Repositories are listed in a total order.
proof fn lemma_repo_order_is_total()
    ensures
        total_ordering(repo_order()),
{
    let leq = repo_order();
    assert forall|x: RepoView| #[trigger] leq(x, x) by {
        lemma_text_le_total(x.1, x.1);
    }
    assert forall|x: RepoView, y: RepoView| #[trigger] leq(x, y) && #[trigger] leq(y, x) implies x
        == y by {
        lemma_text_le_total(x.0, y.0);
        lemma_text_le_total(x.1, y.1);
    }
    assert forall|x: RepoView, y: RepoView| #[trigger] leq(x, y) || #[trigger] leq(y, x) by {
        lemma_text_le_total(x.0, y.0);
        lemma_text_le_total(x.1, y.1);
    }
    assert forall|x: RepoView, y: RepoView, z: RepoView| #[trigger]
        leq(x, y) && #[trigger] leq(y, z) implies leq(x, z) by {
        if x.0 == y.0 && y.0 == z.0 {
            lemma_text_le_transitive(x.1, y.1, z.1);
        } else if x.0 != y.0 && y.0 != z.0 {
            lemma_text_le_transitive(x.0, y.0, z.0);
            if x.0 == z.0 {
                lemma_text_le_total(x.0, y.0);
            }
        }
    }
}

/// Whether a text stands before another one or is the same.
fn text_not_after(a: &str, b: &str) -> (yes: bool)
    ensures
        yes == text_le(a@, b@),
{
    let x = chars_of(a);
    let y = chars_of(b);
    let mut i: usize = 0;
    assert(a@.skip(0) =~= a@);
    assert(b@.skip(0) =~= b@);
    while i < x.len() && i < y.len()
        invariant
            i <= x.len(),
            i <= y.len(),
            x@ == a@,
            y@ == b@,
            text_le(a@, b@) == text_le(a@.skip(i as int), b@.skip(i as int)),
        decreases x.len() - i,
    {
        if x[i] != y[i] {
            return x[i] <= y[i];
        }
        assert(a@.skip(i as int).skip(1) =~= a@.skip(i + 1));
        assert(b@.skip(i as int).skip(1) =~= b@.skip(i + 1));
        i = i + 1;
    }
    i == x.len()
}

/// Whether a repository stands before another one or is the same.
fn repo_not_after(a: &(String, String), b: &(String, String)) -> (yes: bool)
    ensures
        yes == repo_le(a.deep_view(), b.deep_view()),
{
    if a.0 == b.0 {
        text_not_after(a.1.as_str(), b.1.as_str())
    } else {
        text_not_after(a.0.as_str(), b.0.as_str())
    }
}

/// Put one repository where it belongs among those already in order.
fn place(sorted: &mut Vec<(String, String)>, repo: (String, String))
    requires
        sorted_by(old(sorted).deep_view(), repo_order()),
    ensures
        sorted_by(final(sorted).deep_view(), repo_order()),
        final(sorted).deep_view().to_multiset() == old(sorted).deep_view().to_multiset().insert(
            repo.deep_view(),
        ),
{
    let ghost before = sorted.deep_view();
    let ghost leq = repo_order();
    let ghost new = repo.deep_view();
    let mut i: usize = 0;
    while i < sorted.len() && repo_not_after(&sorted[i], &repo)
        invariant
            i <= sorted.len(),
            sorted.deep_view() == before,
            leq == repo_order(),
            new == repo.deep_view(),
            forall|k: int| 0 <= k < i ==> leq(#[trigger] before[k], new),
        decreases sorted.len() - i,
    {
        i = i + 1;
    }
    proof {
        lemma_repo_order_is_total();
        if i < before.len() {
            assert(!leq(before[i as int], new));
            assert(leq(new, before[i as int]));
            assert forall|k: int| i <= k < before.len() implies leq(
                new,
                #[trigger] before[k],
            ) by {
                if k > i {
                    assert(leq(before[i as int], before[k]));
                }
            }
        }
    }
    sorted.insert(i, repo);
    proof {
        let after = sorted.deep_view();
        assert(after =~= before.insert(i as int, new));
        assert forall|j: int, k: int| 0 <= j < k < after.len() implies #[trigger] leq(
            after[j],
            after[k],
        ) by {
            let j0 = if j < i {
                j
            } else {
                j - 1
            };
            let k0 = if k < i {
                k
            } else {
                k - 1
            };
            if j != i && k != i {
                assert(leq(before[j0], before[k0]));
            }
        }
        after.to_multiset_ensures();
        assert(after.remove(i as int) =~= before);
        assert(after.to_multiset() =~= before.to_multiset().insert(new));
    }
}

/// Repositories in the order in which they are listed.
pub fn sort_repos(repos: Vec<(String, String)>) -> (sorted: Vec<(String, String)>)
    ensures
        sorted.deep_view() == repos.deep_view().sort_by(repo_order()),
{
    let ghost all = repos.deep_view();
    let mut sorted: Vec<(String, String)> = Vec::new();
    let mut i: usize = 0;
    assert(sorted.deep_view() =~= all.take(0));
    while i < repos.len()
        invariant
            i <= repos.len(),
            all == repos.deep_view(),
            sorted_by(sorted.deep_view(), repo_order()),
            sorted.deep_view().to_multiset() == all.take(i as int).to_multiset(),
        decreases repos.len() - i,
    {
        let repo = (repos[i].0.clone(), repos[i].1.clone());
        assert(repo.deep_view() == all[i as int]);
        place(&mut sorted, repo);
        proof {
            all.take(i as int).to_multiset_ensures();
            assert(all.take(i + 1) =~= all.take(i as int).push(all[i as int]));
        }
        i = i + 1;
    }
    proof {
        assert(all.take(i as int) =~= all);
        lemma_repo_order_is_total();
        all.lemma_sort_by_ensures(repo_order());
        lemma_sorted_unique(sorted.deep_view(), all.sort_by(repo_order()), repo_order());
    }
    sorted
}

/// The repositories among the entries of a directory.
pub fn find_repos(entries: Vec<Entry>) -> (repos: Vec<(String, String)>)
    ensures
        repos.deep_view() == repos_in(entries.deep_view()),
{
    let ghost all = entries.deep_view();
    let mut repos: Vec<(String, String)> = Vec::new();
    let mut i: usize = 0;
    assert(repos.deep_view() =~= repos_in(all.take(0)));
    while i < entries.len()
        invariant
            i <= entries.len(),
            all == entries.deep_view(),
            repos.deep_view() == repos_in(all.take(i as int)),
        decreases entries.len() - i,
    {
        let entry = &entries[i];
        let ghost before = repos.deep_view();
        assert(all.take(i + 1).drop_last() =~= all.take(i as int));
        assert(all.take(i + 1).last() == entry.deep_view());
        if entry.is_dir && entry.has_git {
            if let Some(name) = &entry.name {
                let path = match &entry.absolute {
                    Some(path) => path.clone(),
                    None => entry.path.clone(),
                };
                let repo = (name.clone(), path);
                repos.push(repo);
                assert(repos.deep_view() =~= before.push(repo.deep_view()));
            }
        }
        i = i + 1;
    }
    assert(all.take(i as int) =~= all);
    repos
}

/// Repositories as lines, one `name<TAB>path` each.
fn rows_text(repos: &Vec<(String, String)>) -> (body: String)
    ensures
        body@ == join(rows(repos.deep_view()), "\n"@),
{
    let ghost all = rows(repos.deep_view());
    let mut lines: Vec<String> = Vec::new();
    let mut i: usize = 0;
    assert(lines.deep_view() =~= all.take(0));
    while i < repos.len()
        invariant
            i <= repos.len(),
            all == rows(repos.deep_view()),
            lines.deep_view() == all.take(i as int),
        decreases repos.len() - i,
    {
        let ghost before = lines.deep_view();
        let mut line = repos[i].0.clone();
        line.append("\t");
        line.append(repos[i].1.as_str());
        assert(line@ == all[i as int]);
        lines.push(line);
        assert(lines.deep_view() =~= before.push(line@));
        assert(lines.deep_view() =~= all.take(i + 1));
        i = i + 1;
    }
    assert(all.take(i as int) =~= all);
    join_texts(&lines, "\n")
}

/// What `urn:repo:list` serves: the repositories among the entries of the scanned
/// directory, one `name<TAB>path` per line, sorted.
pub fn list_repos(entries: Vec<Entry>) -> (repr: Representation)
    ensures
        repr.deep_view() == body_as(listing_body(entries.deep_view()), false),
{
    text(rows_text(&sort_repos(find_repos(entries))))
}

/// What a call of `urn:repo:list` comes to once its directory has been read: the listing of
/// its entries. A directory that could not be read is an error that says why, never an empty
/// listing.
pub fn finish_scan(root: &str, read: Result<Vec<Entry>, String>) -> (repr: Result<
    Representation,
    Error,
>)
    ensures
        outcome(repr) == match read {
            Ok(entries) => Ok::<ReprView, Failure>(
                body_as(listing_body(entries.deep_view()), false),
            ),
            Err(why) => Err(unreadable_root(root@, why@)),
        },
{
    match read {
        Ok(entries) => Ok(list_repos(entries)),
        Err(why) => Err(unreadable(root, why.as_str())),
    }
}

/// The listing holds the repositories among the entries, each as often as it is there and
/// none besides, by name and then by path.
pub proof fn listing_is_sorted(entries: Seq<EntryView>)
    ensures
        sorted_by(listing(entries), repo_order()),
        listing(entries).to_multiset() == repos_in(entries).to_multiset(),
{
    lemma_repo_order_is_total();
    repos_in(entries).lemma_sort_by_ensures(repo_order());
}

/// Lists that hold the same values equally often hold the same values.
proof fn lemma_same_members<A>(a: Seq<A>, b: Seq<A>, x: A)
    requires
        a.to_multiset() == b.to_multiset(),
    ensures
        a.contains(x) == b.contains(x),
{
    a.to_multiset_ensures();
    b.to_multiset_ensures();
    assert(a.contains(x) <==> a.to_multiset().count(x) > 0);
    assert(b.contains(x) <==> b.to_multiset().count(x) > 0);
}

/// Which repositories are among entries.
proof fn lemma_repos_in(entries: Seq<EntryView>, repo: RepoView)
    ensures
        repos_in(entries).contains(repo) <==> exists|i: int|
            0 <= i < entries.len() && repo_in(#[trigger] entries[i]) == Some(repo),
    decreases entries.len(),
{
    if entries.len() > 0 {
        let fewer = entries.drop_last();
        lemma_repos_in(fewer, repo);
        let before = repos_in(fewer);
        let after = repos_in(entries);
        if before.contains(repo) {
            let k = before.index_of(repo);
            assert(after[k] == repo);
            let i = choose|i: int|
                0 <= i < fewer.len() && repo_in(#[trigger] fewer[i]) == Some(repo);
            assert(repo_in(entries[i]) == Some(repo));
        }
        if repo_in(entries.last()) == Some(repo) {
            assert(after[before.len() as int] == repo);
            assert(repo_in(entries[entries.len() - 1]) == Some(repo));
        }
        if after.contains(repo) && !before.contains(repo) {
            let k = after.index_of(repo);
            assert(k < before.len() ==> before[k] == repo);
            assert(repo_in(entries[entries.len() - 1]) == Some(repo));
        }
        if exists|i: int| 0 <= i < entries.len() && repo_in(#[trigger] entries[i]) == Some(repo) {
            let i = choose|i: int|
                0 <= i < entries.len() && repo_in(#[trigger] entries[i]) == Some(repo);
            if i < fewer.len() {
                assert(repo_in(fewer[i]) == Some(repo));
            }
        }
    }
}

/// What is listed are the immediate children that are directories, hold a `.git` entry and
/// have a name in UTF-8, and nothing else.
pub proof fn repositories_are_listed(entries: Seq<EntryView>, repo: RepoView)
    ensures
        listing(entries).contains(repo) <==> exists|i: int|
            0 <= i < entries.len() && (#[trigger] entries[i]).is_dir && entries[i].has_git
                && entries[i].name == Some(repo.0) && listed_path(entries[i]) == repo.1,
{
    lemma_repos_in(entries, repo);
    listing_is_sorted(entries);
    lemma_same_members(listing(entries), repos_in(entries), repo);
    if exists|i: int| 0 <= i < entries.len() && repo_in(#[trigger] entries[i]) == Some(repo) {
        let i = choose|i: int|
            0 <= i < entries.len() && repo_in(#[trigger] entries[i]) == Some(repo);
        assert(entries[i].is_dir);
    }
    if exists|i: int|
        0 <= i < entries.len() && (#[trigger] entries[i]).is_dir && entries[i].has_git
            && entries[i].name == Some(repo.0) && listed_path(entries[i]) == repo.1 {
        let i = choose|i: int|
            0 <= i < entries.len() && (#[trigger] entries[i]).is_dir && entries[i].has_git
                && entries[i].name == Some(repo.0) && listed_path(entries[i]) == repo.1;
        assert(repo_in(entries[i]) == Some(repo));
    }
}

/// The repositories among entries in a row.
proof fn lemma_repos_in_parts(a: Seq<EntryView>, b: Seq<EntryView>)
    ensures
        repos_in(a + b) == repos_in(a) + repos_in(b),
    decreases b.len(),
{
    if b.len() == 0 {
        assert(a + b =~= a);
        assert(repos_in(a) + repos_in(b) =~= repos_in(a));
    } else {
        lemma_repos_in_parts(a, b.drop_last());
        assert((a + b).drop_last() =~= a + b.drop_last());
        assert(repos_in(a + b) =~= repos_in(a) + repos_in(b));
    }
}

/// The same entries hold the same repositories, in whatever order they come.
proof fn lemma_repos_in_any_order(a: Seq<EntryView>, b: Seq<EntryView>)
    requires
        a.to_multiset() == b.to_multiset(),
    ensures
        repos_in(a).to_multiset() == repos_in(b).to_multiset(),
    decreases a.len(),
{
    a.to_multiset_ensures();
    b.to_multiset_ensures();
    if a.len() == 0 {
        assert(a =~= b);
    } else {
        let entry = a.last();
        assert(a.contains(entry));
        lemma_same_members(a, b, entry);
        let k = b.index_of(entry);
        let left = b.take(k);
        let right = b.skip(k + 1);
        let one = seq![entry];
        assert(b =~= left + one + right);
        assert(b.remove(k) =~= left + right);
        assert(a.remove(a.len() - 1) =~= a.drop_last());
        assert(a.drop_last().to_multiset() =~= (left + right).to_multiset());
        lemma_repos_in_any_order(a.drop_last(), left + right);
        lemma_repos_in_parts(left + one, right);
        lemma_repos_in_parts(left, one);
        lemma_repos_in_parts(left, right);
        lemma_repos_in_parts(a.drop_last(), one);
        assert(a =~= a.drop_last() + one);
        let x = repos_in(left);
        let y = repos_in(one);
        let z = repos_in(right);
        let w = repos_in(a.drop_last());
        lemma_multiset_commutative(x + y, z);
        lemma_multiset_commutative(x, y);
        lemma_multiset_commutative(x, z);
        lemma_multiset_commutative(w, y);
        assert(repos_in(a).to_multiset() =~= repos_in(b).to_multiset());
    }
}

/// The listing does not depend on the order in which the directory was read.
pub proof fn listing_ignores_reading_order(a: Seq<EntryView>, b: Seq<EntryView>)
    requires
        a.to_multiset() == b.to_multiset(),
    ensures
        listing(a) == listing(b),
        listing_body(a) == listing_body(b),
{
    lemma_repos_in_any_order(a, b);
    listing_is_sorted(a);
    listing_is_sorted(b);
    lemma_repo_order_is_total();
    lemma_sorted_unique(listing(a), listing(b), repo_order());
}

/// A line gives its repository back: where the name holds no tab, it is what stands before
/// the first one, and the path is what stands behind it.
pub proof fn row_gives_its_repository(repo: RepoView)
    requires
        !repo.0.contains('\t'),
    ensures
        split(row(repo), '\t')[0] == repo.0,
        row(repo).skip(repo.0.len() as int + 1) == repo.1,
        row(repo)[repo.0.len() as int] == '\t',
{
    reveal_strlit("\t");
    assert("\t"@ =~= seq!['\t']);
    splitting_at_a_separator(repo.0, repo.1, '\t');
    splitting_undoes_joining(seq![repo.0], '\t');
    assert(row(repo).skip(repo.0.len() as int + 1) =~= repo.1);
}

/// The listing is one repository per line: where no name and no path holds a line feed, the
/// lines of the body are the lines of the repositories, and an empty listing is an empty
/// body.
pub proof fn listing_is_one_per_line(entries: Seq<EntryView>)
    requires
        forall|i: int|
            0 <= i < repos_in(entries).len() ==> !(#[trigger] repos_in(entries)[i]).0.contains(
                '\n',
            ) && !repos_in(entries)[i].1.contains('\n'),
    ensures
        listing(entries).len() == 0 ==> listing_body(entries) == Seq::<char>::empty(),
        listing(entries).len() > 0 ==> split(listing_body(entries), '\n') == rows(
            listing(entries),
        ),
{
    listing_is_sorted(entries);
    let found = repos_in(entries);
    let listed = listing(entries);
    let all = rows(listed);
    reveal_strlit("\n");
    reveal_strlit("\t");
    assert("\n"@ =~= seq!['\n']);
    if listed.len() > 0 {
        assert forall|i: int| 0 <= i < all.len() implies !(#[trigger] all[i]).contains('\n') by {
            let repo = listed[i];
            assert(listed.contains(repo));
            lemma_same_members(listed, found, repo);
            let k = found.index_of(repo);
            assert(found[k] == repo);
            if all[i].contains('\n') {
                let at = choose|at: int| 0 <= at < all[i].len() && all[i][at] == '\n';
                let n = repo.0.len() as int;
                if at < n {
                    assert(repo.0[at] == '\n');
                } else if at > n {
                    assert(repo.1[at - n - 1] == '\n');
                }
            }
        }
        splitting_undoes_joining(all, '\n');
    }
}

} // verus!
