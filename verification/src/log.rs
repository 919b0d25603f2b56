//! The structured face of the history: commits read from git's output, and written as JSON.
use crate::json::{json_literal, json_literal_reads_back, json_str, read_string};
use crate::text::{
    join, join_texts, lines, lines_of, occurs_at, split, split_text, splitting_at_a_separator,
    splitting_undoes_joining, without_return,
};
use vstd::prelude::*;
use vstd::string::StringExecFns;

verus! {

/// What the structured face says of a commit.
#[derive(Debug, PartialEq, Eq)]
pub struct Commit {
    /// The full sha.
    pub hash: String,
    /// The author's name.
    pub author: String,
    /// The author date, RFC 3339.
    pub date: String,
    /// The subject.
    pub subject: String,
}

/// A [`Commit`] as plain text.
#[verifier::ext_equal]
pub struct CommitView {
    pub hash: Seq<char>,
    pub author: Seq<char>,
    pub date: Seq<char>,
    pub subject: Seq<char>,
}

impl DeepView for Commit {
    type V = CommitView;

    open spec fn deep_view(&self) -> CommitView {
        CommitView {
            hash: self.hash@,
            author: self.author@,
            date: self.date@,
            subject: self.subject@,
        }
    }
}

/// The commit that a line gives: its first four fields, with unit separators between them.
/// A line with fewer fields gives none, and a unit separator inside the subject cuts the
/// subject off there.
pub open spec fn commit_in(line: Seq<char>) -> Option<CommitView> {
    let fields = split(line, '\u{1f}');
    if fields.len() >= 4 {
        Some(
            CommitView { hash: fields[0], author: fields[1], date: fields[2], subject: fields[3] },
        )
    } else {
        None
    }
}

/// The commits that lines give, in their order.
pub open spec fn commits_in(all: Seq<Seq<char>>) -> Seq<CommitView>
    decreases all.len(),
{
    if all.len() == 0 {
        Seq::empty()
    } else {
        let before = commits_in(all.drop_last());
        match commit_in(all.last()) {
            Some(commit) => before.push(commit),
            None => before,
        }
    }
}

/// The commit that a line gives.
pub fn parse_commit(line: &str) -> (commit: Option<Commit>)
    ensures
        commit.deep_view() == commit_in(line@),
{
    let fields = split_text(line, '\u{1f}');
    if fields.len() < 4 {
        return None;
    }
    Some(
        Commit {
            hash: fields[0].clone(),
            author: fields[1].clone(),
            date: fields[2].clone(),
            subject: fields[3].clone(),
        },
    )
}

/// The commits that git's output gives: one line each, its fields with unit separators
/// between them.
pub fn parse_commits(raw: &str) -> (commits: Vec<Commit>)
    ensures
        commits.deep_view() == commits_in(lines(raw@)),
{
    let all = lines_of(raw);
    let mut commits: Vec<Commit> = Vec::new();
    let ghost texts = all.deep_view();
    let mut i: usize = 0;
    assert(commits.deep_view() =~= commits_in(texts.take(0)));
    while i < all.len()
        invariant
            i <= all.len(),
            texts == all.deep_view(),
            commits.deep_view() == commits_in(texts.take(i as int)),
        decreases all.len() - i,
    {
        let ghost before = commits.deep_view();
        assert(texts.take(i + 1).drop_last() =~= texts.take(i as int));
        assert(texts.take(i + 1).last() == all@[i as int]@);
        if let Some(commit) = parse_commit(all[i].as_str()) {
            commits.push(commit);
            assert(commits.deep_view() =~= before.push(commit.deep_view()));
        }
        i = i + 1;
    }
    assert(texts.take(i as int) =~= texts);
    commits
}

/// A commit as a JSON object.
pub open spec fn entry(commit: CommitView) -> Seq<char> {
    "{\"hash\":"@ + json_literal(commit.hash) + ",\"author\":"@ + json_literal(commit.author)
        + ",\"date\":"@ + json_literal(commit.date) + ",\"subject\":"@ + json_literal(
        commit.subject,
    ) + "}"@
}

/// Commits as JSON objects.
pub open spec fn entries(commits: Seq<CommitView>) -> Seq<Seq<char>> {
    Seq::new(commits.len(), |i: int| entry(commits[i]))
}

/// Commits as a JSON array.
pub open spec fn document(commits: Seq<CommitView>) -> Seq<char> {
    "["@ + join(entries(commits), ","@) + "]"@
}

/// A commit as a JSON object.
fn entry_text(commit: &Commit) -> (s: String)
    ensures
        s@ == entry(commit.deep_view()),
{
    let mut s = "{\"hash\":".to_string();
    s.append(json_str(commit.hash.as_str()).as_str());
    s.append(",\"author\":");
    s.append(json_str(commit.author.as_str()).as_str());
    s.append(",\"date\":");
    s.append(json_str(commit.date.as_str()).as_str());
    s.append(",\"subject\":");
    s.append(json_str(commit.subject.as_str()).as_str());
    s.append("}");
    s
}

/// Commits as a JSON array.
pub fn commits_json(commits: &Vec<Commit>) -> (s: String)
    ensures
        s@ == document(commits.deep_view()),
{
    let mut objects: Vec<String> = Vec::new();
    let ghost all = entries(commits.deep_view());
    let mut i: usize = 0;
    assert(objects.deep_view() =~= all.take(0));
    while i < commits.len()
        invariant
            i <= commits.len(),
            all == entries(commits.deep_view()),
            objects.deep_view() == all.take(i as int),
        decreases commits.len() - i,
    {
        let ghost before = objects.deep_view();
        let object = entry_text(&commits[i]);
        objects.push(object);
        assert(objects.deep_view() =~= before.push(object@));
        assert(objects.deep_view() =~= all.take(i + 1));
        i = i + 1;
    }
    assert(all.take(i as int) =~= all);
    let mut s = "[".to_string();
    s.append(join_texts(&objects, ",").as_str());
    s.append("]");
    s
}

/// The history as JSON, from git's output.
pub fn log_json(raw: &str) -> (s: String)
    ensures
        s@ == document(commits_in(lines(raw@))),
{
    commits_json(&parse_commits(raw))
}

/// What the string behind a key at a position reads as, and the position behind it.
pub open spec fn read_field(doc: Seq<char>, i: int, key: Seq<char>) -> Option<(Seq<char>, int)> {
    if occurs_at(key, doc, i) {
        read_string(doc, i + key.len())
    } else {
        None
    }
}

/// What the object of one commit at a position reads as, and the position behind it.
#[verifier::opaque]
pub open spec fn read_entry(doc: Seq<char>, i: int) -> Option<(CommitView, int)> {
    match read_field(doc, i, "{\"hash\":"@) {
        None => None,
        Some((hash, j)) => match read_field(doc, j, ",\"author\":"@) {
            None => None,
            Some((author, k)) => match read_field(doc, k, ",\"date\":"@) {
                None => None,
                Some((date, l)) => match read_field(doc, l, ",\"subject\":"@) {
                    None => None,
                    Some((subject, m)) => if occurs_at("}"@, doc, m) {
                        Some((CommitView { hash, author, date, subject }, m + 1))
                    } else {
                        None
                    },
                },
            },
        },
    }
}

/// What the objects of commits from a position to the end of an array read as, where the
/// array ends the text.
pub open spec fn read_entries(doc: Seq<char>, i: int) -> Option<Seq<CommitView>>
    decreases doc.len() - i,
{
    match read_entry(doc, i) {
        None => None,
        Some((commit, j)) => if j <= i || j >= doc.len() {
            None
        } else if doc[j] == ']' && j + 1 == doc.len() {
            Some(seq![commit])
        } else if doc[j] == ',' {
            match read_entries(doc, j + 1) {
                Some(rest) => Some(seq![commit] + rest),
                None => None,
            }
        } else {
            None
        },
    }
}

/// What a JSON array of commits reads as.
pub open spec fn read_document(doc: Seq<char>) -> Option<Seq<CommitView>> {
    if doc == "[]"@ {
        Some(Seq::empty())
    } else if doc.len() > 0 && doc[0] == '[' {
        read_entries(doc, 1)
    } else {
        None
    }
}

/// Texts in a row are the same whichever two are put together first.
proof fn lemma_regroup(a: Seq<char>, b: Seq<char>, c: Seq<char>)
    ensures
        (a + b) + c == a + (b + c),
{
    assert((a + b) + c =~= a + (b + c));
}

/// A row of nine texts, put together from the end.
proof fn lemma_regroup_nine(
    a: Seq<char>,
    b: Seq<char>,
    c: Seq<char>,
    d: Seq<char>,
    e: Seq<char>,
    f: Seq<char>,
    g: Seq<char>,
    h: Seq<char>,
    i: Seq<char>,
)
    ensures
        a + b + c + d + e + f + g + h + i == a + (b + (c + (d + (e + (f + (g + (h + i))))))),
{
    lemma_regroup(a + b + c + d + e + f + g, h, i);
    lemma_regroup(a + b + c + d + e + f, g, h + i);
    lemma_regroup(a + b + c + d + e, f, g + (h + i));
    lemma_regroup(a + b + c + d, e, f + (g + (h + i)));
    lemma_regroup(a + b + c, d, e + (f + (g + (h + i))));
    lemma_regroup(a + b, c, d + (e + (f + (g + (h + i)))));
    lemma_regroup(a, b, c + (d + (e + (f + (g + (h + i))))));
}

/// A key with a text's literal behind it reads as that text, and what follows stands behind
/// the literal.
proof fn lemma_field_reads_back(
    before: Seq<char>,
    key: Seq<char>,
    s: Seq<char>,
    rest: Seq<char>,
    behind: Seq<char>,
)
    ensures
        read_field(
            before + (key + (json_literal(s) + rest)) + behind,
            before.len() as int,
            key,
        ) == Some((s, (before + key + json_literal(s)).len() as int)),
        before + (key + (json_literal(s) + rest)) + behind == (before + key + json_literal(s))
            + rest + behind,
{
    let literal = json_literal(s);
    let doc = before + (key + (literal + rest)) + behind;
    lemma_regroup(before, key, literal + rest);
    lemma_regroup(before + key, literal, rest);
    assert(doc == (before + key + literal) + rest + behind);
    lemma_regroup(before + key + literal, rest, behind);
    assert(doc.subrange(before.len() as int, (before.len() + key.len()) as int) =~= key);
    json_literal_reads_back(before + key, s, rest + behind);
}

/// An object reads as a commit where its four fields read one behind the other.
proof fn lemma_fields_make_an_entry(
    doc: Seq<char>,
    i: int,
    commit: CommitView,
    j: int,
    k: int,
    l: int,
    m: int,
)
    requires
        read_field(doc, i, "{\"hash\":"@) == Some((commit.hash, j)),
        read_field(doc, j, ",\"author\":"@) == Some((commit.author, k)),
        read_field(doc, k, ",\"date\":"@) == Some((commit.date, l)),
        read_field(doc, l, ",\"subject\":"@) == Some((commit.subject, m)),
        occurs_at("}"@, doc, m),
    ensures
        read_entry(doc, i) == Some((commit, m + 1)),
{
    reveal(read_entry);
}

/// A commit's object reads as that commit.
proof fn lemma_entry_reads_back(before: Seq<char>, commit: CommitView, behind: Seq<char>)
    ensures
        read_entry(before + entry(commit) + behind, before.len() as int) == Some(
            (commit, (before.len() + entry(commit).len()) as int),
        ),
{
    let k1 = "{\"hash\":"@;
    let k2 = ",\"author\":"@;
    let k3 = ",\"date\":"@;
    let k4 = ",\"subject\":"@;
    let f1 = json_literal(commit.hash);
    let f2 = json_literal(commit.author);
    let f3 = json_literal(commit.date);
    let f4 = json_literal(commit.subject);
    let t4 = k4 + (f4 + "}"@);
    let t3 = k3 + (f3 + t4);
    let t2 = k2 + (f2 + t3);
    let t1 = k1 + (f1 + t2);
    lemma_regroup_nine(k1, f1, k2, f2, k3, f3, k4, f4, "}"@);
    let doc = before + t1 + behind;
    let b2 = before + k1 + f1;
    let b3 = b2 + k2 + f2;
    let b4 = b3 + k3 + f3;
    let b5 = b4 + k4 + f4;
    lemma_field_reads_back(before, k1, commit.hash, t2, behind);
    lemma_field_reads_back(b2, k2, commit.author, t3, behind);
    lemma_field_reads_back(b3, k3, commit.date, t4, behind);
    lemma_field_reads_back(b4, k4, commit.subject, "}"@, behind);
    lemma_closes(b5, behind);
    lemma_fields_make_an_entry(
        doc,
        before.len() as int,
        commit,
        b2.len() as int,
        b3.len() as int,
        b4.len() as int,
        b5.len() as int,
    );
    reveal_strlit("}");
    assert(b5.len() + 1 == before.len() + t1.len());
}

/// A closing brace stands where the text before it ends.
proof fn lemma_closes(before: Seq<char>, behind: Seq<char>)
    ensures
        occurs_at("}"@, before + "}"@ + behind, before.len() as int),
{
    let doc = before + "}"@ + behind;
    assert(doc.subrange(before.len() as int, (before.len() + "}"@.len()) as int) =~= "}"@);
}

/// Texts in a row begin with the first, with a separator and the others behind it.
proof fn lemma_join_first(parts: Seq<Seq<char>>, sep: Seq<char>)
    requires
        parts.len() >= 2,
    ensures
        join(parts, sep) == parts[0] + sep + join(parts.skip(1), sep),
    decreases parts.len(),
{
    let fewer = parts.drop_last();
    if parts.len() == 2 {
        assert(join(fewer, sep) == parts[0]);
        assert(join(parts.skip(1), sep) == parts[1]);
    } else {
        lemma_join_first(fewer, sep);
        assert(fewer.skip(1) =~= parts.skip(1).drop_last());
        assert(join(parts, sep) =~= parts[0] + sep + join(parts.skip(1), sep));
    }
}

/// A row of texts with the first two and what stands between them set apart.
proof fn lemma_set_apart(
    before: Seq<char>,
    first: Seq<char>,
    sep: Seq<char>,
    others: Seq<char>,
    end: Seq<char>,
)
    ensures
        before + (first + sep + others) + end == before + first + (sep + others + end),
        before + (first + sep + others) + end == (before + first + sep) + others + end,
        sep.len() > 0 ==> (before + first + (sep + others + end))[(before.len()
            + first.len()) as int] == sep[0],
{
    assert(before + (first + sep + others) + end =~= before + first + (sep + others + end));
    assert(before + (first + sep + others) + end =~= (before + first + sep) + others + end);
}

/// A commit's object is not empty.
proof fn lemma_entry_begins(commit: CommitView)
    ensures
        entry(commit).len() > 0,
        entry(commit)[0] == '{',
{
    reveal_strlit("{\"hash\":");
}

/// The objects of commits read as those commits.
proof fn lemma_entries_read_back(before: Seq<char>, commits: Seq<CommitView>)
    requires
        commits.len() > 0,
    ensures
        read_entries(
            before + join(entries(commits), ","@) + "]"@,
            before.len() as int,
        ) == Some(commits),
    decreases commits.len(),
{
    let all = entries(commits);
    let first = entry(commits[0]);
    lemma_entry_begins(commits[0]);
    if commits.len() == 1 {
        assert(all[0] == first);
        lemma_last_entry(before, commits[0]);
        assert(seq![commits[0]] =~= commits);
    } else {
        let rest = commits.skip(1);
        let others = join(entries(rest), ","@);
        lemma_join_first(all, ","@);
        assert(all.skip(1) =~= entries(rest));
        assert(all[0] == first);
        lemma_set_apart(before, first, ","@, others, "]"@);
        lemma_entries_read_back(before + first + ","@, rest);
        lemma_entry_reads_back(before, commits[0], ","@ + others + "]"@);
        lemma_comma();
        assert(seq![commits[0]] + rest =~= commits);
    }
}

/// What a comma is.
proof fn lemma_comma()
    ensures
        ","@.len() == 1,
        ","@[0] == ',',
{
    reveal_strlit(",");
}

/// The last object before the end of the array reads as its commit.
proof fn lemma_last_entry(before: Seq<char>, commit: CommitView)
    ensures
        read_entries(before + entry(commit) + "]"@, before.len() as int) == Some(seq![commit]),
{
    reveal_strlit("]");
    lemma_entry_begins(commit);
    lemma_entry_reads_back(before, commit, "]"@);
    let doc = before + entry(commit) + "]"@;
    assert(doc[(before.len() + entry(commit).len()) as int] == ']');
}

/// The structured face of the history reads back: whatever the commits' fields hold, quotes,
/// backslashes and control characters included, the document is one array of objects that
/// reads as those commits, each with its hash, author, date and subject, in their order.
pub proof fn document_reads_back(commits: Seq<CommitView>)
    ensures
        read_document(document(commits)) == Some(commits),
{
    reveal_strlit("[]");
    reveal_strlit("[");
    reveal_strlit("]");
    reveal_strlit("{\"hash\":");
    let doc = document(commits);
    if commits.len() == 0 {
        assert(join(entries(commits), ","@) =~= Seq::empty());
        assert(doc =~= "[]"@);
        assert(commits =~= Seq::empty());
    } else {
        lemma_entries_read_back("["@, commits);
        lemma_entries_begin(commits);
        assert(doc[1] == '{');
        assert(doc[0] == '[');
    }
}

/// What stands first in a row of commits' objects.
proof fn lemma_entries_begin(commits: Seq<CommitView>)
    requires
        commits.len() > 0,
    ensures
        join(entries(commits), ","@).len() > 0,
        join(entries(commits), ","@)[0] == '{',
{
    let all = entries(commits);
    lemma_entry_begins(commits[0]);
    assert(all[0][0] == '{');
    if commits.len() > 1 {
        lemma_join_first(all, ","@);
    }
}

/// Whether no field of a commit holds a character.
pub open spec fn free_of(commit: CommitView, c: char) -> bool {
    &&& !commit.hash.contains(c)
    &&& !commit.author.contains(c)
    &&& !commit.date.contains(c)
    &&& !commit.subject.contains(c)
}

/// The line that git prints of a commit: its fields, with unit separators between them.
pub open spec fn line_of(commit: CommitView) -> Seq<char> {
    join(seq![commit.hash, commit.author, commit.date, commit.subject], seq!['\u{1f}'])
}

/// A commit's line gives that commit back, where no field holds a unit separator.
pub proof fn line_gives_its_commit(commit: CommitView)
    requires
        free_of(commit, '\u{1f}'),
    ensures
        split(line_of(commit), '\u{1f}') == seq![
            commit.hash,
            commit.author,
            commit.date,
            commit.subject,
        ],
        commit_in(line_of(commit)) == Some(commit),
{
    splitting_undoes_joining(
        seq![commit.hash, commit.author, commit.date, commit.subject],
        '\u{1f}',
    );
}

/// A subject that somehow carries a unit separator merely truncates its own entry's subject:
/// what stands behind the separator is left out, and the other fields are as they were.
pub proof fn separator_cuts_the_subject(commit: CommitView, rest: Seq<char>)
    requires
        free_of(commit, '\u{1f}'),
    ensures
        commit_in(line_of(commit) + seq!['\u{1f}'] + rest) == Some(commit),
{
    line_gives_its_commit(commit);
    splitting_at_a_separator(line_of(commit), rest, '\u{1f}');
}

/// Every line is read for itself: no line changes what another one gives.
pub proof fn lines_are_read_one_by_one(a: Seq<Seq<char>>, b: Seq<Seq<char>>)
    ensures
        commits_in(a + b) == commits_in(a) + commits_in(b),
    decreases b.len(),
{
    if b.len() == 0 {
        assert(a + b =~= a);
        assert(commits_in(a) + commits_in(b) =~= commits_in(a));
    } else {
        lines_are_read_one_by_one(a, b.drop_last());
        assert((a + b).drop_last() =~= a + b.drop_last());
        assert(commits_in(a + b) =~= commits_in(a) + commits_in(b));
    }
}

/// The lines that git prints of commits.
pub open spec fn lines_for(commits: Seq<CommitView>) -> Seq<Seq<char>> {
    Seq::new(commits.len(), |i: int| line_of(commits[i]))
}

/// What a line of a commit is made of.
proof fn lemma_line(commit: CommitView)
    ensures
        line_of(commit).len() > 0,
        line_of(commit).last() == if commit.subject.len() > 0 {
            commit.subject.last()
        } else {
            '\u{1f}'
        },
        free_of(commit, '\n') ==> !line_of(commit).contains('\n'),
{
    let sep = seq!['\u{1f}'];
    let fields = seq![commit.hash, commit.author, commit.date, commit.subject];
    let three = fields.drop_last();
    let two = three.drop_last();
    let whole = commit.hash + sep + commit.author + sep + commit.date + sep + commit.subject;
    assert(join(two.drop_last(), sep) == commit.hash);
    assert(join(two, sep) == commit.hash + sep + commit.author);
    assert(join(three, sep) == commit.hash + sep + commit.author + sep + commit.date);
    assert(line_of(commit) == whole);
    if free_of(commit, '\n') && whole.contains('\n') {
        let k = choose|k: int| 0 <= k < whole.len() && whole[k] == '\n';
        let a = commit.hash.len() as int;
        let b = a + 1 + commit.author.len();
        let c = b + 1 + commit.date.len();
        if k < a {
            assert(commit.hash[k] == '\n');
        } else if a < k < b {
            assert(commit.author[k - a - 1] == '\n');
        } else if b < k < c {
            assert(commit.date[k - b - 1] == '\n');
        } else if k > c {
            assert(commit.subject[k - c - 1] == '\n');
        }
    }
}

/// Commits' lines give those commits.
proof fn lemma_lines_give_their_commits(commits: Seq<CommitView>)
    requires
        forall|i: int| 0 <= i < commits.len() ==> free_of(#[trigger] commits[i], '\u{1f}'),
    ensures
        commits_in(lines_for(commits)) == commits,
    decreases commits.len(),
{
    if commits.len() == 0 {
        assert(commits_in(lines_for(commits)) =~= commits);
    } else {
        lemma_lines_give_their_commits(commits.drop_last());
        assert(lines_for(commits).drop_last() =~= lines_for(commits.drop_last()));
        line_gives_its_commit(commits.last());
        assert(commits.drop_last().push(commits.last()) =~= commits);
    }
}

/// The history is served as it is: of what git prints for commits, one line each, the
/// structured face is a document that reads as those very commits, in their order. A field
/// holds no line feed and no unit separator; and a subject that a line feed follows does not
/// end with a carriage return, which would count as part of the line's ending.
pub proof fn history_reads_back(commits: Seq<CommitView>)
    requires
        forall|i: int|
            0 <= i < commits.len() ==> free_of(#[trigger] commits[i], '\n') && free_of(
                commits[i],
                '\u{1f}',
            ),
        forall|i: int|
            0 <= i < commits.len() - 1 && (#[trigger] commits[i]).subject.len() > 0
                ==> commits[i].subject.last() != '\r',
    ensures
        commits_in(lines(join(lines_for(commits), seq!['\n']))) == commits,
        read_document(document(commits_in(lines(join(lines_for(commits), seq!['\n']))))) == Some(
            commits,
        ),
{
    let printed = lines_for(commits);
    let raw = join(printed, seq!['\n']);
    if commits.len() == 0 {
        assert(raw =~= Seq::empty());
        assert(lines(raw) =~= printed);
    } else {
        assert forall|i: int| 0 <= i < printed.len() implies !(#[trigger] printed[i]).contains(
            '\n',
        ) by {
            assert(free_of(commits[i], '\n'));
            lemma_line(commits[i]);
        }
        splitting_undoes_joining(printed, '\n');
        lemma_line(commits.last());
        assert forall|i: int| 0 <= i < printed.len() - 1 implies without_return(
            #[trigger] printed[i],
        ) == printed[i] by {
            lemma_line(commits[i]);
        }
        assert(lines(raw) =~= printed);
    }
    lemma_lines_give_their_commits(commits);
    document_reads_back(commits);
}

} // verus!
