//! What each endpoint serves of what came back: the text as it is, the history as a document
//! that reads back, the repositories in order, or the error that says why there is nothing.
use crate::call::{CallView, Failure};
use crate::facade::{finished, rendered, FacadeView};
use crate::json::{escape, escaped, json_literal};
use crate::list::{
    listing, listing_body, listing_is_sorted, repo_in, repo_order, repos_in, row, rows, text_le,
    unreadable_root, EntryView, RepoView,
};
use crate::log::{
    commit_in, commits_in, document, document_reads_back, entries, entry, free_of,
    history_reads_back, line_gives_its_commit, line_of, lines_are_read_one_by_one, lines_for,
    read_document, separator_cuts_the_subject, CommitView,
};
use crate::number::{decimal, digit, hex, signed_decimal};
use crate::repr::{body_as, ReprTypeView, ReprView};
use crate::run::{ended_result, exit_result, utf8_lossy, EndedView};
use crate::runs::{faces_are_selected_by_substring, structured};
use crate::text::{
    join, joining_goes_by_rows, lines, split, split_is_never_empty, splitting_at_a_separator,
    splitting_undoes_joining, trim, without_return,
};
use vstd::prelude::*;
use vstd::utf8::{decode_utf8, encode_utf8, encode_utf8_decode_utf8};

verus! {

/// A body as it is served in UTF-8: as plain text, or as JSON.
pub proof fn bodies_are_typed(body: Seq<char>)
    ensures
        body_as(body, false).repr_type.media_type == "text/plain"@,
        body_as(body, false).repr_type.params == seq![("charset"@, "utf-8"@)],
        body_as(body, true).repr_type.media_type == "application/json"@,
        body_as(body, true).repr_type.params.len() == 0,
        body_as(body, false).bytes == encode_utf8(body),
        body_as(body, true).bytes == encode_utf8(body),
{
}

/// A type as one text is its media type with its parameters behind it, in their order.
pub proof fn types_are_written_in_order(
    media_type: Seq<char>,
    params: Seq<(Seq<char>, Seq<char>)>,
    key: Seq<char>,
    value: Seq<char>,
)
    ensures
        (ReprTypeView { media_type, params: Seq::empty() }).canonical() == media_type,
        (ReprTypeView { media_type, params: params.push((key, value)) }).canonical() == (
        ReprTypeView { media_type, params }).canonical() + ";"@ + key + "="@ + value,
{
    let more = params.push((key, value));
    assert(more.drop_last() =~= params);
    assert((ReprTypeView { media_type, params: Seq::empty() }).canonical() =~= media_type);
    assert((ReprTypeView { media_type, params: more }).canonical() =~= (ReprTypeView {
        media_type,
        params,
    }).canonical() + ";"@ + key + "="@ + value);
}

/// Whether an endpoint has a structured face.
pub open spec fn has_structured_face(facade: FacadeView) -> bool {
    match facade {
        FacadeView::Exec => false,
        FacadeView::Git { .. } => false,
        FacadeView::Pr { json_fields, .. } => json_fields is Some,
        FacadeView::PrFiles => true,
        FacadeView::PrList => true,
        FacadeView::Log => true,
    }
}

/// The structured face is served, as JSON, exactly where the endpoint has one and the call
/// asks for it, and plain text otherwise; and but for the structured history, which is
/// written here, what the tool wrote is served as it is.
pub proof fn faces_are_served(facade: FacadeView, call: CallView, out: Seq<char>)
    ensures
        has_structured_face(facade) && structured(call) ==> {
            &&& rendered(facade, call, out).repr_type.media_type == "application/json"@
            &&& rendered(facade, call, out).repr_type.params.len() == 0
        },
        !(has_structured_face(facade) && structured(call)) ==> {
            &&& rendered(facade, call, out).repr_type.media_type == "text/plain"@
            &&& rendered(facade, call, out).repr_type.params == seq![("charset"@, "utf-8"@)]
        },
        !(facade is Log && structured(call)) ==> rendered(facade, call, out).bytes
            == encode_utf8(out),
{
    faces_are_selected_by_substring(call);
}

/// What the structured history reads as.
pub open spec fn served_commits(call: CallView, out: Seq<char>) -> Option<Seq<CommitView>> {
    read_document(decode_utf8(rendered(FacadeView::Log, call, out).bytes))
}

/// The structured history reads as the commits in what git printed.
proof fn lemma_served(call: CallView, out: Seq<char>)
    requires
        structured(call),
    ensures
        decode_utf8(rendered(FacadeView::Log, call, out).bytes) == document(
            commits_in(lines(out)),
        ),
        served_commits(call, out) == Some(commits_in(lines(out))),
{
    faces_are_selected_by_substring(call);
    let doc = document(commits_in(lines(out)));
    encode_utf8_decode_utf8(doc);
    document_reads_back(commits_in(lines(out)));
}

/// The structured history is the history: where git prints commits, one line each, what is
/// served reads as those very commits, in their order, each with its hash, author, date and
/// subject. A field holds no line feed and no unit separator; and a subject that a line feed
/// follows does not end with a carriage return, which would count as part of the line's
/// ending.
pub proof fn history_is_served(call: CallView, commits: Seq<CommitView>)
    requires
        structured(call),
        forall|i: int|
            0 <= i < commits.len() ==> free_of(#[trigger] commits[i], '\n')
                && free_of(commits[i], '\u{1f}'),
        forall|i: int|
            0 <= i < commits.len() - 1 && (#[trigger] commits[i]).subject.len() > 0
                ==> commits[i].subject.last() != '\r',
    ensures
        served_commits(call, join(lines_for(commits), seq!['\n'])) == Some(commits),
{
    lemma_served(call, join(lines_for(commits), seq!['\n']));
    history_reads_back(commits);
}

/// One line gives one commit: its first four fields, each in its own place, and what stands
/// behind a further separator is left out.
pub proof fn one_line_gives_one_commit(
    call: CallView,
    hash: Seq<char>,
    author: Seq<char>,
    date: Seq<char>,
    subject: Seq<char>,
    rest: Seq<char>,
)
    requires
        structured(call),
        !hash.contains('\u{1f}') && !author.contains('\u{1f}') && !date.contains('\u{1f}')
            && !subject.contains('\u{1f}'),
        !hash.contains('\n') && !author.contains('\n') && !date.contains('\n')
            && !subject.contains('\n'),
        !rest.contains('\n'),
    ensures
        ({
            let us = seq!['\u{1f}'];
            let line = hash + us + author + us + date + us + subject;
            let commit = CommitView { hash, author, date, subject };
            &&& served_commits(call, line) == Some(seq![commit])
            &&& served_commits(call, line + us + rest) == Some(seq![commit])
        }),
{
    let us = seq!['\u{1f}'];
    let line = hash + us + author + us + date + us + subject;
    let commit = CommitView { hash, author, date, subject };
    lemma_line_is(commit);
    lemma_no_line_feed(hash, author, date, subject, rest);
    line_gives_its_commit(commit);
    separator_cuts_the_subject(commit, rest);
    lemma_one_line(line);
    lemma_one_line(line + us + rest);
    lemma_served(call, line);
    lemma_served(call, line + us + rest);
    lemma_commits_in_one(line);
    lemma_commits_in_one(line + us + rest);
}

/// The commits that one line gives.
proof fn lemma_commits_in_one(line: Seq<char>)
    ensures
        commits_in(seq![line]) == match commit_in(line) {
            Some(commit) => seq![commit],
            None => Seq::empty(),
        },
{
    reveal_with_fuel(commits_in, 2);
    assert(seq![line].drop_last() =~= Seq::empty());
    assert(seq![line].last() == line);
    if commit_in(line) is Some {
        assert(commits_in(seq![line]) =~= seq![commit_in(line)->0]);
    }
}

/// A commit's line, written out.
proof fn lemma_line_is(commit: CommitView)
    ensures
        line_of(commit) == commit.hash + seq!['\u{1f}'] + commit.author + seq!['\u{1f}']
            + commit.date + seq!['\u{1f}'] + commit.subject,
{
    let us = seq!['\u{1f}'];
    let four = seq![commit.hash, commit.author, commit.date, commit.subject];
    let three = four.drop_last();
    let two = three.drop_last();
    assert(join(two.drop_last(), us) == commit.hash);
    assert(join(two, us) == commit.hash + us + commit.author);
    assert(join(three, us) == commit.hash + us + commit.author + us + commit.date);
}

/// Fields without a line feed make a line without one.
proof fn lemma_no_line_feed(
    a: Seq<char>,
    b: Seq<char>,
    c: Seq<char>,
    d: Seq<char>,
    e: Seq<char>,
)
    requires
        !a.contains('\n') && !b.contains('\n') && !c.contains('\n') && !d.contains('\n')
            && !e.contains('\n'),
    ensures
        ({
            let us = seq!['\u{1f}'];
            &&& !(a + us + b + us + c + us + d).contains('\n')
            &&& !(a + us + b + us + c + us + d + us + e).contains('\n')
        }),
{
    let us = seq!['\u{1f}'];
    assert(!us.contains('\n'));
    lemma_neither(a, us);
    lemma_neither(a + us, b);
    lemma_neither(a + us + b, us);
    lemma_neither(a + us + b + us, c);
    lemma_neither(a + us + b + us + c, us);
    lemma_neither(a + us + b + us + c + us, d);
    lemma_neither(a + us + b + us + c + us + d, us);
    lemma_neither(a + us + b + us + c + us + d + us, e);
}

/// Two texts without a line feed make one without.
proof fn lemma_neither(a: Seq<char>, b: Seq<char>)
    requires
        !a.contains('\n'),
        !b.contains('\n'),
    ensures
        !(a + b).contains('\n'),
{
    if (a + b).contains('\n') {
        let k = choose|k: int| 0 <= k < (a + b).len() && (a + b)[k] == '\n';
        if k < a.len() {
            assert(a[k] == '\n');
        } else {
            assert(b[k - a.len()] == '\n');
        }
    }
}

/// A text without a line feed is one line.
proof fn lemma_one_line(s: Seq<char>)
    requires
        !s.contains('\n'),
    ensures
        split(s, '\n') == seq![s],
        lines(s) == if s.len() == 0 {
            Seq::<Seq<char>>::empty()
        } else {
            seq![s]
        },
{
    joining_goes_by_rows(seq![s], Seq::empty(), seq!['\n']);
    splitting_undoes_joining(seq![s], '\n');
    assert(lines(s) =~= if s.len() == 0 {
        Seq::<Seq<char>>::empty()
    } else {
        seq![s]
    });
}

/// A line with fewer than four fields gives no commit.
pub proof fn short_lines_give_no_commit(call: CallView, line: Seq<char>)
    requires
        structured(call),
        split(line, '\u{1f}').len() < 4,
    ensures
        commit_in(line) is None,
        !line.contains('\n') ==> served_commits(call, line) == Some(Seq::<CommitView>::empty()),
{
    if !line.contains('\n') {
        lemma_one_line(line);
        lemma_served(call, line);
        lemma_commits_in_one(line);
    }
}

/// What git printed is read line by line, whichever way a line ends: the commits of two texts
/// with a line's ending between them are those of the one and then those of the other.
pub proof fn history_is_read_line_by_line(call: CallView, one: Seq<char>, other: Seq<char>)
    requires
        structured(call),
    ensures
        served_commits(call, one) is Some,
        served_commits(call, other) is Some,
        served_commits(call, one + seq!['\r', '\n'] + other) == Some(
            served_commits(call, one)->0 + served_commits(call, other)->0,
        ),
        one.len() == 0 || one.last() != '\r' ==> served_commits(
            call,
            one + seq!['\n'] + other,
        ) == Some(served_commits(call, one)->0 + served_commits(call, other)->0),
{
    lemma_served(call, one);
    lemma_served(call, other);
    lemma_served(call, one + seq!['\r', '\n'] + other);
    lemma_served(call, one + seq!['\n'] + other);
    lemma_parted(one, one + seq!['\r'], other);
    assert((one + seq!['\r']) + seq!['\n'] + other =~= one + seq!['\r', '\n'] + other);
    if one.len() == 0 || one.last() != '\r' {
        lemma_parted(one, one, other);
    }
}

/// The last piece of a text ends as the text does.
proof fn lemma_last_piece(s: Seq<char>, sep: char)
    ensures
        split(s, sep).len() > 0,
        split(s, sep).last().len() > 0 ==> s.len() > 0 && split(s, sep).last().last() == s.last(),
{
    split_is_never_empty(s, sep);
    if s.len() > 0 {
        split_is_never_empty(s.drop_last(), sep);
    }
}

/// The commits of a text whose last line ends before another text.
proof fn lemma_parted(one: Seq<char>, ended: Seq<char>, other: Seq<char>)
    requires
        ended == one + seq!['\r'] || (ended == one && (one.len() == 0 || one.last() != '\r')),
    ensures
        commits_in(lines(ended + seq!['\n'] + other)) == commits_in(lines(one)) + commits_in(
            lines(other),
        ),
{
    let strip = |piece: Seq<char>| without_return(piece);
    let whole = ended + seq!['\n'] + other;
    splitting_at_a_separator(ended, other, '\n');
    lemma_last_piece(one, '\n');
    lemma_last_piece(ended, '\n');
    lemma_last_piece(other, '\n');
    let p = split(one, '\n');
    let q = split(ended, '\n');
    let r = split(other, '\n');
    let last = p.last();
    if ended == one + seq!['\r'] {
        assert(ended.drop_last() =~= one);
        assert(q == p.drop_last().push(last.push('\r')));
        assert(last.push('\r').drop_last() =~= last);
    }
    assert(q.drop_last() =~= p.drop_last());
    assert(without_return(q.last()) == last);
    let head = p.drop_last().map_values(strip);
    assert(lines(whole) =~= head.push(last) + lines(other)) by {
        assert((q + r).drop_last() =~= q + r.drop_last());
        assert(q =~= p.drop_last().push(q.last()));
        assert((q + r.drop_last()).map_values(strip) =~= head.push(last)
            + r.drop_last().map_values(strip));
    }
    lines_are_read_one_by_one(head.push(last), lines(other));
    lines_are_read_one_by_one(head, seq![last]);
    assert(head.push(last) =~= head + seq![last]);
    if last.len() == 0 {
        lemma_commits_in_one(last);
        assert(split(last, '\u{1f}').len() == 1);
        assert(commits_in(head.push(last)) =~= commits_in(head));
    }
}

/// The structured history is one array with one object per commit, each field under its own
/// name: the document of one commit, and how the documents of two histories make up one.
pub proof fn documents_are_arrays(a: Seq<CommitView>, b: Seq<CommitView>, commit: CommitView)
    ensures
        document(Seq::empty()) == "[]"@,
        document(seq![commit]) == "[{\"hash\":"@ + json_literal(commit.hash) + ",\"author\":"@
            + json_literal(commit.author) + ",\"date\":"@ + json_literal(commit.date)
            + ",\"subject\":"@ + json_literal(commit.subject) + "}]"@,
        a.len() > 0 && b.len() > 0 ==> document(a + b) == document(a).drop_last() + ","@
            + document(b).skip(1),
{
    reveal_strlit("[");
    reveal_strlit("]");
    reveal_strlit("[]");
    reveal_strlit("}");
    reveal_strlit("}]");
    reveal_strlit("{\"hash\":");
    reveal_strlit("[{\"hash\":");
    joining_goes_by_rows(entries(seq![commit]), Seq::empty(), ","@);
    assert(entries(seq![commit])[0] == entry(commit));
    assert(entries(Seq::<CommitView>::empty()) =~= Seq::empty());
    assert(document(Seq::empty()) =~= "[]"@);
    assert("["@ + entry(commit) + "]"@ =~= "[{\"hash\":"@ + json_literal(
        commit.hash,
    ) + ",\"author\":"@ + json_literal(commit.author) + ",\"date\":"@ + json_literal(
        commit.date,
    ) + ",\"subject\":"@ + json_literal(commit.subject) + "}]"@);
    if a.len() > 0 && b.len() > 0 {
        joining_goes_by_rows(entries(a), entries(b), ","@);
        assert(entries(a + b) =~= entries(a) + entries(b));
        assert(document(a + b) =~= document(a).drop_last() + ","@ + document(b).skip(1));
    }
}

/// A JSON literal is written character by character between two quotes: a quote, a backslash
/// and a control character are escaped, and every other character is written as it is.
pub proof fn literals_go_by_characters(a: Seq<char>, b: Seq<char>, c: char)
    ensures
        json_literal(Seq::empty()) == seq!['"', '"'],
        json_literal(a + b) == json_literal(a).drop_last() + json_literal(b).skip(1),
        json_literal(seq![c]) == if c == '"' {
            seq!['"', '\\', '"', '"']
        } else if c == '\\' {
            seq!['"', '\\', '\\', '"']
        } else if c == '\n' {
            seq!['"', '\\', 'n', '"']
        } else if c == '\r' {
            seq!['"', '\\', 'r', '"']
        } else if c == '\t' {
            seq!['"', '\\', 't', '"']
        } else if (c as int) < 0x20 {
            seq!['"', '\\', 'u', '0', '0', digit(c as int / 16), digit(c as int % 16), '"']
        } else {
            seq!['"', c, '"']
        },
{
    reveal_with_fuel(escape, 2);
    reveal_with_fuel(hex, 5);
    lemma_escape_parts(a, b);
    assert(json_literal(a + b) =~= json_literal(a).drop_last() + json_literal(b).skip(1));
    assert(json_literal(Seq::empty()) =~= seq!['"', '"']);
    assert(seq![c].skip(1) =~= Seq::empty());
    assert(json_literal(seq![c]) =~= seq!['"'] + escaped(c) + seq!['"']);
    if (c as int) < 0x20 && c != '\n' && c != '\r' && c != '\t' {
        assert(json_literal(seq![c]) =~= seq![
            '"',
            '\\',
            'u',
            '0',
            '0',
            digit(c as int / 16),
            digit(c as int % 16),
            '"',
        ]);
    }
}

/// Two texts are escaped one after the other.
proof fn lemma_escape_parts(a: Seq<char>, b: Seq<char>)
    ensures
        escape(a + b) == escape(a) + escape(b),
    decreases a.len(),
{
    if a.len() == 0 {
        assert(a + b =~= b);
        assert(escape(a) + escape(b) =~= escape(b));
    } else {
        lemma_escape_parts(a.skip(1), b);
        assert((a + b).skip(1) =~= a.skip(1) + b);
        assert(escape(a + b) =~= escape(a) + escape(b));
    }
}

/// What a run comes to, in all its ways: of a success what the tool wrote is served; a tool
/// that did not start, or that failed, is an error with the tool, its code where there is one
/// and minus one where there is none, and what it said of errors, trimmed.
pub proof fn runs_come_to(
    facade: FacadeView,
    call: CallView,
    tool: Seq<char>,
    code: Option<i32>,
    stdout: Seq<u8>,
    stderr: Seq<u8>,
    why: Seq<char>,
)
    ensures
        ended_result(tool, EndedView::Exited { success: true, code, stdout, stderr }) == Ok::<
            Seq<char>,
            Failure,
        >(utf8_lossy(stdout)),
        finished(facade, call, tool, EndedView::Exited { success: true, code, stdout, stderr })
            == Ok::<ReprView, Failure>(rendered(facade, call, utf8_lossy(stdout))),
        finished(facade, call, tool, EndedView::NotStarted(why)) == Err::<ReprView, Failure>(
            Failure::Endpoint("exec: could not run `"@ + tool + "`: "@ + why),
        ),
        finished(facade, call, tool, EndedView::Exited { success: false, code, stdout, stderr })
            == Err::<ReprView, Failure>(
            Failure::Endpoint(
                "exec: `"@ + tool + "` exited "@ + (match code {
                    Some(code) => if code < 0 {
                        seq!['-'] + decimal((-code) as nat)
                    } else {
                        decimal(code as nat)
                    },
                    None => "-1"@,
                }) + ": "@ + trim(utf8_lossy(stderr)),
            ),
        ),
{
    lemma_no_code();
}

/// What stands for a code that there is not.
proof fn lemma_no_code()
    ensures
        signed_decimal(-1) == "-1"@,
{
    reveal_strlit("-1");
    assert(signed_decimal(-1) =~= "-1"@);
}

/// The same of the texts that a tool wrote.
pub proof fn exits_come_to(
    tool: Seq<char>,
    code: Option<i32>,
    stdout: Seq<char>,
    stderr: Seq<char>,
)
    ensures
        exit_result(tool, true, code, stdout, stderr) == Ok::<Seq<char>, Failure>(stdout),
        exit_result(tool, false, code, stdout, stderr) == Err::<Seq<char>, Failure>(
            Failure::Endpoint(
                "exec: `"@ + tool + "` exited "@ + (match code {
                    Some(code) => if code < 0 {
                        seq!['-'] + decimal((-code) as nat)
                    } else {
                        decimal(code as nat)
                    },
                    None => "-1"@,
                }) + ": "@ + trim(stderr),
            ),
        ),
{
    lemma_no_code();
}

/// Texts are in order by the first character in which they differ, and a text stands before
/// every longer one that begins with it.
pub proof fn texts_are_ordered(
    same: Seq<char>,
    a: char,
    b: char,
    x: Seq<char>,
    y: Seq<char>,
)
    ensures
        a != b ==> text_le(same + seq![a] + x, same + seq![b] + y) == ((a as int) < (b as int)),
        text_le(same, same + x),
        text_le(same + x, same) == (x.len() == 0),
    decreases same.len(),
{
    let p = same + seq![a] + x;
    let q = same + seq![b] + y;
    if same.len() > 0 {
        texts_are_ordered(same.skip(1), a, b, x, y);
        assert(p.skip(1) =~= same.skip(1) + seq![a] + x);
        assert(q.skip(1) =~= same.skip(1) + seq![b] + y);
        assert((same + x).skip(1) =~= same.skip(1) + x);
        assert(p[0] == same[0] && q[0] == same[0] && (same + x)[0] == same[0]);
    } else {
        assert(p[0] == a && q[0] == b);
        assert(same + x =~= x);
    }
}

/// Repositories are in order by name, and those of one name by path.
pub proof fn repositories_are_ordered(a: RepoView, b: RepoView)
    ensures
        a.0 != b.0 ==> repo_order()(a, b) == text_le(a.0, b.0),
        a.0 == b.0 ==> repo_order()(a, b) == text_le(a.1, b.1),
{
}

/// An entry more is a repository more exactly where it is a directory with a `.git` entry and
/// a name in UTF-8: it is then listed by that name, with its absolute path, or its path as it
/// is where there is no absolute one.
pub proof fn an_entry_more(all: Seq<EntryView>, entry: EntryView)
    ensures
        listing(Seq::empty()).len() == 0,
        repos_in(all.push(entry)) == repos_in(all) + (if entry.is_dir && entry.has_git
            && entry.name is Some {
            seq![
                (
                    entry.name->0,
                    match entry.absolute {
                        Some(path) => path,
                        None => entry.path,
                    },
                ),
            ]
        } else {
            Seq::empty()
        }),
        listing(all.push(entry)).to_multiset() == if entry.is_dir && entry.has_git
            && entry.name is Some {
            listing(all).to_multiset().insert(
                (
                    entry.name->0,
                    match entry.absolute {
                        Some(path) => path,
                        None => entry.path,
                    },
                ),
            )
        } else {
            listing(all).to_multiset()
        },
{
    let more = all.push(entry);
    assert(more.drop_last() =~= all);
    listing_is_sorted(all);
    listing_is_sorted(more);
    listing_is_sorted(Seq::empty());
    repos_in(all).to_multiset_ensures();
    repos_in(Seq::empty()).to_multiset_ensures();
    listing(Seq::empty()).to_multiset_ensures();
    if repo_in(entry) is Some {
        assert(repos_in(more) == repos_in(all).push(repo_in(entry)->0));
    }
}

/// The listing is one line per repository, its name, a tab and its path; nothing where there
/// is none; and where one listing goes on as another the lines of the other follow.
pub proof fn listings_are_lines(
    whole: Seq<EntryView>,
    one: Seq<EntryView>,
    other: Seq<EntryView>,
)
    ensures
        listing(one).len() == 0 ==> listing_body(one) == Seq::<char>::empty(),
        listing(one).len() == 1 ==> listing_body(one) == listing(one)[0].0 + seq!['\t']
            + listing(one)[0].1,
        listing(one).len() > 0 && listing(other).len() > 0 && listing(whole) == listing(one)
            + listing(other) ==> listing_body(whole) == listing_body(one) + seq!['\n']
            + listing_body(other),
{
    reveal_strlit("\t");
    reveal_strlit("\n");
    assert("\t"@ =~= seq!['\t']);
    assert("\n"@ =~= seq!['\n']);
    joining_goes_by_rows(rows(listing(one)), rows(listing(other)), "\n"@);
    if listing(one).len() == 0 {
        assert(rows(listing(one)) =~= Seq::empty());
    }
    if listing(one).len() == 1 {
        assert(rows(listing(one))[0] == row(listing(one)[0]));
    }
    if listing(whole) == listing(one) + listing(other) {
        assert(rows(listing(whole)) =~= rows(listing(one)) + rows(listing(other)));
    }
}

/// A root that cannot be read is told of as such.
pub proof fn unreadable_roots_are_named(root: Seq<char>, why: Seq<char>)
    ensures
        unreadable_root(root, why) == Failure::Endpoint(
            "repo-list: cannot read root `"@ + root + "`: "@ + why,
        ),
{
}

} // verus!
