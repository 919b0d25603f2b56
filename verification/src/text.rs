//! Text: splitting and joining, searching and trimming, over strings seen as sequences of
//! characters.
use vstd::prelude::*;
use vstd::string::StringExecFns;

verus! {

/// `String::push` appends the given character to the end of the string.
pub assume_specification[ String::push ](s: &mut String, c: char)
    ensures
        final(s)@ == old(s)@.push(c),
;

/// Whether a character has Unicode's `White_Space` property.
pub open spec fn white_space(c: char) -> bool {
    ||| '\u{9}' <= c <= '\u{d}'
    ||| c == '\u{20}'
    ||| c == '\u{85}'
    ||| c == '\u{a0}'
    ||| c == '\u{1680}'
    ||| '\u{2000}' <= c <= '\u{200a}'
    ||| c == '\u{2028}'
    ||| c == '\u{2029}'
    ||| c == '\u{202f}'
    ||| c == '\u{205f}'
    ||| c == '\u{3000}'
}

/// `char::is_whitespace`: whether the character has Unicode's `White_Space` property, that
/// is, whether it is one of the characters that have it.
pub assume_specification[ char::is_whitespace ](c: char) -> (white: bool)
    ensures
        white == white_space(c),
;

/// The characters of a string, one by one.
pub(crate) fn chars_of(s: &str) -> (chars: Vec<char>)
    ensures
        chars@ == s@,
{
    let mut chars: Vec<char> = Vec::new();
    for c in it: s.chars()
        invariant
            it.seq() == s@,
            chars@ == s@.take(it.index() as int),
    {
        chars.push(c);
        assert(s@.take(it.index() + 1) =~= s@.take(it.index() as int).push(c));
    }
    assert(s@.take(s@.len() as int) =~= s@);
    chars
}

/// The string made of the characters from `from` up to, not with, `to`.
pub(crate) fn string_between(chars: &Vec<char>, from: usize, to: usize) -> (s: String)
    requires
        from <= to <= chars.len(),
    ensures
        s@ == chars@.subrange(from as int, to as int),
{
    let mut s = String::new();
    let mut i: usize = from;
    while i < to
        invariant
            from <= i <= to <= chars.len(),
            s@ == chars@.subrange(from as int, i as int),
        decreases to - i,
    {
        s.push(chars[i]);
        i = i + 1;
        assert(chars@.subrange(from as int, i as int) =~= chars@.subrange(
            from as int,
            i - 1,
        ).push(chars@[i - 1]));
    }
    assert(s@ =~= chars@.subrange(from as int, to as int));
    s
}

/// Whether two texts are the same.
pub(crate) fn same(a: &str, b: &str) -> (yes: bool)
    ensures
        yes == (a@ == b@),
{
    let x = chars_of(a);
    let y = chars_of(b);
    if x.len() != y.len() {
        return false;
    }
    let mut i: usize = 0;
    while i < x.len()
        invariant
            i <= x.len() == y.len(),
            x@ == a@,
            y@ == b@,
            forall|k: int| 0 <= k < i ==> x@[k] == y@[k],
        decreases x.len() - i,
    {
        if x[i] != y[i] {
            return false;
        }
        i = i + 1;
    }
    assert(a@ =~= b@);
    true
}

/// Append one text to a list of texts.
pub(crate) fn push_text(texts: &mut Vec<String>, s: &str)
    ensures
        final(texts).deep_view() == old(texts).deep_view().push(s@),
{
    texts.push(s.to_string());
    assert(texts.deep_view() =~= old(texts).deep_view().push(s@));
}

/// The texts of a list, each owned.
pub(crate) fn texts_of(list: &[&str]) -> (texts: Vec<String>)
    ensures
        texts.deep_view() == list.deep_view(),
{
    let mut texts: Vec<String> = Vec::new();
    let mut i: usize = 0;
    while i < list.len()
        invariant
            i <= list.len(),
            texts.deep_view() == list.deep_view().take(i as int),
        decreases list.len() - i,
    {
        push_text(&mut texts, list[i]);
        i = i + 1;
        assert(list.deep_view().take(i as int) =~= list.deep_view().take(i - 1).push(
            list.deep_view()[i - 1],
        ));
    }
    assert(list.deep_view().take(i as int) =~= list.deep_view());
    texts
}

/// Whether a text is one of a list.
pub(crate) fn listed(list: &[&str], s: &str) -> (yes: bool)
    ensures
        yes == list.deep_view().contains(s@),
{
    let mut i: usize = 0;
    while i < list.len()
        invariant
            i <= list.len(),
            forall|k: int| 0 <= k < i ==> list.deep_view()[k] != s@,
        decreases list.len() - i,
    {
        if same(list[i], s) {
            assert(list.deep_view()[i as int] == s@);
            return true;
        }
        i = i + 1;
    }
    false
}

/// Whether `needle` occurs somewhere in `s`.
pub open spec fn occurs(needle: Seq<char>, s: Seq<char>) -> bool {
    exists|i: int| #[trigger] occurs_at(needle, s, i)
}

/// Whether `needle` stands in `s` at position `i`.
pub open spec fn occurs_at(needle: Seq<char>, s: Seq<char>, i: int) -> bool {
    &&& 0 <= i <= s.len() - needle.len()
    &&& s.subrange(i, i + needle.len()) == needle
}

/// Whether `needle` occurs somewhere in `s`.
pub(crate) fn contains(s: &str, needle: &str) -> (yes: bool)
    ensures
        yes == occurs(needle@, s@),
{
    let text = chars_of(s);
    let part = chars_of(needle);
    if part.len() > text.len() {
        return false;
    }
    let last: usize = text.len() - part.len();
    let mut i: usize = 0;
    loop
        invariant
            i <= last,
            last + part.len() == text.len(),
            text@ == s@,
            part@ == needle@,
            forall|k: int| 0 <= k < i ==> !#[trigger] occurs_at(needle@, s@, k),
        ensures
            forall|k: int| 0 <= k <= last ==> !#[trigger] occurs_at(needle@, s@, k),
        decreases last - i,
    {
        let mut j: usize = 0;
        while j < part.len() && text[i + j] == part[j]
            invariant
                i <= last,
                j <= part.len(),
                last + part.len() == text.len(),
                text@ == s@,
                part@ == needle@,
                forall|k: int| 0 <= k < j ==> text@[i + k] == part@[k],
            decreases part.len() - j,
        {
            j = j + 1;
        }
        if j == part.len() {
            assert(s@.subrange(i as int, i + needle@.len()) =~= needle@);
            assert(occurs_at(needle@, s@, i as int));
            return true;
        }
        assert(!occurs_at(needle@, s@, i as int)) by {
            assert(text@[i + j] != part@[j as int]);
            if occurs_at(needle@, s@, i as int) {
                assert(s@.subrange(i as int, i + needle@.len())[j as int] == needle@[j as int]);
            }
        }
        if i == last {
            break;
        }
        i = i + 1;
    }
    false
}

/// The pieces of a text between the occurrences of a separator: one more than there are
/// separators, and none of them holds one.
pub open spec fn split(s: Seq<char>, sep: char) -> Seq<Seq<char>>
    decreases s.len(),
{
    if s.len() == 0 {
        seq![Seq::empty()]
    } else {
        let before = split(s.drop_last(), sep);
        if s.last() == sep {
            before.push(Seq::empty())
        } else {
            before.drop_last().push(before.last().push(s.last()))
        }
    }
}

/// Every text has at least one piece.
pub proof fn split_is_never_empty(s: Seq<char>, sep: char)
    ensures
        split(s, sep).len() > 0,
    decreases s.len(),
{
    if s.len() > 0 {
        split_is_never_empty(s.drop_last(), sep);
    }
}

/// The pieces of a text between the occurrences of a separator.
pub(crate) fn split_text(s: &str, sep: char) -> (pieces: Vec<String>)
    ensures
        pieces.deep_view() == split(s@, sep),
{
    let chars = chars_of(s);
    let mut done: Vec<String> = Vec::new();
    let mut open = String::new();
    let mut i: usize = 0;
    assert(split(s@.take(0), sep) =~= done.deep_view().push(open@));
    while i < chars.len()
        invariant
            i <= chars.len(),
            chars@ == s@,
            split(s@.take(i as int), sep) == done.deep_view().push(open@),
        decreases chars.len() - i,
    {
        let c = chars[i];
        let ghost before = done.deep_view();
        let ghost held = open@;
        assert(s@.take(i + 1).drop_last() =~= s@.take(i as int));
        if c == sep {
            done.push(open);
            open = String::new();
            assert(done.deep_view() =~= before.push(held));
        } else {
            open.push(c);
            assert(before.push(held).drop_last() =~= before);
        }
        assert(split(s@.take(i + 1), sep) =~= done.deep_view().push(open@));
        i = i + 1;
    }
    assert(s@.take(s@.len() as int) =~= s@);
    let ghost before = done.deep_view();
    let ghost held = open@;
    done.push(open);
    assert(done.deep_view() =~= before.push(held));
    done
}

/// Texts in a row, with a separator between each two.
pub open spec fn join(parts: Seq<Seq<char>>, sep: Seq<char>) -> Seq<char>
    decreases parts.len(),
{
    if parts.len() == 0 {
        Seq::empty()
    } else if parts.len() == 1 {
        parts[0]
    } else {
        join(parts.drop_last(), sep) + sep + parts.last()
    }
}

/// Texts in a row, with a separator between each two.
pub(crate) fn join_texts(parts: &Vec<String>, sep: &str) -> (s: String)
    ensures
        s@ == join(parts.deep_view(), sep@),
{
    let mut s = String::new();
    let mut i: usize = 0;
    let ghost all = parts.deep_view();
    while i < parts.len()
        invariant
            i <= parts.len(),
            all == parts.deep_view(),
            s@ == join(all.take(i as int), sep@),
        decreases parts.len() - i,
    {
        if i > 0 {
            s.append(sep);
        }
        s.append(parts[i].as_str());
        assert(all.take(i + 1).drop_last() =~= all.take(i as int));
        assert(all.take(i + 1).last() == parts@[i as int]@);
        assert(i == 0 ==> s@ =~= all.take(1)[0]);
        i = i + 1;
    }
    assert(all.take(all.len() as int) =~= all);
    s
}

/// A line without the carriage return that its ending may have begun with.
pub open spec fn without_return(line: Seq<char>) -> Seq<char> {
    if line.len() > 0 && line.last() == '\r' {
        line.drop_last()
    } else {
        line
    }
}

/// The lines of a text. A line ends with a line feed, or with a carriage return and a line
/// feed; the last one may go without an ending.
pub open spec fn lines(s: Seq<char>) -> Seq<Seq<char>> {
    let pieces = split(s, '\n');
    let ended = pieces.drop_last().map_values(|piece: Seq<char>| without_return(piece));
    if pieces.last().len() == 0 {
        ended
    } else {
        ended.push(pieces.last())
    }
}

/// The lines of a text.
pub(crate) fn lines_of(s: &str) -> (all: Vec<String>)
    ensures
        all.deep_view() == lines(s@),
{
    let pieces = split_text(s, '\n');
    let ghost parts = pieces.deep_view();
    proof {
        split_is_never_empty(s@, '\n');
    }
    let ghost strip = |piece: Seq<char>| without_return(piece);
    let mut all: Vec<String> = Vec::new();
    let mut i: usize = 0;
    while i < pieces.len() - 1
        invariant
            parts == pieces.deep_view(),
            parts == split(s@, '\n'),
            parts.len() > 0,
            i <= pieces.len() - 1,
            strip == (|piece: Seq<char>| without_return(piece)),
            all.deep_view() == parts.take(i as int).map_values(strip),
        decreases pieces.len() - i,
    {
        let chars = chars_of(pieces[i].as_str());
        let end: usize = if chars.len() > 0 && chars[chars.len() - 1] == '\r' {
            chars.len() - 1
        } else {
            chars.len()
        };
        let ghost before = all.deep_view();
        let line = string_between(&chars, 0, end);
        assert(line@ =~= without_return(parts[i as int]));
        all.push(line);
        assert(all.deep_view() =~= before.push(line@));
        assert(all.deep_view() =~= parts.take(i + 1).map_values(strip));
        i = i + 1;
    }
    assert(parts.take(parts.len() - 1) =~= parts.drop_last());
    let last = &pieces[pieces.len() - 1];
    if !last.as_str().is_empty() {
        let ghost before = all.deep_view();
        all.push(last.clone());
        assert(all.deep_view() =~= before.push(last@));
    }
    all
}

/// A text without the white space that it begins with.
pub open spec fn trim_start(s: Seq<char>) -> Seq<char>
    decreases s.len(),
{
    if s.len() > 0 && white_space(s[0]) {
        trim_start(s.skip(1))
    } else {
        s
    }
}

/// A text without the white space that it ends with.
pub open spec fn trim_end(s: Seq<char>) -> Seq<char>
    decreases s.len(),
{
    if s.len() > 0 && white_space(s.last()) {
        trim_end(s.drop_last())
    } else {
        s
    }
}

/// A text without the white space that it begins and ends with.
pub open spec fn trim(s: Seq<char>) -> Seq<char> {
    trim_end(trim_start(s))
}

/// A text without the white space that it begins and ends with.
pub(crate) fn trimmed(s: &str) -> (t: String)
    ensures
        t@ == trim(s@),
{
    let chars = chars_of(s);
    let mut from: usize = 0;
    assert(s@.skip(0) =~= s@);
    while from < chars.len() && chars[from].is_whitespace()
        invariant
            from <= chars.len(),
            chars@ == s@,
            trim_start(s@) == trim_start(s@.skip(from as int)),
        decreases chars.len() - from,
    {
        assert(s@.skip(from as int).skip(1) =~= s@.skip(from + 1));
        from = from + 1;
    }
    let ghost rest = trim_start(s@);
    assert(rest =~= s@.subrange(from as int, chars.len() as int));
    let mut to: usize = chars.len();
    while to > from && chars[to - 1].is_whitespace()
        invariant
            from <= to <= chars.len(),
            chars@ == s@,
            trim_end(rest) == trim_end(s@.subrange(from as int, to as int)),
        decreases to,
    {
        assert(s@.subrange(from as int, to as int).drop_last() =~= s@.subrange(
            from as int,
            to - 1,
        ));
        to = to - 1;
    }
    string_between(&chars, from, to)
}

/// The pieces that a text is split into hold no separator.
pub proof fn pieces_hold_no_separator(s: Seq<char>, sep: char)
    ensures
        forall|i: int|
            0 <= i < split(s, sep).len() ==> !(#[trigger] split(s, sep)[i]).contains(sep),
    decreases s.len(),
{
    if s.len() > 0 {
        pieces_hold_no_separator(s.drop_last(), sep);
        split_is_never_empty(s.drop_last(), sep);
        let before = split(s.drop_last(), sep);
        let pieces = split(s, sep);
        assert forall|i: int| 0 <= i < pieces.len() implies !(#[trigger] pieces[i]).contains(
            sep,
        ) by {
            if i < before.len() - 1 {
                assert(pieces[i] == before[i]);
            } else if i == before.len() - 1 {
                assert(!before[i].contains(sep));
                if s.last() != sep && pieces[i].contains(sep) {
                    let k = choose|k: int|
                        0 <= k < pieces[i].len() && pieces[i][k] == sep;
                    assert(before[i][k] == sep);
                }
            }
        }
    }
}

/// Splitting a text and joining the pieces with the separator gives the text back.
pub proof fn joining_undoes_splitting(s: Seq<char>, sep: char)
    ensures
        join(split(s, sep), seq![sep]) == s,
    decreases s.len(),
{
    if s.len() > 0 {
        joining_undoes_splitting(s.drop_last(), sep);
        split_is_never_empty(s.drop_last(), sep);
        let before = split(s.drop_last(), sep);
        let pieces = split(s, sep);
        if s.last() == sep {
            assert(pieces.drop_last() =~= before);
            assert(join(pieces, seq![sep]) =~= s);
        } else {
            assert(pieces.drop_last() =~= before.drop_last());
            assert(join(pieces, seq![sep]) =~= join(before, seq![sep]).push(s.last()));
            assert(join(pieces, seq![sep]) =~= s);
        }
    }
}

/// What splitting makes of a text with more text behind it that holds no separator.
proof fn lemma_split_extends(s: Seq<char>, more: Seq<char>, sep: char)
    requires
        !more.contains(sep),
    ensures
        split(s + more, sep) == split(s, sep).drop_last().push(split(s, sep).last() + more),
    decreases more.len(),
{
    split_is_never_empty(s, sep);
    if more.len() == 0 {
        assert(s + more =~= s);
        assert(split(s, sep).last() + more =~= split(s, sep).last());
        assert(split(s, sep) =~= split(s, sep).drop_last().push(split(s, sep).last()));
    } else {
        let less = more.drop_last();
        assert(more.contains(more.last()));
        assert(!less.contains(sep)) by {
            if less.contains(sep) {
                let k = choose|k: int| 0 <= k < less.len() && less[k] == sep;
                assert(more[k] == sep);
            }
        }
        lemma_split_extends(s, less, sep);
        assert((s + more).drop_last() =~= s + less);
        assert(split(s, sep).last() + less.push(more.last()) =~= (split(s, sep).last()
            + less).push(more.last()));
        assert(less.push(more.last()) =~= more);
        assert(split(s + more, sep) =~= split(s, sep).drop_last().push(
            split(s, sep).last() + more,
        ));
    }
}

/// Joining texts that hold no separator and splitting the whole at it gives the texts back.
pub proof fn splitting_undoes_joining(parts: Seq<Seq<char>>, sep: char)
    requires
        parts.len() > 0,
        forall|i: int| 0 <= i < parts.len() ==> !(#[trigger] parts[i]).contains(sep),
    ensures
        split(join(parts, seq![sep]), sep) == parts,
    decreases parts.len(),
{
    if parts.len() == 1 {
        lemma_split_extends(Seq::empty(), parts[0], sep);
        assert(Seq::<char>::empty() + parts[0] =~= parts[0]);
        assert(split(parts[0], sep) =~= parts);
    } else {
        let fewer = parts.drop_last();
        splitting_undoes_joining(fewer, sep);
        let s = join(fewer, seq![sep]) + seq![sep];
        assert(s.drop_last() =~= join(fewer, seq![sep]));
        assert(split(s, sep) =~= fewer.push(Seq::empty()));
        lemma_split_extends(s, parts.last(), sep);
        assert(Seq::<char>::empty() + parts.last() =~= parts.last());
        assert(split(s, sep).drop_last() =~= fewer);
        assert(fewer.push(parts.last()) =~= parts);
    }
}

/// A separator between two texts parts their pieces.
pub proof fn splitting_at_a_separator(a: Seq<char>, b: Seq<char>, sep: char)
    ensures
        split(a + seq![sep] + b, sep) == split(a, sep) + split(b, sep),
    decreases b.len(),
{
    let whole = a + seq![sep] + b;
    if b.len() == 0 {
        assert(whole.drop_last() =~= a);
        assert(split(whole, sep) =~= split(a, sep) + split(b, sep));
    } else {
        let less = b.drop_last();
        splitting_at_a_separator(a, less, sep);
        split_is_never_empty(less, sep);
        assert(whole.drop_last() =~= a + seq![sep] + less);
        assert(whole.last() == b.last());
        assert(split(whole, sep) =~= split(a, sep) + split(b, sep));
    }
}

/// Joining goes by rows: one text is itself, and two rows joined are the one, the separator
/// and the other.
pub proof fn joining_goes_by_rows(a: Seq<Seq<char>>, b: Seq<Seq<char>>, sep: Seq<char>)
    ensures
        join(Seq::empty(), sep) == Seq::<char>::empty(),
        a.len() == 1 ==> join(a, sep) == a[0],
        a.len() > 0 && b.len() > 0 ==> join(a + b, sep) == join(a, sep) + sep + join(b, sep),
    decreases b.len(),
{
    if a.len() > 0 && b.len() > 0 {
        let fewer = b.drop_last();
        assert((a + b).drop_last() =~= a + fewer);
        if b.len() == 1 {
            assert(a + fewer =~= a);
        } else {
            joining_goes_by_rows(a, fewer, sep);
            assert(join(a + b, sep) =~= join(a, sep) + sep + join(b, sep));
        }
    }
}

/// Whether a text is white space throughout.
pub open spec fn all_white(s: Seq<char>) -> bool {
    forall|i: int| 0 <= i < s.len() ==> white_space(#[trigger] s[i])
}

/// Trimming takes the white space at both ends and nothing else.
pub proof fn trimming_takes_both_ends(before: Seq<char>, s: Seq<char>, behind: Seq<char>)
    requires
        all_white(before),
        all_white(behind),
        s.len() > 0 ==> !white_space(s[0]) && !white_space(s.last()),
    ensures
        trim(before + s + behind) == s,
    decreases before.len() + behind.len(),
{
    let whole = before + s + behind;
    if before.len() > 0 {
        assert(white_space(before[0]));
        assert(whole[0] == before[0]);
        assert(whole.skip(1) =~= before.skip(1) + s + behind);
        assert forall|i: int| 0 <= i < before.skip(1).len() implies white_space(
            #[trigger] before.skip(1)[i],
        ) by {
            assert(white_space(before[i + 1]));
        }
        trimming_takes_both_ends(before.skip(1), s, behind);
    } else if s.len() == 0 {
        assert(whole =~= behind);
        lemma_all_white_goes(behind);
        assert(s =~= Seq::empty());
    } else {
        assert(whole =~= s + behind);
        assert(whole[0] == s[0]);
        assert(trim_start(whole) == whole);
        lemma_white_end_goes(s, behind);
    }
}

/// Nothing is left of white space.
proof fn lemma_all_white_goes(s: Seq<char>)
    requires
        all_white(s),
    ensures
        trim_start(s) == Seq::<char>::empty(),
        trim(s) == Seq::<char>::empty(),
    decreases s.len(),
{
    if s.len() > 0 {
        assert(white_space(s[0]));
        assert forall|i: int| 0 <= i < s.skip(1).len() implies white_space(
            #[trigger] s.skip(1)[i],
        ) by {
            assert(white_space(s[i + 1]));
        }
        lemma_all_white_goes(s.skip(1));
    } else {
        assert(s =~= Seq::empty());
    }
}

/// White space behind a text that does not end with any goes.
proof fn lemma_white_end_goes(s: Seq<char>, behind: Seq<char>)
    requires
        all_white(behind),
        s.len() > 0,
        !white_space(s.last()),
    ensures
        trim_end(s + behind) == s,
    decreases behind.len(),
{
    let whole = s + behind;
    if behind.len() > 0 {
        assert(white_space(behind[behind.len() - 1]));
        assert(whole.last() == behind.last());
        assert(whole.drop_last() =~= s + behind.drop_last());
        assert forall|i: int| 0 <= i < behind.drop_last().len() implies white_space(
            #[trigger] behind.drop_last()[i],
        ) by {
            assert(white_space(behind[i]));
        }
        lemma_white_end_goes(s, behind.drop_last());
    } else {
        assert(whole =~= s);
    }
}

} // verus!
