//! Operations on sequences of characters: splitting and joining.

use vstd::prelude::*;
use crate::strings::{matches_at, occurs_at};

verus! {

/// The texts that a vector of character vectors holds.
pub open spec fn rows(parts: Seq<Vec<char>>) -> Seq<Seq<char>> {
    Seq::new(parts.len(), |i: int| parts[i]@)
}

/// Whether Unicode gives a character the property `White_Space`: the
/// controls from tab to carriage return, the space, the next-line control,
/// the no-break space, the Ogham space mark, the spaces from en quad to hair
/// space, the line and paragraph separators, the narrow no-break space, the
/// medium mathematical space, and the ideographic space.
pub open spec fn white_space(c: char) -> bool {
    ('\u{9}' <= c && c <= '\u{d}') || c == ' ' || c == '\u{85}' || c == '\u{a0}' || c == '\u{1680}'
        || ('\u{2000}' <= c && c <= '\u{200a}') || c == '\u{2028}' || c == '\u{2029}' || c
        == '\u{202f}' || c == '\u{205f}' || c == '\u{3000}'
}

/// `char::is_whitespace` holds of exactly the characters with Unicode's
/// property `White_Space`.
pub assume_specification[ char::is_whitespace ](c: char) -> (white: bool)
    ensures
        white == white_space(c),
;

/// How many characters of whitespace `s` begins with.
pub open spec fn leading_whitespace(s: Seq<char>) -> int
    decreases s.len(),
{
    if s.len() > 0 && white_space(s[0]) {
        1 + leading_whitespace(s.drop_first())
    } else {
        0
    }
}

/// How many characters of whitespace `s` ends with.
pub open spec fn trailing_whitespace(s: Seq<char>) -> int
    decreases s.len(),
{
    if s.len() > 0 && white_space(s.last()) {
        1 + trailing_whitespace(s.drop_last())
    } else {
        0
    }
}

/// `s` without the whitespace it begins with.
pub open spec fn trim_start_of(s: Seq<char>) -> Seq<char> {
    s.skip(leading_whitespace(s))
}

/// `s` without the whitespace it ends with.
pub open spec fn trim_end_of(s: Seq<char>) -> Seq<char> {
    s.take(s.len() - trailing_whitespace(s))
}

/// `s` without the whitespace at either end.
pub open spec fn trimmed(s: Seq<char>) -> Seq<char> {
    trim_end_of(trim_start_of(s))
}

/// Whether `s` holds nothing but whitespace.
pub open spec fn is_blank(s: Seq<char>) -> bool {
    forall|i: int| 0 <= i < s.len() ==> white_space(s[i])
}

/// The leading whitespace is a run of whitespace that a character of another
/// kind, or the end, follows.
pub proof fn leading_whitespace_bounds(s: Seq<char>)
    ensures
        0 <= leading_whitespace(s) <= s.len(),
        forall|k: int| 0 <= k < leading_whitespace(s) ==> white_space(s[k]),
        leading_whitespace(s) < s.len() ==> !white_space(s[leading_whitespace(s)]),
    decreases s.len(),
{
    if s.len() > 0 && white_space(s[0]) {
        let rest = s.drop_first();
        leading_whitespace_bounds(rest);
        assert forall|k: int| 0 <= k < leading_whitespace(s) implies white_space(s[k]) by {
            if k > 0 {
                assert(rest[k - 1] == s[k]);
            }
        }
    }
}

/// The trailing whitespace is a run of whitespace that a character of
/// another kind, or the beginning, precedes.
pub proof fn trailing_whitespace_bounds(s: Seq<char>)
    ensures
        0 <= trailing_whitespace(s) <= s.len(),
        forall|k: int| s.len() - trailing_whitespace(s) <= k < s.len() ==> white_space(s[k]),
        trailing_whitespace(s) < s.len() ==> !white_space(
            s[s.len() - trailing_whitespace(s) - 1],
        ),
    decreases s.len(),
{
    if s.len() > 0 && white_space(s.last()) {
        let rest = s.drop_last();
        trailing_whitespace_bounds(rest);
        assert forall|k: int| s.len() - trailing_whitespace(s) <= k < s.len() implies white_space(
            s[k],
        ) by {
            if k < s.len() - 1 {
                assert(rest[k] == s[k]);
            }
        }
    }
}

/// A run of whitespace at the start that a character of another kind, or the
/// end, follows is the leading whitespace.
pub proof fn leading_whitespace_is(s: Seq<char>, n: int)
    requires
        0 <= n <= s.len(),
        forall|k: int| 0 <= k < n ==> white_space(s[k]),
        n < s.len() ==> !white_space(s[n]),
    ensures
        leading_whitespace(s) == n,
{
    leading_whitespace_bounds(s);
}

/// A run of whitespace at the end that a character of another kind, or the
/// beginning, precedes is the trailing whitespace.
pub proof fn trailing_whitespace_is(s: Seq<char>, n: int)
    requires
        0 <= n <= s.len(),
        forall|k: int| s.len() - n <= k < s.len() ==> white_space(s[k]),
        n < s.len() ==> !white_space(s[s.len() - n - 1]),
    ensures
        trailing_whitespace(s) == n,
{
    trailing_whitespace_bounds(s);
}

/// Trimming leaves nothing exactly of a text that is blank.
pub proof fn trimmed_empty_iff_blank(s: Seq<char>)
    ensures
        trimmed(s).len() == 0 <==> is_blank(s),
        trim_start_of(s).len() == 0 <==> is_blank(s),
{
    leading_whitespace_bounds(s);
    let t = trim_start_of(s);
    trailing_whitespace_bounds(t);
    if leading_whitespace(s) < s.len() {
        assert(!white_space(s[leading_whitespace(s)]));
        assert(t[0] == s[leading_whitespace(s)]);
        if trailing_whitespace(t) == t.len() {
            assert(white_space(t[0]));
        }
    }
}

/// The lower-case form of an ASCII letter; any other character is itself.
pub open spec fn ascii_lower(c: char) -> char {
    if 'A' <= c && c <= 'Z' {
        ((c as u8) + 32) as char
    } else {
        c
    }
}

/// Whether two texts are the same up to the case of their ASCII letters.
pub open spec fn same_ignoring_ascii_case(a: Seq<char>, b: Seq<char>) -> bool {
    a.len() == b.len() && forall|i: int| 0 <= i < a.len() ==> ascii_lower(a[i]) == ascii_lower(b[i])
}

/// The position of the first `c` in `s`, or the length of `s` if there is
/// none.
pub open spec fn first_index(s: Seq<char>, c: char) -> int
    decreases s.len(),
{
    if s.len() == 0 {
        0
    } else if s[0] == c {
        0
    } else {
        1 + first_index(s.drop_first(), c)
    }
}

/// The pieces of `s` between occurrences of `sep`. There is always at least
/// one piece, and an empty one wherever two separators meet or one stands at
/// an end.
pub open spec fn split_on(s: Seq<char>, sep: char) -> Seq<Seq<char>>
    decreases s.len(),
{
    let at = first_index(s, sep);
    if at < 0 || at >= s.len() {
        seq![s]
    } else {
        seq![s.take(at)] + split_on(s.skip(at + 1), sep)
    }
}

/// A line without the carriage return that ended it, if one did.
pub open spec fn without_carriage_return(line: Seq<char>) -> Seq<char> {
    if line.len() > 0 && line.last() == '\r' {
        line.drop_last()
    } else {
        line
    }
}

/// The lines of `s`. A line ends with a line feed, or with a carriage return
/// and a line feed; neither belongs to the line. What follows the last line
/// feed is a line too, unless it is empty; a carriage return at its end
/// stays.
pub open spec fn lines_of(s: Seq<char>) -> Seq<Seq<char>>
    decreases s.len(),
{
    let at = first_index(s, '\n');
    if s.len() == 0 {
        Seq::empty()
    } else if at < 0 || at >= s.len() {
        seq![s]
    } else {
        seq![without_carriage_return(s.take(at))] + lines_of(s.skip(at + 1))
    }
}

/// The pieces of `s` between occurrences of the text `sep`, read from left
/// to right, from a point on; `current` is what was read of the piece at
/// that point.
pub open spec fn pieces_from(s: Seq<char>, sep: Seq<char>, current: Seq<char>) -> Seq<Seq<char>>
    decreases s.len(),
{
    if s.len() == 0 || sep.len() == 0 {
        seq![current + s]
    } else if occurs_at(s, sep, 0) {
        seq![current] + pieces_from(s.skip(sep.len() as int), sep, Seq::empty())
    } else {
        pieces_from(s.skip(1), sep, current.push(s[0]))
    }
}

/// `s` with every occurrence of `from` replaced by `to`, occurrences being
/// read from left to right. An empty `from` replaces nothing.
pub open spec fn replaced(s: Seq<char>, from: Seq<char>, to: Seq<char>) -> Seq<char> {
    join(pieces_from(s, from, Seq::empty()), to)
}

/// `n` levels of indentation, two spaces each.
pub open spec fn indentation(n: nat) -> Seq<char> {
    Seq::new(2 * n, |i: int| ' ')
}

/// Whether `hay` ends with `needle`.
pub open spec fn ends_with_text(hay: Seq<char>, needle: Seq<char>) -> bool {
    occurs_at(hay, needle, hay.len() - needle.len())
}

/// The parts in order with `sep` between each two.
pub open spec fn join(parts: Seq<Seq<char>>, sep: Seq<char>) -> Seq<char>
    decreases parts.len(),
{
    if parts.len() == 0 {
        Seq::empty()
    } else if parts.len() == 1 {
        parts[0]
    } else {
        join(parts.drop_last(), sep) + sep + parts.last()
    }
}

/// `first_index` finds the first occurrence and nothing before it.
pub proof fn first_index_bounds(s: Seq<char>, c: char)
    ensures
        0 <= first_index(s, c) <= s.len(),
        forall|k: int| 0 <= k < first_index(s, c) ==> s[k] != c,
        first_index(s, c) < s.len() ==> s[first_index(s, c)] == c,
    decreases s.len(),
{
    if s.len() > 0 && s[0] != c {
        let rest = s.drop_first();
        first_index_bounds(rest, c);
        assert forall|k: int| 0 <= k < first_index(s, c) implies s[k] != c by {
            if k > 0 {
                assert(rest[k - 1] == s[k]);
            }
        }
    }
}

/// A position with no `c` before it, which holds `c` or is the end, is the
/// first index.
pub proof fn first_index_is(s: Seq<char>, c: char, at: int)
    requires
        0 <= at <= s.len(),
        forall|k: int| 0 <= k < at ==> s[k] != c,
        at < s.len() ==> s[at] == c,
    ensures
        first_index(s, c) == at,
{
    first_index_bounds(s, c);
}

/// Joining one more part appends the separator and the part.
pub proof fn join_push(parts: Seq<Seq<char>>, sep: Seq<char>, part: Seq<char>)
    ensures
        join(parts.push(part), sep) == if parts.len() == 0 {
            part
        } else {
            join(parts, sep) + sep + part
        },
{
    let all = parts.push(part);
    assert(all.drop_last() =~= parts);
    assert(all.last() == part);
}

/// Joining with a part in front prepends the part and the separator.
pub proof fn join_prepend(part: Seq<char>, parts: Seq<Seq<char>>, sep: Seq<char>)
    requires
        parts.len() > 0,
    ensures
        join(seq![part] + parts, sep) =~= part + sep + join(parts, sep),
    decreases parts.len(),
{
    let all = seq![part] + parts;
    assert(all.last() == parts.last());
    assert(join(all, sep) == join(all.drop_last(), sep) + sep + all.last());
    if parts.len() == 1 {
        assert(all.drop_last() =~= seq![part]);
        assert(join(seq![part], sep) == part);
        assert(join(parts, sep) == parts[0]);
    } else {
        assert(all.drop_last() =~= seq![part] + parts.drop_last());
        join_prepend(part, parts.drop_last(), sep);
        assert(join(parts, sep) == join(parts.drop_last(), sep) + sep + parts.last());
    }
}

/// Splitting loses nothing: joining the pieces with the separator gives the
/// text back. No piece holds the separator.
pub proof fn join_of_split(s: Seq<char>, sep: char)
    ensures
        join(split_on(s, sep), seq![sep]) =~= s,
        split_on(s, sep).len() >= 1,
        forall|i: int, k: int|
            0 <= i < split_on(s, sep).len() && 0 <= k < split_on(s, sep)[i].len() ==> split_on(
                s,
                sep,
            )[i][k] != sep,
    decreases s.len(),
{
    first_index_bounds(s, sep);
    let at = first_index(s, sep);
    if at < s.len() {
        let rest = s.skip(at + 1);
        join_of_split(rest, sep);
        join_prepend(s.take(at), split_on(rest, sep), seq![sep]);
        assert(s =~= s.take(at) + seq![sep] + rest);
        let pieces = split_on(s, sep);
        assert forall|i: int, k: int| 0 <= i < pieces.len() && 0 <= k < pieces[i].len() implies
            pieces[i][k] != sep by {
            if i > 0 {
                assert(pieces[i] == split_on(rest, sep)[i - 1]);
            }
        }
    }
}

/// The lower-case form of an ASCII letter; any other character is itself.
pub fn to_ascii_lower(c: char) -> (lower: char)
    ensures
        lower == ascii_lower(c),
{
    if 'A' <= c && c <= 'Z' {
        ((c as u8) + 32) as char
    } else {
        c
    }
}

/// Whether two texts are the same up to the case of their ASCII letters.
pub fn eq_ignoring_ascii_case(a: &Vec<char>, b: &Vec<char>) -> (same: bool)
    ensures
        same == same_ignoring_ascii_case(a@, b@),
{
    if a.len() != b.len() {
        return false;
    }
    let mut i: usize = 0;
    while i < a.len()
        invariant
            i <= a.len(),
            a.len() == b.len(),
            forall|k: int| 0 <= k < i ==> ascii_lower(a@[k]) == ascii_lower(b@[k]),
        decreases a.len() - i,
    {
        if to_ascii_lower(a[i]) != to_ascii_lower(b[i]) {
            return false;
        }
        i += 1;
    }
    true
}

/// Whether `s` holds nothing but whitespace.
pub fn is_blank_chars(s: &Vec<char>) -> (blank: bool)
    ensures
        blank == is_blank(s@),
{
    let mut i: usize = 0;
    while i < s.len()
        invariant
            i <= s.len(),
            forall|k: int| 0 <= k < i ==> white_space(s@[k]),
        decreases s.len() - i,
    {
        if !s[i].is_whitespace() {
            return false;
        }
        i += 1;
    }
    true
}

/// How many characters of whitespace `s` begins with.
pub fn count_leading_whitespace(s: &Vec<char>) -> (n: usize)
    ensures
        n == leading_whitespace(s@),
        n <= s.len(),
{
    let mut n: usize = 0;
    while n < s.len() && s[n].is_whitespace()
        invariant
            n <= s.len(),
            forall|k: int| 0 <= k < n ==> white_space(s@[k]),
        decreases s.len() - n,
    {
        n += 1;
    }
    proof {
        leading_whitespace_is(s@, n as int);
    }
    n
}

/// `s` without the whitespace it begins with.
pub fn trim_start_chars(s: &Vec<char>) -> (out: Vec<char>)
    ensures
        out@ == trim_start_of(s@),
{
    let from = count_leading_whitespace(s);
    let out = copy_range(s, from, s.len());
    assert(s@.subrange(from as int, s@.len() as int) =~= s@.skip(from as int));
    out
}

/// `s` without the whitespace at either end.
pub fn trim_chars(s: &Vec<char>) -> (out: Vec<char>)
    ensures
        out@ == trimmed(s@),
{
    let from = count_leading_whitespace(s);
    let mut to: usize = s.len();
    while to > from && s[to - 1].is_whitespace()
        invariant
            from <= to <= s.len(),
            forall|k: int| to <= k < s.len() ==> white_space(s@[k]),
        decreases to,
    {
        to -= 1;
    }
    let out = copy_range(s, from, to);
    proof {
        let t = s@.skip(from as int);
        assert forall|k: int| t.len() - (s.len() - to) <= k < t.len() implies white_space(
            t[k],
        ) by {
            assert(t[k] == s@[k + from]);
        }
        if s.len() - to < t.len() {
            assert(t[t.len() - (s.len() - to) - 1] == s@[to - 1]);
        }
        trailing_whitespace_is(t, s.len() - to);
        assert(out@ =~= t.take(t.len() - (s.len() - to)));
    }
    out
}

/// A copy of the characters of `s` from `from` up to `to`.
pub fn copy_range(s: &Vec<char>, from: usize, to: usize) -> (piece: Vec<char>)
    requires
        from <= to <= s.len(),
    ensures
        piece@ == s@.subrange(from as int, to as int),
{
    let mut piece: Vec<char> = Vec::new();
    let mut i: usize = from;
    while i < to
        invariant
            from <= i <= to,
            to <= s.len(),
            piece@ == s@.subrange(from as int, i as int),
        decreases to - i,
    {
        piece.push(s[i]);
        i += 1;
    }
    piece
}

/// The pieces of `s` between occurrences of `sep`.
pub fn split_chars(s: &Vec<char>, sep: char) -> (parts: Vec<Vec<char>>)
    ensures
        rows(parts@) == split_on(s@, sep),
{
    let mut parts: Vec<Vec<char>> = Vec::new();
    let mut start: usize = 0;
    let mut i: usize = 0;
    proof {
        assert(s@.skip(0) =~= s@);
        assert(rows(parts@) + split_on(s@, sep) =~= split_on(s@, sep));
    }
    while i < s.len()
        invariant
            start <= i <= s.len(),
            forall|k: int| start <= k < i ==> s@[k] != sep,
            split_on(s@, sep) == rows(parts@) + split_on(s@.skip(start as int), sep),
        decreases s.len() - i,
    {
        if s[i] == sep {
            let piece = copy_range(s, start, i);
            proof {
                let tail = s@.skip(start as int);
                first_index_is(tail, sep, i - start);
                assert(tail.take(i - start) =~= piece@);
                assert(tail.skip(i - start + 1) =~= s@.skip(i + 1));
                assert(rows(parts@.push(piece)) =~= rows(parts@).push(piece@));
                assert(rows(parts@) + (seq![piece@] + split_on(s@.skip(i + 1), sep)) =~= rows(
                    parts@,
                ).push(piece@) + split_on(s@.skip(i + 1), sep));
            }
            parts.push(piece);
            start = i + 1;
        }
        i += 1;
    }
    let piece = copy_range(s, start, s.len());
    proof {
        let tail = s@.skip(start as int);
        first_index_is(tail, sep, tail.len() as int);
        assert(tail =~= piece@);
        assert(rows(parts@.push(piece)) =~= rows(parts@).push(piece@));
        assert(rows(parts@) + seq![piece@] =~= rows(parts@).push(piece@));
    }
    parts.push(piece);
    parts
}

/// The lines of `s`.
pub fn lines_chars(s: &Vec<char>) -> (lines: Vec<Vec<char>>)
    ensures
        rows(lines@) == lines_of(s@),
{
    let mut lines: Vec<Vec<char>> = Vec::new();
    let mut start: usize = 0;
    let mut i: usize = 0;
    proof {
        assert(s@.skip(0) =~= s@);
        assert(rows(lines@) + lines_of(s@) =~= lines_of(s@));
    }
    while i < s.len()
        invariant
            start <= i <= s.len(),
            forall|k: int| start <= k < i ==> s@[k] != '\n',
            lines_of(s@) == rows(lines@) + lines_of(s@.skip(start as int)),
        decreases s.len() - i,
    {
        if s[i] == '\n' {
            let end = if i > start && s[i - 1] == '\r' {
                i - 1
            } else {
                i
            };
            let line = copy_range(s, start, end);
            proof {
                let tail = s@.skip(start as int);
                first_index_is(tail, '\n', i - start);
                assert(without_carriage_return(tail.take(i - start)) =~= line@);
                assert(tail.skip(i - start + 1) =~= s@.skip(i + 1));
                assert(rows(lines@.push(line)) =~= rows(lines@).push(line@));
                assert(rows(lines@) + (seq![line@] + lines_of(s@.skip(i + 1))) =~= rows(
                    lines@,
                ).push(line@) + lines_of(s@.skip(i + 1)));
            }
            lines.push(line);
            start = i + 1;
        }
        i += 1;
    }
    if start < s.len() {
        let line = copy_range(s, start, s.len());
        proof {
            let tail = s@.skip(start as int);
            first_index_is(tail, '\n', tail.len() as int);
            assert(tail =~= line@);
            assert(rows(lines@.push(line)) =~= rows(lines@).push(line@));
            assert(rows(lines@) + seq![line@] =~= rows(lines@).push(line@));
        }
        lines.push(line);
    } else {
        assert(rows(lines@) + Seq::<Seq<char>>::empty() =~= rows(lines@));
    }
    lines
}

/// The pieces of `s` between occurrences of the text `sep`.
pub fn split_text_chars(s: &Vec<char>, sep: &Vec<char>) -> (pieces: Vec<Vec<char>>)
    ensures
        rows(pieces@) == pieces_from(s@, sep@, Seq::empty()),
{
    let mut pieces: Vec<Vec<char>> = Vec::new();
    let mut current: Vec<char> = Vec::new();
    let mut i: usize = 0;
    proof {
        assert(s@.skip(0) =~= s@);
        assert(rows(pieces@) + pieces_from(s@, sep@, Seq::empty()) =~= pieces_from(
            s@,
            sep@,
            Seq::empty(),
        ));
    }
    while i < s.len() && sep.len() > 0
        invariant
            i <= s.len(),
            pieces_from(s@, sep@, Seq::empty()) == rows(pieces@) + pieces_from(
                s@.skip(i as int),
                sep@,
                current@,
            ),
        decreases s.len() - i,
    {
        let ghost rest = s@.skip(i as int);
        assert(rest[0] == s@[i as int]);
        assert(rest.skip(1) =~= s@.skip(i + 1));
        let found = matches_at(s, sep, i);
        proof {
            if i + sep.len() <= s.len() {
                assert(rest.subrange(0, sep@.len() as int) =~= s@.subrange(
                    i as int,
                    i + sep@.len(),
                ));
                assert(rest.skip(sep@.len() as int) =~= s@.skip(i + sep@.len()));
            }
            assert(found == occurs_at(rest, sep@, 0));
        }
        if found {
            proof {
                assert(rows(pieces@.push(current)) =~= rows(pieces@).push(current@));
                assert(rows(pieces@) + (seq![current@] + pieces_from(
                    rest.skip(sep@.len() as int),
                    sep@,
                    Seq::empty(),
                )) =~= rows(pieces@).push(current@) + pieces_from(
                    rest.skip(sep@.len() as int),
                    sep@,
                    Seq::empty(),
                ));
            }
            pieces.push(current);
            current = Vec::new();
            i += sep.len();
        } else {
            current.push(s[i]);
            i += 1;
        }
    }
    let tail = copy_range(s, i, s.len());
    append_chars(&mut current, &tail);
    proof {
        assert(tail@ =~= s@.skip(i as int));
        assert(rows(pieces@.push(current)) =~= rows(pieces@).push(current@));
        assert(rows(pieces@) + seq![current@] =~= rows(pieces@).push(current@));
    }
    pieces.push(current);
    pieces
}

/// `s` with every occurrence of `from` replaced by `to`.
pub fn replace_chars(s: &Vec<char>, from: &Vec<char>, to: &Vec<char>) -> (out: Vec<char>)
    ensures
        out@ == replaced(s@, from@, to@),
{
    let pieces = split_text_chars(s, from);
    join_chars(&pieces, to)
}

/// Whether `hay` ends with `needle`.
pub fn ends_with_chars(hay: &Vec<char>, needle: &Vec<char>) -> (ends: bool)
    ensures
        ends == ends_with_text(hay@, needle@),
{
    if needle.len() > hay.len() {
        return false;
    }
    matches_at(hay, needle, hay.len() - needle.len())
}

/// Appends `n` levels of indentation to `text`.
pub fn append_indentation(text: &mut Vec<char>, n: usize)
    ensures
        final(text)@ == old(text)@ + indentation(n as nat),
{
    let mut i: usize = 0;
    assert(text@ =~= old(text)@ + indentation(0));
    while i < n
        invariant
            i <= n,
            text@ == old(text)@ + indentation(i as nat),
        decreases n - i,
    {
        text.push(' ');
        text.push(' ');
        assert(text@ =~= old(text)@ + indentation((i + 1) as nat));
        i += 1;
    }
}

/// The parts in order with `sep` between each two.
pub fn join_chars(parts: &Vec<Vec<char>>, sep: &Vec<char>) -> (joined: Vec<char>)
    ensures
        joined@ == join(rows(parts@), sep@),
{
    let mut joined: Vec<char> = Vec::new();
    let mut i: usize = 0;
    while i < parts.len()
        invariant
            i <= parts.len(),
            joined@ == join(rows(parts@).take(i as int), sep@),
        decreases parts.len() - i,
    {
        proof {
            join_push(rows(parts@).take(i as int), sep@, parts@[i as int]@);
            assert(rows(parts@).take(i + 1) =~= rows(parts@).take(i as int).push(
                parts@[i as int]@,
            ));
        }
        if i > 0 {
            append_chars(&mut joined, sep);
        }
        append_chars(&mut joined, &parts[i]);
        i += 1;
    }
    assert(rows(parts@).take(parts@.len() as int) =~= rows(parts@));
    joined
}

/// Appends the characters of `more` to `text`.
pub fn append_chars(text: &mut Vec<char>, more: &Vec<char>)
    ensures
        final(text)@ == old(text)@ + more@,
{
    let mut i: usize = 0;
    while i < more.len()
        invariant
            i <= more.len(),
            text@ == old(text)@ + more@.take(i as int),
        decreases more.len() - i,
    {
        text.push(more[i]);
        i += 1;
    }
    assert(more@.take(more@.len() as int) =~= more@);
}

/// The character of a digit.
pub open spec fn digit_char(digit: int) -> char {
    (0x30 + digit) as char
}

/// A number written in decimal, without leading zeros.
pub open spec fn decimal_of(n: nat) -> Seq<char>
    decreases n,
{
    if n < 10 {
        seq![digit_char(n as int)]
    } else {
        decimal_of(n / 10) + seq![digit_char((n % 10) as int)]
    }
}

/// Appends `n`, written in decimal, to `text`.
pub fn append_decimal(text: &mut Vec<char>, n: u128)
    ensures
        final(text)@ == old(text)@ + decimal_of(n as nat),
    decreases n,
{
    if n >= 10 {
        append_decimal(text, n / 10);
    }
    let digit: u8 = (n % 10) as u8;
    text.push((0x30u8 + digit) as char);
    proof {
        if n >= 10 {
            assert(text@ =~= old(text)@ + (decimal_of((n / 10) as nat) + seq![
                digit_char((n % 10) as int),
            ]));
        } else {
            assert(text@ =~= old(text)@ + seq![digit_char(n as int)]);
        }
    }
}

} // verus!
