//! Statistics and transformations of the text in the editor.

use vstd::prelude::*;
use vstd::string::StringExecFns;
use crate::strings::{
    chars_of, matches_at, occurs_at, starts_with_text, str_equals, string_of,
};
use crate::text::{
    append_chars, copy_range, is_blank, is_blank_chars, join, join_chars, lines_chars, lines_of,
    pieces_from, rows, split_text_chars, trim_chars, trim_start_chars, trim_start_of, trimmed,
    white_space,
};
use crate::unicode::{
    alphabetic, alphanumeric, char_lowercase, char_uppercase, lower_chars, lowercase_of,
    upper_chars, uppercase_letter, uppercase_of,
};

verus! {

/// Counts of a text.
#[derive(Debug, Clone, Copy, PartialEq, Eq, Structural)]
pub struct TextStats {
    pub character_count: usize,
    pub word_count: usize,
    pub line_count: usize,
    pub paragraph_count: usize,
}

/// The transformations that the editor offers.
#[derive(Debug, Clone, Copy, PartialEq, Eq, Structural)]
pub enum TextTransform {
    Uppercase,
    Lowercase,
    TitleCase,
    SentenceCase,
    CamelCase,
    SnakeCase,
    KebabCase,
    TrimWhitespace,
    SortLines,
    RemoveDuplicateLines,
    ReverseLines,
    BulletList,
}

/// The words of `s` from a point on, `current` being what was read of the
/// word at that point.
pub open spec fn words_from(s: Seq<char>, current: Seq<char>) -> Seq<Seq<char>>
    decreases s.len(),
{
    if s.len() == 0 {
        closed_word(current)
    } else if white_space(s[0]) {
        closed_word(current) + words_from(s.skip(1), Seq::empty())
    } else {
        words_from(s.skip(1), current.push(s[0]))
    }
}

/// A word that has ended, unless nothing was read of it.
pub open spec fn closed_word(current: Seq<char>) -> Seq<Seq<char>> {
    if current.len() > 0 {
        seq![current]
    } else {
        Seq::empty()
    }
}

/// The words of `s`: its longest runs of characters that are not
/// whitespace.
pub open spec fn words_of(s: Seq<char>) -> Seq<Seq<char>> {
    words_from(s, Seq::empty())
}

/// How many of the texts hold something other than whitespace.
pub open spec fn count_not_blank(parts: Seq<Seq<char>>) -> nat
    decreases parts.len(),
{
    if parts.len() == 0 {
        0
    } else {
        count_not_blank(parts.drop_last()) + if is_blank(parts.last()) {
            0nat
        } else {
            1nat
        }
    }
}

/// How many paragraphs `s` has: pieces between blank lines that hold
/// something other than whitespace.
pub open spec fn paragraphs_of(s: Seq<char>) -> nat {
    count_not_blank(pieces_from(s, seq!['\n', '\n'], Seq::empty()))
}

/// How often `pattern` occurs in `s`, read from left to right, an occurrence
/// beginning no earlier than where the one before it ended. The empty
/// pattern occurs nowhere.
pub open spec fn occurrences(s: Seq<char>, pattern: Seq<char>) -> nat
    decreases s.len(),
{
    if pattern.len() == 0 || s.len() < pattern.len() {
        0
    } else if occurs_at(s, pattern, 0) {
        1 + occurrences(s.skip(pattern.len() as int), pattern)
    } else {
        occurrences(s.skip(1), pattern)
    }
}

/// A word with its first character in upper case and the rest in lower
/// case.
pub open spec fn title_word(word: Seq<char>) -> Seq<char> {
    if word.len() == 0 {
        word
    } else {
        char_uppercase(word[0]) + lowercase_of(word.skip(1))
    }
}

/// Each of the texts as `f` has it.
pub open spec fn each(parts: Seq<Seq<char>>, f: spec_fn(Seq<char>) -> Seq<char>) -> Seq<
    Seq<char>,
> {
    Seq::new(parts.len(), |i: int| f(parts[i]))
}

/// The words of `s`, each beginning in upper case, with one space between.
pub open spec fn title_case(s: Seq<char>) -> Seq<char> {
    join(each(words_of(s), |w: Seq<char>| title_word(w)), seq![' '])
}

/// The first character that `char::to_lowercase` yields for `c`.
pub open spec fn lower_first(c: char) -> char {
    if char_lowercase(c).len() > 0 {
        char_lowercase(c)[0]
    } else {
        c
    }
}

/// Whether a character ends a sentence.
pub open spec fn ends_sentence(c: char) -> bool {
    c == '.' || c == '!' || c == '?'
}

/// `s` in sentence case from a point on; `capitalize` says whether the next
/// letter begins a sentence.
pub open spec fn sentence_from(s: Seq<char>, capitalize: bool) -> Seq<char>
    decreases s.len(),
{
    if s.len() == 0 {
        Seq::empty()
    } else if capitalize && alphabetic(s[0]) {
        char_uppercase(s[0]) + sentence_from(s.skip(1), ends_sentence(s[0]))
    } else {
        seq![lower_first(s[0])] + sentence_from(s.skip(1), capitalize || ends_sentence(s[0]))
    }
}

/// `s` in sentence case: the first letter of the text, and the first after
/// each full stop, exclamation mark or question mark, in upper case, and
/// everything else in lower case.
pub open spec fn sentence_case(s: Seq<char>) -> Seq<char> {
    sentence_from(s, true)
}

/// A word of an identifier that has ended, in lower case, unless nothing
/// was read of it.
pub open spec fn closed_name_part(current: Seq<char>) -> Seq<Seq<char>> {
    if current.len() > 0 {
        seq![lowercase_of(current)]
    } else {
        Seq::empty()
    }
}

/// Whether a character stands between the words of an identifier.
pub open spec fn separates_names(c: char) -> bool {
    c == '_' || c == '-' || white_space(c)
}

/// The words of an identifier from a point on, `current` being what was
/// read of the word at that point.
pub open spec fn name_parts_from(s: Seq<char>, current: Seq<char>) -> Seq<Seq<char>>
    decreases s.len(),
{
    if s.len() == 0 {
        closed_name_part(current)
    } else if separates_names(s[0]) {
        closed_name_part(current) + name_parts_from(s.skip(1), Seq::empty())
    } else if uppercase_letter(s[0]) && current.len() > 0 {
        seq![lowercase_of(current)] + name_parts_from(s.skip(1), char_lowercase(s[0]))
    } else if alphanumeric(s[0]) {
        name_parts_from(s.skip(1), current.push(s[0]))
    } else {
        closed_name_part(current) + name_parts_from(s.skip(1), Seq::empty())
    }
}

/// The words of an identifier, in lower case. Underscores, hyphens,
/// whitespace and every other character that is neither a letter nor a
/// digit stand between words, and an upper-case letter inside a word begins
/// a new one.
pub open spec fn name_parts(s: Seq<char>) -> Seq<Seq<char>> {
    name_parts_from(s, Seq::empty())
}

/// A word with its first character in upper case.
pub open spec fn capitalized(word: Seq<char>) -> Seq<char> {
    if word.len() == 0 {
        word
    } else {
        char_uppercase(word[0]) + word.skip(1)
    }
}

/// The words put together, each but the first beginning in upper case.
pub open spec fn camel_of(parts: Seq<Seq<char>>) -> Seq<char> {
    if parts.len() == 0 {
        Seq::empty()
    } else {
        parts[0] + join(each(parts.skip(1), |w: Seq<char>| capitalized(w)), Seq::empty())
    }
}

/// A line as camel case.
pub open spec fn camel_case(s: Seq<char>) -> Seq<char> {
    camel_of(name_parts(s))
}

/// A line as snake case.
pub open spec fn snake_case(s: Seq<char>) -> Seq<char> {
    join(name_parts(s), seq!['_'])
}

/// A line as kebab case.
pub open spec fn kebab_case(s: Seq<char>) -> Seq<char> {
    join(name_parts(s), seq!['-'])
}

/// The texts among `parts` that are not empty, in order.
pub open spec fn not_empty(parts: Seq<Seq<char>>) -> Seq<Seq<char>>
    decreases parts.len(),
{
    if parts.len() == 0 {
        Seq::empty()
    } else if parts.last().len() > 0 {
        not_empty(parts.drop_last()).push(parts.last())
    } else {
        not_empty(parts.drop_last())
    }
}

/// Whether `a` comes before `b`, or is `b`, in the order of the dictionary
/// by code points.
pub open spec fn in_order(a: Seq<char>, b: Seq<char>) -> bool
    decreases a.len(),
{
    if a.len() == 0 {
        true
    } else if b.len() == 0 {
        false
    } else if a[0] != b[0] {
        a[0] < b[0]
    } else {
        in_order(a.skip(1), b.skip(1))
    }
}

/// `line` put into sorted lines, behind every line that it does not come
/// before.
pub open spec fn inserted(sorted: Seq<Seq<char>>, line: Seq<char>) -> Seq<Seq<char>>
    decreases sorted.len(),
{
    if sorted.len() == 0 {
        seq![line]
    } else if in_order(sorted.last(), line) {
        sorted.push(line)
    } else {
        inserted(sorted.drop_last(), line).push(sorted.last())
    }
}

/// The lines in the order of the dictionary.
pub open spec fn sorted_lines(lines: Seq<Seq<char>>) -> Seq<Seq<char>>
    decreases lines.len(),
{
    if lines.len() == 0 {
        Seq::empty()
    } else {
        inserted(sorted_lines(lines.drop_last()), lines.last())
    }
}

/// Whether each line comes before the next or is the same.
pub open spec fn is_sorted(lines: Seq<Seq<char>>) -> bool {
    forall|i: int| 0 <= i < lines.len() - 1 ==> in_order(#[trigger] lines[i], lines[i + 1])
}

/// The lines without those that occurred earlier.
pub open spec fn first_of_each(lines: Seq<Seq<char>>) -> Seq<Seq<char>>
    decreases lines.len(),
{
    if lines.len() == 0 {
        Seq::empty()
    } else if lines.drop_last().contains(lines.last()) {
        first_of_each(lines.drop_last())
    } else {
        first_of_each(lines.drop_last()).push(lines.last())
    }
}

/// The mark that begins an entry of a bulleted list.
pub open spec fn bullet() -> Seq<char> {
    seq!['\u{2022}', ' ']
}

/// A line as an entry of a bulleted list: a blank line and a line that has
/// its bullet already stay as they are.
pub open spec fn bulleted(line: Seq<char>) -> Seq<char> {
    if is_blank(line) || starts_with_text(trim_start_of(line), bullet()) {
        line
    } else {
        bullet() + line
    }
}

/// The lines of `s`, each as `f` has it, with a line feed between.
pub open spec fn line_by_line(s: Seq<char>, f: spec_fn(Seq<char>) -> Seq<char>) -> Seq<char> {
    join(each(lines_of(s), f), seq!['\n'])
}

/// What a transformation makes of a text.
pub open spec fn transformed(s: Seq<char>, transform: TextTransform) -> Seq<char> {
    match transform {
        TextTransform::Uppercase => uppercase_of(s),
        TextTransform::Lowercase => lowercase_of(s),
        TextTransform::TitleCase => title_case(s),
        TextTransform::SentenceCase => sentence_case(s),
        TextTransform::CamelCase => line_by_line(s, |l: Seq<char>| camel_case(l)),
        TextTransform::SnakeCase => line_by_line(s, |l: Seq<char>| snake_case(l)),
        TextTransform::KebabCase => line_by_line(s, |l: Seq<char>| kebab_case(l)),
        TextTransform::TrimWhitespace => join(
            not_empty(each(lines_of(s), |l: Seq<char>| trimmed(l))),
            seq!['\n'],
        ),
        TextTransform::SortLines => join(sorted_lines(lines_of(s)), seq!['\n']),
        TextTransform::RemoveDuplicateLines => join(first_of_each(lines_of(s)), seq!['\n']),
        TextTransform::ReverseLines => join(lines_of(s).reverse(), seq!['\n']),
        TextTransform::BulletList => if s.len() == 0 {
            bullet()
        } else {
            line_by_line(s, |l: Seq<char>| bulleted(l))
        },
    }
}

/// The words of `s`.
pub fn words_chars(s: &Vec<char>) -> (words: Vec<Vec<char>>)
    ensures
        rows(words@) == words_of(s@),
{
    let mut words: Vec<Vec<char>> = Vec::new();
    let mut current: Vec<char> = Vec::new();
    let mut i: usize = 0;
    proof {
        assert(s@.skip(0) =~= s@);
        assert(rows(words@) + words_of(s@) =~= words_of(s@));
    }
    while i < s.len()
        invariant
            i <= s.len(),
            words_of(s@) == rows(words@) + words_from(s@.skip(i as int), current@),
        decreases s.len() - i,
    {
        let ghost rest = s@.skip(i as int);
        assert(rest[0] == s@[i as int]);
        assert(rest.skip(1) =~= s@.skip(i + 1));
        if s[i].is_whitespace() {
            if current.len() > 0 {
                proof {
                    assert(rows(words@.push(current)) =~= rows(words@).push(current@));
                    assert(rows(words@) + (seq![current@] + words_from(rest.skip(1), Seq::empty()))
                        =~= rows(words@).push(current@) + words_from(rest.skip(1), Seq::empty()));
                }
                words.push(current);
                current = Vec::new();
            } else {
                assert(current@ =~= Seq::<char>::empty());
                assert(Seq::<Seq<char>>::empty() + words_from(rest.skip(1), Seq::empty())
                    =~= words_from(rest.skip(1), Seq::empty()));
            }
        } else {
            current.push(s[i]);
        }
        i += 1;
    }
    if current.len() > 0 {
        proof {
            assert(rows(words@.push(current)) =~= rows(words@).push(current@));
            assert(rows(words@) + seq![current@] =~= rows(words@).push(current@));
        }
        words.push(current);
    } else {
        assert(rows(words@) + Seq::<Seq<char>>::empty() =~= rows(words@));
    }
    words
}

fn count_not_blank_chars(parts: &Vec<Vec<char>>) -> (count: usize)
    ensures
        count == count_not_blank(rows(parts@)),
{
    let mut count: usize = 0;
    let mut i: usize = 0;
    while i < parts.len()
        invariant
            i <= parts.len(),
            count <= i,
            count == count_not_blank(rows(parts@).take(i as int)),
        decreases parts.len() - i,
    {
        proof {
            assert(rows(parts@).take(i + 1).drop_last() =~= rows(parts@).take(i as int));
            assert(rows(parts@).take(i + 1).last() == parts@[i as int]@);
        }
        if !is_blank_chars(&parts[i]) {
            count += 1;
        }
        i += 1;
    }
    assert(rows(parts@).take(parts@.len() as int) =~= rows(parts@));
    count
}

/// The counts of a text: its characters, its words, its lines, and its
/// paragraphs.
pub fn calculate_text_stats(text: &str) -> (stats: TextStats)
    ensures
        stats.character_count == text@.len(),
        stats.word_count == words_of(text@).len(),
        stats.line_count == lines_of(text@).len(),
        stats.paragraph_count == paragraphs_of(text@),
{
    let s = chars_of(text);
    let words = words_chars(&s);
    let lines = lines_chars(&s);
    let mut blank_line: Vec<char> = Vec::new();
    blank_line.push('\n');
    blank_line.push('\n');
    assert(blank_line@ =~= seq!['\n', '\n']);
    let pieces = split_text_chars(&s, &blank_line);
    TextStats {
        character_count: s.len(),
        word_count: words.len(),
        line_count: lines.len(),
        paragraph_count: count_not_blank_chars(&pieces),
    }
}

/// How often `pattern` occurs in `text`. The empty pattern occurs nowhere.
pub fn count_occurrences(text: &str, pattern: &str) -> (count: usize)
    ensures
        count == occurrences(text@, pattern@),
{
    let s = chars_of(text);
    let p = chars_of(pattern);
    if p.len() == 0 {
        return 0;
    }
    let mut count: usize = 0;
    let mut i: usize = 0;
    assert(s@.skip(0) =~= s@);
    while i < s.len() && s.len() - i >= p.len()
        invariant
            i <= s.len(),
            count <= i,
            p.len() > 0,
            occurrences(s@, p@) == count + occurrences(s@.skip(i as int), p@),
        decreases s.len() - i,
    {
        let ghost rest = s@.skip(i as int);
        assert(rest.skip(1) =~= s@.skip(i + 1));
        assert(rest.skip(p@.len() as int) =~= s@.skip(i + p@.len()));
        assert(rest.subrange(0, p@.len() as int) =~= s@.subrange(i as int, i + p@.len()));
        let found = matches_at(&s, &p, i);
        assert(found == occurs_at(rest, p@, 0));
        if found {
            count += 1;
            i += p.len();
        } else {
            i += 1;
        }
    }
    count
}

/// What is done to each line of a text.
#[derive(Debug, Clone, Copy, PartialEq, Eq, Structural)]
pub enum Rule {
    Camel,
    Snake,
    Kebab,
    Trimmed,
    Bulleted,
}

/// What a rule makes of a line.
pub open spec fn ruled(rule: Rule, part: Seq<char>) -> Seq<char> {
    match rule {
        Rule::Camel => camel_case(part),
        Rule::Snake => snake_case(part),
        Rule::Kebab => kebab_case(part),
        Rule::Trimmed => trimmed(part),
        Rule::Bulleted => bulleted(part),
    }
}

fn lowercase_chars(s: &Vec<char>) -> (lower: Vec<char>)
    ensures
        lower@ == lowercase_of(s@),
{
    let text = string_of(s);
    let lower = text.as_str().to_lowercase();
    chars_of(lower.as_str())
}

fn title_word_chars(word: &Vec<char>) -> (out: Vec<char>)
    ensures
        out@ == title_word(word@),
{
    if word.len() == 0 {
        return Vec::new();
    }
    let mut out = upper_chars(word[0]);
    let rest = copy_range(word, 1, word.len());
    assert(rest@ =~= word@.skip(1));
    let lower = lowercase_chars(&rest);
    append_chars(&mut out, &lower);
    out
}

fn capitalized_chars(word: &Vec<char>) -> (out: Vec<char>)
    ensures
        out@ == capitalized(word@),
{
    if word.len() == 0 {
        return Vec::new();
    }
    let mut out = upper_chars(word[0]);
    let rest = copy_range(word, 1, word.len());
    assert(rest@ =~= word@.skip(1));
    append_chars(&mut out, &rest);
    out
}

fn one_char(c: char) -> (text: Vec<char>)
    ensures
        text@ == seq![c],
{
    let mut text: Vec<char> = Vec::new();
    text.push(c);
    text
}

fn to_title_case(s: &Vec<char>) -> (out: Vec<char>)
    ensures
        out@ == title_case(s@),
{
    let words = words_chars(s);
    let mut titled: Vec<Vec<char>> = Vec::new();
    let mut i: usize = 0;
    while i < words.len()
        invariant
            i <= words.len(),
            titled@.len() == i,
            forall|k: int| 0 <= k < i ==> (#[trigger] titled@[k])@ == title_word(words@[k]@),
        decreases words.len() - i,
    {
        titled.push(title_word_chars(&words[i]));
        i += 1;
    }
    assert(rows(titled@) =~= each(words_of(s@), |w: Seq<char>| title_word(w)));
    join_chars(&titled, &one_char(' '))
}

fn is_sentence_end(c: char) -> (ends: bool)
    ensures
        ends == ends_sentence(c),
{
    c == '.' || c == '!' || c == '?'
}

fn to_sentence_case(s: &Vec<char>) -> (out: Vec<char>)
    ensures
        out@ == sentence_case(s@),
{
    let mut out: Vec<char> = Vec::new();
    let mut capitalize = true;
    let mut i: usize = 0;
    assert(s@.skip(0) =~= s@);
    while i < s.len()
        invariant
            i <= s.len(),
            sentence_case(s@) == out@ + sentence_from(s@.skip(i as int), capitalize),
        decreases s.len() - i,
    {
        let ghost rest = s@.skip(i as int);
        let ghost before = out@;
        assert(rest[0] == s@[i as int]);
        assert(rest.skip(1) =~= s@.skip(i + 1));
        let c = s[i];
        if capitalize && c.is_alphabetic() {
            let upper = upper_chars(c);
            append_chars(&mut out, &upper);
            assert(out@ + sentence_from(rest.skip(1), ends_sentence(c)) =~= before + (
            char_uppercase(c) + sentence_from(rest.skip(1), ends_sentence(c))));
            capitalize = is_sentence_end(c);
        } else {
            let lower = lower_chars(c);
            let first = if lower.len() > 0 {
                lower[0]
            } else {
                c
            };
            out.push(first);
            assert(out@ + sentence_from(rest.skip(1), capitalize || ends_sentence(c)) =~= before
                + (seq![lower_first(c)] + sentence_from(
                rest.skip(1),
                capitalize || ends_sentence(c),
            )));
            if is_sentence_end(c) {
                capitalize = true;
            }
        }
        i += 1;
    }
    assert(out@ + Seq::<char>::empty() =~= out@);
    out
}

/// The words of an identifier, in lower case.
pub fn split_into_words(s: &Vec<char>) -> (words: Vec<Vec<char>>)
    ensures
        rows(words@) == name_parts(s@),
{
    let mut words: Vec<Vec<char>> = Vec::new();
    let mut current: Vec<char> = Vec::new();
    let mut i: usize = 0;
    proof {
        assert(s@.skip(0) =~= s@);
        assert(rows(words@) + name_parts(s@) =~= name_parts(s@));
    }
    while i < s.len()
        invariant
            i <= s.len(),
            name_parts(s@) == rows(words@) + name_parts_from(s@.skip(i as int), current@),
        decreases s.len() - i,
    {
        let ghost rest = s@.skip(i as int);
        assert(rest[0] == s@[i as int]);
        assert(rest.skip(1) =~= s@.skip(i + 1));
        let c = s[i];
        let separates = c == '_' || c == '-' || c.is_whitespace();
        if !separates && c.is_uppercase() && current.len() > 0 {
            let word = lowercase_chars(&current);
            let next = lower_chars(c);
            proof {
                assert(rows(words@.push(word)) =~= rows(words@).push(word@));
                assert(rows(words@) + (seq![word@] + name_parts_from(rest.skip(1), next@))
                    =~= rows(words@).push(word@) + name_parts_from(rest.skip(1), next@));
            }
            words.push(word);
            current = next;
        } else if !separates && c.is_alphanumeric() {
            current.push(c);
        } else {
            if current.len() > 0 {
                let word = lowercase_chars(&current);
                proof {
                    assert(rows(words@.push(word)) =~= rows(words@).push(word@));
                    assert(rows(words@) + (seq![word@] + name_parts_from(
                        rest.skip(1),
                        Seq::empty(),
                    )) =~= rows(words@).push(word@) + name_parts_from(rest.skip(1), Seq::empty()));
                }
                words.push(word);
                current = Vec::new();
            } else {
                assert(current@ =~= Seq::<char>::empty());
                assert(Seq::<Seq<char>>::empty() + name_parts_from(rest.skip(1), Seq::empty())
                    =~= name_parts_from(rest.skip(1), Seq::empty()));
            }
        }
        i += 1;
    }
    if current.len() > 0 {
        let word = lowercase_chars(&current);
        proof {
            assert(rows(words@.push(word)) =~= rows(words@).push(word@));
            assert(rows(words@) + seq![word@] =~= rows(words@).push(word@));
        }
        words.push(word);
    } else {
        assert(rows(words@) + Seq::<Seq<char>>::empty() =~= rows(words@));
    }
    words
}

fn to_camel_case(s: &Vec<char>) -> (out: Vec<char>)
    ensures
        out@ == camel_case(s@),
{
    let mut words = split_into_words(s);
    if words.len() == 0 {
        return Vec::new();
    }
    let ghost parts = rows(words@);
    let first = words.remove(0);
    assert(rows(words@) =~= parts.skip(1));
    assert(first@ == parts[0]);
    let mut rest: Vec<Vec<char>> = Vec::new();
    let mut i: usize = 0;
    while i < words.len()
        invariant
            i <= words.len(),
            rest@.len() == i,
            forall|k: int| 0 <= k < i ==> (#[trigger] rest@[k])@ == capitalized(words@[k]@),
        decreases words.len() - i,
    {
        rest.push(capitalized_chars(&words[i]));
        i += 1;
    }
    assert(rows(rest@) =~= each(parts.skip(1), |w: Seq<char>| capitalized(w)));
    let nothing: Vec<char> = Vec::new();
    let tail = join_chars(&rest, &nothing);
    let mut out = first;
    append_chars(&mut out, &tail);
    out
}

fn to_snake_case(s: &Vec<char>) -> (out: Vec<char>)
    ensures
        out@ == snake_case(s@),
{
    join_chars(&split_into_words(s), &one_char('_'))
}

fn to_kebab_case(s: &Vec<char>) -> (out: Vec<char>)
    ensures
        out@ == kebab_case(s@),
{
    join_chars(&split_into_words(s), &one_char('-'))
}

fn bullet_chars() -> (mark: Vec<char>)
    ensures
        mark@ == bullet(),
{
    let mut mark: Vec<char> = Vec::new();
    mark.push('\u{2022}');
    mark.push(' ');
    assert(mark@ =~= bullet());
    mark
}

fn bulleted_chars(line: &Vec<char>) -> (out: Vec<char>)
    ensures
        out@ == bulleted(line@),
{
    let mark = bullet_chars();
    let blank = is_blank_chars(line);
    let from_text = trim_start_chars(line);
    if blank || matches_at(&from_text, &mark, 0) {
        copy_range(line, 0, line.len())
    } else {
        let mut out = mark;
        append_chars(&mut out, line);
        out
    }
}

fn apply_rule(rule: Rule, part: &Vec<char>) -> (out: Vec<char>)
    ensures
        out@ == ruled(rule, part@),
{
    match rule {
        Rule::Camel => to_camel_case(part),
        Rule::Snake => to_snake_case(part),
        Rule::Kebab => to_kebab_case(part),
        Rule::Trimmed => trim_chars(part),
        Rule::Bulleted => bulleted_chars(part),
    }
}

fn apply_each(rule: Rule, parts: &Vec<Vec<char>>) -> (out: Vec<Vec<char>>)
    ensures
        rows(out@) == each(rows(parts@), |l: Seq<char>| ruled(rule, l)),
{
    let mut out: Vec<Vec<char>> = Vec::new();
    let mut i: usize = 0;
    while i < parts.len()
        invariant
            i <= parts.len(),
            out@.len() == i,
            forall|k: int| 0 <= k < i ==> (#[trigger] out@[k])@ == ruled(rule, parts@[k]@),
        decreases parts.len() - i,
    {
        out.push(apply_rule(rule, &parts[i]));
        i += 1;
    }
    assert(rows(out@) =~= each(rows(parts@), |l: Seq<char>| ruled(rule, l)));
    out
}

fn keep_not_empty(parts: Vec<Vec<char>>) -> (kept: Vec<Vec<char>>)
    ensures
        rows(kept@) == not_empty(rows(parts@)),
{
    let mut kept: Vec<Vec<char>> = Vec::new();
    let mut i: usize = 0;
    while i < parts.len()
        invariant
            i <= parts.len(),
            rows(kept@) == not_empty(rows(parts@).take(i as int)),
        decreases parts.len() - i,
    {
        proof {
            assert(rows(parts@).take(i + 1).drop_last() =~= rows(parts@).take(i as int));
            assert(rows(parts@).take(i + 1).last() == parts@[i as int]@);
        }
        if parts[i].len() > 0 {
            let part = copy_range(&parts[i], 0, parts[i].len());
            assert(part@ =~= parts@[i as int]@);
            assert(rows(kept@.push(part)) =~= rows(kept@).push(part@));
            kept.push(part);
        }
        i += 1;
    }
    assert(rows(parts@).take(parts@.len() as int) =~= rows(parts@));
    kept
}

fn is_in_order(a: &Vec<char>, b: &Vec<char>) -> (ordered: bool)
    ensures
        ordered == in_order(a@, b@),
{
    let mut i: usize = 0;
    assert(a@.skip(0) =~= a@ && b@.skip(0) =~= b@);
    while i < a.len() && i < b.len()
        invariant
            i <= a.len(),
            i <= b.len(),
            in_order(a@, b@) == in_order(a@.skip(i as int), b@.skip(i as int)),
        decreases a.len() - i,
    {
        assert(a@.skip(i as int)[0] == a@[i as int] && b@.skip(i as int)[0] == b@[i as int]);
        assert(a@.skip(i as int).skip(1) =~= a@.skip(i + 1));
        assert(b@.skip(i as int).skip(1) =~= b@.skip(i + 1));
        if a[i] != b[i] {
            return a[i] < b[i];
        }
        i += 1;
    }
    i == a.len()
}

/// Where a line goes among sorted lines: behind the last line that it does
/// not come before.
pub proof fn inserted_at(sorted: Seq<Seq<char>>, line: Seq<char>, at: int)
    requires
        0 <= at <= sorted.len(),
        forall|k: int| at <= k < sorted.len() ==> !in_order(#[trigger] sorted[k], line),
        at > 0 ==> in_order(sorted[at - 1], line),
    ensures
        inserted(sorted, line) == sorted.insert(at, line),
    decreases sorted.len(),
{
    if sorted.len() == 0 {
        assert(sorted.insert(at, line) =~= seq![line]);
    } else if at == sorted.len() {
        assert(sorted.insert(at, line) =~= sorted.push(line));
    } else {
        let rest = sorted.drop_last();
        assert(!in_order(sorted[sorted.len() - 1], line));
        assert forall|k: int| at <= k < rest.len() implies !in_order(#[trigger] rest[k], line) by {
            assert(rest[k] == sorted[k]);
        }
        if at > 0 {
            assert(rest[at - 1] == sorted[at - 1]);
        }
        inserted_at(rest, line, at);
        assert(sorted.insert(at, line) =~= rest.insert(at, line).push(sorted.last()));
    }
}

fn insert_line(sorted: &mut Vec<Vec<char>>, line: Vec<char>)
    ensures
        rows(final(sorted)@) == inserted(rows(old(sorted)@), line@),
{
    let mut at: usize = sorted.len();
    while at > 0 && !is_in_order(&sorted[at - 1], &line)
        invariant
            at <= sorted.len(),
            sorted@ == old(sorted)@,
            forall|k: int| at <= k < sorted@.len() ==> !in_order(#[trigger] rows(sorted@)[k], line@),
        decreases at,
    {
        at -= 1;
    }
    proof {
        inserted_at(rows(sorted@), line@, at as int);
        assert(rows(sorted@.insert(at as int, line)) =~= rows(sorted@).insert(at as int, line@));
    }
    sorted.insert(at, line);
}

fn sort_lines(lines: &Vec<Vec<char>>) -> (sorted: Vec<Vec<char>>)
    ensures
        rows(sorted@) == sorted_lines(rows(lines@)),
{
    let mut sorted: Vec<Vec<char>> = Vec::new();
    let mut i: usize = 0;
    assert(rows(sorted@) =~= Seq::<Seq<char>>::empty());
    while i < lines.len()
        invariant
            i <= lines.len(),
            rows(sorted@) == sorted_lines(rows(lines@).take(i as int)),
        decreases lines.len() - i,
    {
        proof {
            assert(rows(lines@).take(i + 1).drop_last() =~= rows(lines@).take(i as int));
            assert(rows(lines@).take(i + 1).last() == lines@[i as int]@);
        }
        let line = copy_range(&lines[i], 0, lines[i].len());
        assert(line@ =~= lines@[i as int]@);
        insert_line(&mut sorted, line);
        i += 1;
    }
    assert(rows(lines@).take(lines@.len() as int) =~= rows(lines@));
    sorted
}

fn same_chars(a: &Vec<char>, b: &Vec<char>) -> (same: bool)
    ensures
        same == (a@ == b@),
{
    if a.len() != b.len() {
        return false;
    }
    let found = matches_at(a, b, 0);
    proof {
        assert(a@.subrange(0, b@.len() as int) =~= a@);
    }
    found
}

fn holds_line(lines: &Vec<Vec<char>>, line: &Vec<char>) -> (found: bool)
    ensures
        found == rows(lines@).contains(line@),
{
    let mut i: usize = 0;
    while i < lines.len()
        invariant
            i <= lines.len(),
            forall|k: int| 0 <= k < i ==> rows(lines@)[k] != line@,
        decreases lines.len() - i,
    {
        if same_chars(&lines[i], line) {
            assert(rows(lines@)[i as int] == line@);
            return true;
        }
        i += 1;
    }
    false
}

/// A line is among the first of each exactly if it is among the lines.
pub proof fn first_of_each_holds_the_same(lines: Seq<Seq<char>>, line: Seq<char>)
    ensures
        first_of_each(lines).contains(line) <==> lines.contains(line),
    decreases lines.len(),
{
    if lines.len() > 0 {
        let rest = lines.drop_last();
        let last = lines.last();
        first_of_each_holds_the_same(rest, line);
        first_of_each_holds_the_same(rest, last);
        if lines.contains(line) {
            let k = choose|k: int| 0 <= k < lines.len() && lines[k] == line;
            if k < rest.len() {
                assert(rest[k] == line);
            }
        }
        if rest.contains(line) {
            let k = choose|k: int| 0 <= k < rest.len() && rest[k] == line;
            assert(lines[k] == line);
        }
        if !rest.contains(last) {
            let kept = first_of_each(rest);
            assert(kept.push(last)[kept.len() as int] == last);
            if kept.contains(line) {
                let k = choose|k: int| 0 <= k < kept.len() && kept[k] == line;
                assert(kept.push(last)[k] == line);
            }
            if kept.push(last).contains(line) {
                let k = choose|k: int| 0 <= k < kept.push(last).len() && kept.push(last)[k] == line;
                if k < kept.len() {
                    assert(kept[k] == line);
                }
            }
        }
        assert(lines[lines.len() - 1] == last);
    }
}

fn remove_duplicates(lines: &Vec<Vec<char>>) -> (kept: Vec<Vec<char>>)
    ensures
        rows(kept@) == first_of_each(rows(lines@)),
{
    let mut kept: Vec<Vec<char>> = Vec::new();
    let mut i: usize = 0;
    assert(rows(kept@) =~= Seq::<Seq<char>>::empty());
    while i < lines.len()
        invariant
            i <= lines.len(),
            rows(kept@) == first_of_each(rows(lines@).take(i as int)),
        decreases lines.len() - i,
    {
        proof {
            assert(rows(lines@).take(i + 1).drop_last() =~= rows(lines@).take(i as int));
            assert(rows(lines@).take(i + 1).last() == lines@[i as int]@);
            first_of_each_holds_the_same(rows(lines@).take(i as int), lines@[i as int]@);
        }
        if !holds_line(&kept, &lines[i]) {
            let line = copy_range(&lines[i], 0, lines[i].len());
            assert(line@ =~= lines@[i as int]@);
            assert(rows(kept@.push(line)) =~= rows(kept@).push(line@));
            kept.push(line);
        }
        i += 1;
    }
    assert(rows(lines@).take(lines@.len() as int) =~= rows(lines@));
    kept
}

fn reverse_lines(lines: &Vec<Vec<char>>) -> (reversed: Vec<Vec<char>>)
    ensures
        rows(reversed@) == rows(lines@).reverse(),
{
    let mut reversed: Vec<Vec<char>> = Vec::new();
    let n = lines.len();
    let mut i: usize = 0;
    while i < n
        invariant
            i <= n,
            n == lines@.len(),
            reversed@.len() == i,
            forall|k: int| 0 <= k < i ==> (#[trigger] reversed@[k])@ == lines@[n - 1 - k]@,
        decreases n - i,
    {
        let line = copy_range(&lines[n - 1 - i], 0, lines[n - 1 - i].len());
        assert(line@ =~= lines@[n - 1 - i]@);
        reversed.push(line);
        i += 1;
    }
    assert(rows(reversed@) =~= rows(lines@).reverse());
    reversed
}

fn uppercase_chars(s: &str) -> (upper: Vec<char>)
    ensures
        upper@ == uppercase_of(s@),
{
    let upper = s.to_uppercase();
    chars_of(upper.as_str())
}

fn transform_chars(text: &str, transform: TextTransform) -> (out: Vec<char>)
    ensures
        out@ == transformed(text@, transform),
{
    let s = chars_of(text);
    let line_feed = one_char('\n');
    match transform {
        TextTransform::Uppercase => uppercase_chars(text),
        TextTransform::Lowercase => lowercase_chars(&s),
        TextTransform::TitleCase => to_title_case(&s),
        TextTransform::SentenceCase => to_sentence_case(&s),
        TextTransform::CamelCase => {
            let lines = apply_each(Rule::Camel, &lines_chars(&s));
            assert(each(lines_of(s@), |l: Seq<char>| ruled(Rule::Camel, l)) =~= each(
                lines_of(s@),
                |l: Seq<char>| camel_case(l),
            ));
            join_chars(&lines, &line_feed)
        },
        TextTransform::SnakeCase => {
            let lines = apply_each(Rule::Snake, &lines_chars(&s));
            assert(each(lines_of(s@), |l: Seq<char>| ruled(Rule::Snake, l)) =~= each(
                lines_of(s@),
                |l: Seq<char>| snake_case(l),
            ));
            join_chars(&lines, &line_feed)
        },
        TextTransform::KebabCase => {
            let lines = apply_each(Rule::Kebab, &lines_chars(&s));
            assert(each(lines_of(s@), |l: Seq<char>| ruled(Rule::Kebab, l)) =~= each(
                lines_of(s@),
                |l: Seq<char>| kebab_case(l),
            ));
            join_chars(&lines, &line_feed)
        },
        TextTransform::TrimWhitespace => {
            let lines = apply_each(Rule::Trimmed, &lines_chars(&s));
            assert(each(lines_of(s@), |l: Seq<char>| ruled(Rule::Trimmed, l)) =~= each(
                lines_of(s@),
                |l: Seq<char>| trimmed(l),
            ));
            join_chars(&keep_not_empty(lines), &line_feed)
        },
        TextTransform::SortLines => join_chars(&sort_lines(&lines_chars(&s)), &line_feed),
        TextTransform::RemoveDuplicateLines => join_chars(
            &remove_duplicates(&lines_chars(&s)),
            &line_feed,
        ),
        TextTransform::ReverseLines => join_chars(&reverse_lines(&lines_chars(&s)), &line_feed),
        TextTransform::BulletList => {
            if s.len() == 0 {
                bullet_chars()
            } else {
                let lines = apply_each(Rule::Bulleted, &lines_chars(&s));
                assert(each(lines_of(s@), |l: Seq<char>| ruled(Rule::Bulleted, l)) =~= each(
                    lines_of(s@),
                    |l: Seq<char>| bulleted(l),
                ));
                join_chars(&lines, &line_feed)
            }
        },
    }
}

/// What a transformation makes of a text.
pub fn transform_text(text: &str, transform: TextTransform) -> (out: String)
    ensures
        out@ == transformed(text@, transform),
{
    string_of(&transform_chars(text, transform))
}

/// Of two lines one comes before the other, or they are the same.
pub proof fn in_order_is_total(a: Seq<char>, b: Seq<char>)
    ensures
        in_order(a, b) || in_order(b, a),
        in_order(a, b) && in_order(b, a) ==> a == b,
    decreases a.len(),
{
    if a.len() > 0 && b.len() > 0 && a[0] == b[0] {
        in_order_is_total(a.skip(1), b.skip(1));
        if in_order(a, b) && in_order(b, a) {
            assert(a =~= seq![a[0]] + a.skip(1));
            assert(b =~= seq![b[0]] + b.skip(1));
        }
    } else if a.len() == 0 && b.len() == 0 {
        assert(a =~= b);
    } else if a.len() == 0 {
        assert(in_order(a, b));
    } else if b.len() == 0 {
        assert(in_order(b, a));
    } else {
        assert(a[0] < b[0] || b[0] < a[0]);
    }
}

/// Putting a line into sorted lines leaves them sorted, and adds that line
/// and no other.
pub proof fn inserted_keeps_order(sorted: Seq<Seq<char>>, line: Seq<char>)
    requires
        is_sorted(sorted),
    ensures
        is_sorted(inserted(sorted, line)),
        inserted(sorted, line).len() == sorted.len() + 1,
        inserted(sorted, line).to_multiset() == sorted.to_multiset().insert(line),
        inserted(sorted, line).last() == line || (sorted.len() > 0 && inserted(sorted, line).last()
            == sorted.last()),
    decreases sorted.len(),
{
    broadcast use vstd::seq_lib::to_multiset_build;

    let result = inserted(sorted, line);
    if sorted.len() == 0 {
        assert(sorted =~= Seq::<Seq<char>>::empty());
        assert(seq![line] =~= sorted.push(line));
        assert(result.to_multiset() == sorted.to_multiset().insert(line));
    } else if in_order(sorted.last(), line) {
        assert(result.to_multiset() == sorted.to_multiset().insert(line));
        assert forall|i: int| 0 <= i < result.len() - 1 implies in_order(
            #[trigger] result[i],
            result[i + 1],
        ) by {
            if i < sorted.len() - 1 {
                assert(in_order(sorted[i], sorted[i + 1]));
            }
        }
    } else {
        let rest = sorted.drop_last();
        let last = sorted.last();
        assert forall|i: int| 0 <= i < rest.len() - 1 implies in_order(
            #[trigger] rest[i],
            rest[i + 1],
        ) by {
            assert(in_order(sorted[i], sorted[i + 1]));
        }
        inserted_keeps_order(rest, line);
        let inner = inserted(rest, line);
        in_order_is_total(last, line);
        assert forall|i: int| 0 <= i < result.len() - 1 implies in_order(
            #[trigger] result[i],
            result[i + 1],
        ) by {
            if i < inner.len() - 1 {
                assert(in_order(inner[i], inner[i + 1]));
            } else {
                if inner.last() != line {
                    assert(in_order(sorted[sorted.len() - 2], sorted[sorted.len() - 1]));
                }
            }
        }
        assert(sorted =~= rest.push(last));
        assert(result == inner.push(last));
        assert(result.to_multiset() =~= inner.to_multiset().insert(last));
        assert(sorted.to_multiset() =~= rest.to_multiset().insert(last));
        assert(rest.to_multiset().insert(line).insert(last) =~= rest.to_multiset().insert(
            last,
        ).insert(line));
    }
}

/// Sorting puts the lines in order and neither adds nor drops one.
pub proof fn sorted_lines_are_a_sorted_rearrangement(lines: Seq<Seq<char>>)
    ensures
        is_sorted(sorted_lines(lines)),
        sorted_lines(lines).len() == lines.len(),
        sorted_lines(lines).to_multiset() == lines.to_multiset(),
    decreases lines.len(),
{
    broadcast use vstd::seq_lib::to_multiset_build;

    if lines.len() > 0 {
        sorted_lines_are_a_sorted_rearrangement(lines.drop_last());
        inserted_keeps_order(sorted_lines(lines.drop_last()), lines.last());
        assert(lines =~= lines.drop_last().push(lines.last()));
    } else {
        assert(lines =~= Seq::<Seq<char>>::empty());
    }
}

/// After duplicates are removed no line occurs twice.
pub proof fn first_of_each_has_no_duplicates(lines: Seq<Seq<char>>)
    ensures
        forall|i: int, j: int|
            0 <= i < j < first_of_each(lines).len() ==> first_of_each(lines)[i] != first_of_each(
                lines,
            )[j],
    decreases lines.len(),
{
    if lines.len() > 0 {
        let rest = lines.drop_last();
        first_of_each_has_no_duplicates(rest);
        first_of_each_holds_the_same(rest, lines.last());
        let kept = first_of_each(rest);
        if !rest.contains(lines.last()) {
            assert forall|i: int, j: int| 0 <= i < j < kept.len() + 1 implies kept.push(
                lines.last(),
            )[i] != kept.push(lines.last())[j] by {
                if j == kept.len() {
                    if kept[i] == lines.last() {
                        assert(kept.contains(lines.last()));
                    }
                }
            }
        }
    }
}

/// The transformation that a name stands for.
pub open spec fn transform_named(name: Seq<char>) -> Option<TextTransform> {
    if name == "uppercase"@ {
        Some(TextTransform::Uppercase)
    } else if name == "lowercase"@ {
        Some(TextTransform::Lowercase)
    } else if name == "titlecase"@ {
        Some(TextTransform::TitleCase)
    } else if name == "sentencecase"@ {
        Some(TextTransform::SentenceCase)
    } else if name == "camelcase"@ {
        Some(TextTransform::CamelCase)
    } else if name == "snakecase"@ {
        Some(TextTransform::SnakeCase)
    } else if name == "kebabcase"@ {
        Some(TextTransform::KebabCase)
    } else if name == "trim"@ {
        Some(TextTransform::TrimWhitespace)
    } else if name == "sort"@ {
        Some(TextTransform::SortLines)
    } else if name == "deduplicate"@ {
        Some(TextTransform::RemoveDuplicateLines)
    } else if name == "reverse"@ {
        Some(TextTransform::ReverseLines)
    } else if name == "bulletlist"@ {
        Some(TextTransform::BulletList)
    } else {
        None
    }
}

/// The transformation that a name stands for.
pub fn transform_from_name(name: &str) -> (transform: Option<TextTransform>)
    ensures
        transform == transform_named(name@),
{
    if str_equals(name, "uppercase") {
        Some(TextTransform::Uppercase)
    } else if str_equals(name, "lowercase") {
        Some(TextTransform::Lowercase)
    } else if str_equals(name, "titlecase") {
        Some(TextTransform::TitleCase)
    } else if str_equals(name, "sentencecase") {
        Some(TextTransform::SentenceCase)
    } else if str_equals(name, "camelcase") {
        Some(TextTransform::CamelCase)
    } else if str_equals(name, "snakecase") {
        Some(TextTransform::SnakeCase)
    } else if str_equals(name, "kebabcase") {
        Some(TextTransform::KebabCase)
    } else if str_equals(name, "trim") {
        Some(TextTransform::TrimWhitespace)
    } else if str_equals(name, "sort") {
        Some(TextTransform::SortLines)
    } else if str_equals(name, "deduplicate") {
        Some(TextTransform::RemoveDuplicateLines)
    } else if str_equals(name, "reverse") {
        Some(TextTransform::ReverseLines)
    } else if str_equals(name, "bulletlist") {
        Some(TextTransform::BulletList)
    } else {
        None
    }
}

/// What the transformation of the given name makes of a text. A name that
/// stands for no transformation is an error.
pub fn transform_text_cmd(text: &str, transform: &str) -> (out: Result<String, String>)
    ensures
        match out {
            Ok(changed) => transform_named(transform@) matches Some(t) && changed@ == transformed(
                text@,
                t,
            ),
            Err(reason) => transform_named(transform@) is None && reason@ == "Unknown transform: "@
                + transform@,
        },
{
    match transform_from_name(transform) {
        Some(t) => Ok(transform_text(text, t)),
        None => Err(String::from_str("Unknown transform: ").concat(transform)),
    }
}

} // verus!
