//! Filler text.

use vstd::prelude::*;
use crate::clipboard::{capitalized, each};
use crate::strings::{chars_of, str_equals, string_of};
use crate::text::{append_chars, copy_range, join, join_chars, rows};
use crate::unicode::upper_chars;

verus! {

/// The words that filler text is made of.
#[verifier::opaque]
pub open spec fn lorem_words() -> Seq<Seq<char>> {
    seq![
        "lorem"@, "ipsum"@, "dolor"@, "sit"@, "amet"@, "consectetur"@, "adipiscing"@, "elit"@,
        "sed"@, "do"@, "eiusmod"@, "tempor"@, "incididunt"@, "ut"@, "labore"@, "et"@,
        "dolore"@, "magna"@, "aliqua"@, "enim"@, "ad"@, "minim"@, "veniam"@, "quis"@,
        "nostrud"@, "exercitation"@, "ullamco"@, "laboris"@, "nisi"@, "aliquip"@, "ex"@, "ea"@,
        "commodo"@, "consequat"@, "duis"@, "aute"@, "irure"@, "in"@, "reprehenderit"@,
        "voluptate"@, "velit"@, "esse"@, "cillum"@, "fugiat"@, "nulla"@, "pariatur"@,
        "excepteur"@, "sint"@, "occaecat"@, "cupidatat"@, "non"@, "proident"@, "sunt"@,
        "culpa"@, "qui"@, "officia"@, "deserunt"@, "mollit"@, "anim"@, "id"@, "est"@,
        "laborum"@, "at"@, "vero"@, "eos"@, "accusamus"@, "iusto"@, "odio"@, "dignissimos"@,
        "ducimus"@, "blanditiis"@, "praesentium"@, "voluptatum"@, "deleniti"@, "atque"@,
        "corrupti"@, "quos"@, "dolores"@, "quas"@, "molestias"@, "excepturi"@, "obcaecati"@,
        "cupiditate"@, "provident"@,
    ]
}

/// The number that follows `state` in the sequence of draws.
pub open spec fn next_state(state: u64) -> u64 {
    state.wrapping_mul(1103515245).wrapping_add(12345)
}

/// The word that a draw stands for.
pub open spec fn drawn_word(draw: u64) -> Seq<char> {
    lorem_words()[(draw % 84) as int]
}

/// `n` words drawn one after the other, beginning with the draw after
/// `state`, and the last draw.
pub open spec fn draw_words(state: u64, n: nat) -> (Seq<Seq<char>>, u64)
    decreases n,
{
    if n == 0 {
        (Seq::empty(), state)
    } else {
        let before = draw_words(state, (n - 1) as nat);
        let draw = next_state(before.1);
        (before.0.push(drawn_word(draw)), draw)
    }
}

/// A sentence and the last draw that it took: one draw decides on eight to
/// nineteen words, each word takes one more, the first word begins in upper
/// case, and a full stop ends the sentence.
pub open spec fn draw_sentence(state: u64) -> (Seq<char>, u64) {
    let first = next_state(state);
    let words = draw_words(first, (8 + first % 12) as nat);
    (join(words.0.update(0, capitalized(words.0[0])), seq![' ']) + seq!['.'], words.1)
}

/// `n` sentences drawn one after the other, and the last draw.
pub open spec fn draw_sentences(state: u64, n: nat) -> (Seq<Seq<char>>, u64)
    decreases n,
{
    if n == 0 {
        (Seq::empty(), state)
    } else {
        let before = draw_sentences(state, (n - 1) as nat);
        let sentence = draw_sentence(before.1);
        (before.0.push(sentence.0), sentence.1)
    }
}

/// A paragraph and the last draw that it took: one draw decides on four to
/// seven sentences, which stand with one space between.
pub open spec fn draw_paragraph(state: u64) -> (Seq<char>, u64) {
    let first = next_state(state);
    let sentences = draw_sentences(first, (4 + first % 4) as nat);
    (join(sentences.0, seq![' ']), sentences.1)
}

/// `n` paragraphs drawn one after the other, and the last draw.
pub open spec fn draw_paragraphs(state: u64, n: nat) -> (Seq<Seq<char>>, u64)
    decreases n,
{
    if n == 0 {
        (Seq::empty(), state)
    } else {
        let before = draw_paragraphs(state, (n - 1) as nat);
        let paragraph = draw_paragraph(before.1);
        (before.0.push(paragraph.0), paragraph.1)
    }
}

/// A paragraph as an element of HTML.
pub open spec fn html_paragraph(text: Seq<char>) -> Seq<char> {
    "<p>"@ + text + "</p>"@
}

/// Filler text of `paragraphs` paragraphs drawn from `seed`, with an empty
/// line between paragraphs; as HTML each paragraph is an element.
pub open spec fn lorem_ipsum(paragraphs: u32, format: Seq<char>, seed: u64) -> Seq<char> {
    let drawn = draw_paragraphs(seed, paragraphs as nat).0;
    if format == "html"@ {
        join(each(drawn, |p: Seq<char>| html_paragraph(p)), seq!['\n', '\n'])
    } else {
        join(drawn, seq!['\n', '\n'])
    }
}

fn word_list() -> (words: Vec<Vec<char>>)
    ensures
        rows(words@) == lorem_words(),
        words@.len() == 84,
{
    let names: Vec<&'static str> = vec![
        "lorem", "ipsum", "dolor", "sit", "amet", "consectetur", "adipiscing", "elit", "sed",
        "do", "eiusmod", "tempor", "incididunt", "ut", "labore", "et", "dolore", "magna",
        "aliqua", "enim", "ad", "minim", "veniam", "quis", "nostrud", "exercitation",
        "ullamco", "laboris", "nisi", "aliquip", "ex", "ea", "commodo", "consequat", "duis",
        "aute", "irure", "in", "reprehenderit", "voluptate", "velit", "esse", "cillum",
        "fugiat", "nulla", "pariatur", "excepteur", "sint", "occaecat", "cupidatat", "non",
        "proident", "sunt", "culpa", "qui", "officia", "deserunt", "mollit", "anim", "id",
        "est", "laborum", "at", "vero", "eos", "accusamus", "iusto", "odio", "dignissimos",
        "ducimus", "blanditiis", "praesentium", "voluptatum", "deleniti", "atque", "corrupti",
        "quos", "dolores", "quas", "molestias", "excepturi", "obcaecati", "cupiditate",
        "provident",
    ];
    let mut words: Vec<Vec<char>> = Vec::new();
    let mut i: usize = 0;
    while i < names.len()
        invariant
            i <= names.len(),
            words@.len() == i,
            forall|k: int| 0 <= k < i ==> (#[trigger] words@[k])@ == names@[k]@,
        decreases names.len() - i,
    {
        words.push(chars_of(names[i]));
        i += 1;
    }
    proof {
        reveal(lorem_words);
        assert(rows(words@) =~= lorem_words());
    }
    words
}

fn next(state: u64) -> (draw: u64)
    ensures
        draw == next_state(state),
{
    state.wrapping_mul(1103515245).wrapping_add(12345)
}

fn sentence(words: &Vec<Vec<char>>, state: u64) -> (drawn: (Vec<char>, u64))
    requires
        rows(words@) == lorem_words(),
        words@.len() == 84,
    ensures
        drawn.0@ == draw_sentence(state).0,
        drawn.1 == draw_sentence(state).1,
{
    let first = next(state);
    let count: u64 = 8 + first % 12;
    let mut picked: Vec<Vec<char>> = Vec::new();
    let mut current = first;
    let mut i: u64 = 0;
    assert(rows(picked@) =~= draw_words(first, 0).0);
    while i < count
        invariant
            i <= count,
            count == 8 + first % 12,
            rows(words@) == lorem_words(),
            words@.len() == 84,
            picked@.len() == i,
            rows(picked@) == draw_words(first, i as nat).0,
            current == draw_words(first, i as nat).1,
        decreases count - i,
    {
        current = next(current);
        let at = (current % 84) as usize;
        let word = copy_range(&words[at], 0, words[at].len());
        proof {
            assert(rows(words@)[at as int] == drawn_word(current));
            assert(word@ =~= drawn_word(current));
            assert(rows(picked@.push(word)) =~= rows(picked@).push(word@));
        }
        picked.push(word);
        i += 1;
    }
    let ghost exact = draw_words(first, count as nat).0;
    let capital = capitalize(&picked[0]);
    picked[0] = capital;
    assert(rows(picked@) =~= exact.update(0, capitalized(exact[0])));
    let mut space: Vec<char> = Vec::new();
    space.push(' ');
    assert(space@ =~= seq![' ']);
    let mut text = join_chars(&picked, &space);
    text.push('.');
    assert(text@ =~= draw_sentence(state).0);
    (text, current)
}

fn paragraph(words: &Vec<Vec<char>>, state: u64) -> (drawn: (Vec<char>, u64))
    requires
        rows(words@) == lorem_words(),
        words@.len() == 84,
    ensures
        drawn.0@ == draw_paragraph(state).0,
        drawn.1 == draw_paragraph(state).1,
{
    let first = next(state);
    let count: u64 = 4 + first % 4;
    let mut sentences: Vec<Vec<char>> = Vec::new();
    let mut current = first;
    let mut i: u64 = 0;
    assert(rows(sentences@) =~= draw_sentences(first, 0).0);
    while i < count
        invariant
            i <= count,
            rows(words@) == lorem_words(),
            words@.len() == 84,
            rows(sentences@) == draw_sentences(first, i as nat).0,
            current == draw_sentences(first, i as nat).1,
        decreases count - i,
    {
        let (text, after) = sentence(words, current);
        proof {
            assert(rows(sentences@.push(text)) =~= rows(sentences@).push(text@));
        }
        sentences.push(text);
        current = after;
        i += 1;
    }
    let mut space: Vec<char> = Vec::new();
    space.push(' ');
    assert(space@ =~= seq![' ']);
    (join_chars(&sentences, &space), current)
}

/// Filler text of `paragraphs` paragraphs drawn from `seed`. The format
/// `html` makes each paragraph an element; any other leaves plain text.
pub fn generate_lorem_ipsum(paragraphs: u32, format: &str, seed: u64) -> (text: String)
    ensures
        text@ == lorem_ipsum(paragraphs, format@, seed),
{
    let words = word_list();
    let as_html = str_equals(format, "html");
    let mut drawn: Vec<Vec<char>> = Vec::new();
    let mut current = seed;
    let mut i: u32 = 0;
    assert(rows(drawn@) =~= draw_paragraphs(seed, 0).0);
    assert(rows(drawn@) =~= each(draw_paragraphs(seed, 0).0, |p: Seq<char>| html_paragraph(p)));
    while i < paragraphs
        invariant
            i <= paragraphs,
            rows(words@) == lorem_words(),
            words@.len() == 84,
            drawn@.len() == i,
            !as_html ==> rows(drawn@) == draw_paragraphs(seed, i as nat).0,
            as_html ==> rows(drawn@) == each(
                draw_paragraphs(seed, i as nat).0,
                |p: Seq<char>| html_paragraph(p),
            ),
            current == draw_paragraphs(seed, i as nat).1,
        decreases paragraphs - i,
    {
        let (text, after) = paragraph(&words, current);
        let item = if as_html {
            let mut element = chars_of("<p>");
            append_chars(&mut element, &text);
            append_chars(&mut element, &chars_of("</p>"));
            element
        } else {
            text
        };
        proof {
            let before = draw_paragraphs(seed, i as nat).0;
            let exact = draw_paragraphs(seed, (i + 1) as nat).0;
            assert(exact == before.push(draw_paragraph(current).0));
            assert(rows(drawn@.push(item)) =~= rows(drawn@).push(item@));
            if as_html {
                assert(item@ =~= html_paragraph(draw_paragraph(current).0));
                assert(rows(drawn@).push(item@) =~= each(exact, |p: Seq<char>| html_paragraph(p)));
            }
        }
        drawn.push(item);
        current = after;
        i += 1;
    }
    let mut blank_line: Vec<char> = Vec::new();
    blank_line.push('\n');
    blank_line.push('\n');
    assert(blank_line@ =~= seq!['\n', '\n']);
    string_of(&join_chars(&drawn, &blank_line))
}

fn capitalize(word: &Vec<char>) -> (out: Vec<char>)
    ensures
        out@ == capitalized(word@),
{
    if word.len() == 0 {
        return Vec::new();
    }
    let mut out = upper_chars(word[0]);
    let rest = copy_range(word, 1, word.len());
    assert(rest@ =~= word@.skip(1));
    append_chars(&mut out, &rest);
    out
}

} // verus!
