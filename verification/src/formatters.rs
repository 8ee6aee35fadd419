//! Formatting and minifying source text.
//!
//! Formatting proper is the work of outside programs. This module says which
//! program is to be run on what, and what becomes of its answer; comments
//! are removed and whitespace is collapsed here.

use vstd::prelude::*;
use vstd::string::StringExecFns;
use crate::strings::{chars_of, contains_text, str_contains, string_of};
use crate::text::{
    white_space, join, join_chars, lines_chars, lines_of, rows, trim_chars, trimmed,
};

verus! {

/// What is done with the text that a formatter returned.
#[derive(Debug, Clone, Copy, PartialEq, Eq, Structural)]
pub enum AfterFormat {
    /// It is the result as it stands.
    Keep,
    /// Whitespace outside string literals is collapsed, as for scripts.
    CollapseScript,
    /// Whitespace between tags is collapsed, as for markup.
    CollapseMarkup,
    /// Each line is trimmed and the lines are joined, as for style sheets.
    JoinLines,
}

/// What is returned where the formatter fails.
#[derive(Debug, Clone)]
pub enum OnFailure {
    /// The formatter's own error.
    Report,
    /// This text, as a success.
    ReturnOriginal(String),
    /// This explanation, as an error.
    Explain(String),
}

/// The mathematical content of an [`OnFailure`].
pub enum OnFailureView {
    Report,
    ReturnOriginal(Seq<char>),
    Explain(Seq<char>),
}

impl View for OnFailure {
    type V = OnFailureView;

    open spec fn view(&self) -> OnFailureView {
        match self {
            OnFailure::Report => OnFailureView::Report,
            OnFailure::ReturnOriginal(text) => OnFailureView::ReturnOriginal(text@),
            OnFailure::Explain(text) => OnFailureView::Explain(text@),
        }
    }
}

/// A formatter to be run: the program, its arguments, the text for its
/// standard input, and what becomes of its answer.
#[derive(Debug, Clone)]
pub struct FormatterPlan {
    pub formatter: String,
    pub args: Vec<String>,
    pub input: String,
    pub after: AfterFormat,
    pub on_failure: OnFailure,
}

/// The mathematical content of a [`FormatterPlan`].
pub struct FormatterPlanView {
    pub formatter: Seq<char>,
    pub args: Seq<Seq<char>>,
    pub input: Seq<char>,
    pub after: AfterFormat,
    pub on_failure: OnFailureView,
}

impl View for FormatterPlan {
    type V = FormatterPlanView;

    open spec fn view(&self) -> FormatterPlanView {
        FormatterPlanView {
            formatter: self.formatter@,
            args: self.args.deep_view(),
            input: self.input@,
            after: self.after,
            on_failure: self.on_failure@,
        }
    }
}

/// Where the scan of a script stands.
#[derive(Debug, Clone, Copy, PartialEq, Eq, Structural)]
pub enum ScriptMode {
    /// In code.
    Code,
    /// In a string literal that the given quote opened.
    Text(char),
    /// In a comment that runs to the end of the line.
    LineComment,
    /// In a comment between `/*` and `*/`.
    BlockComment,
}

/// Whether a character opens or closes a string literal.
pub open spec fn is_quote(c: char) -> bool {
    c == '"' || c == '\'' || c == '`'
}

/// A script without its comments, scanned from `mode` on.
///
/// String literals are kept as they are, a backslash in one taking the next
/// character with it. A line comment goes up to its line feed, which stays.
/// A block comment becomes one space. Where a block comment is not closed,
/// the last character of the text is read as code.
pub open spec fn strip_script_from(s: Seq<char>, mode: ScriptMode) -> Seq<char>
    decreases s.len(),
{
    if s.len() == 0 {
        Seq::empty()
    } else {
        match mode {
            ScriptMode::Text(quote) => {
                if s[0] == '\\' && s.len() >= 2 {
                    seq![s[0], s[1]] + strip_script_from(s.skip(2), mode)
                } else if s[0] == quote {
                    seq![s[0]] + strip_script_from(s.skip(1), ScriptMode::Code)
                } else {
                    seq![s[0]] + strip_script_from(s.skip(1), mode)
                }
            },
            ScriptMode::LineComment => {
                if s[0] == '\n' {
                    seq!['\n'] + strip_script_from(s.skip(1), ScriptMode::Code)
                } else {
                    strip_script_from(s.skip(1), mode)
                }
            },
            ScriptMode::BlockComment if s.len() >= 2 => {
                if s[0] == '*' && s[1] == '/' {
                    strip_script_from(s.skip(2), ScriptMode::Code)
                } else {
                    strip_script_from(s.skip(1), mode)
                }
            },
            _ => {
                if is_quote(s[0]) {
                    seq![s[0]] + strip_script_from(s.skip(1), ScriptMode::Text(s[0]))
                } else if s[0] == '/' && s.len() >= 2 && s[1] == '/' {
                    strip_script_from(s.skip(2), ScriptMode::LineComment)
                } else if s[0] == '/' && s.len() >= 2 && s[1] == '*' {
                    seq![' '] + strip_script_from(s.skip(2), ScriptMode::BlockComment)
                } else {
                    seq![s[0]] + strip_script_from(s.skip(1), ScriptMode::Code)
                }
            },
        }
    }
}

/// A script without its comments.
pub open spec fn strip_script_comments(s: Seq<char>) -> Seq<char> {
    strip_script_from(s, ScriptMode::Code)
}

/// A style sheet without its comments, scanned from inside a comment or
/// from outside one. A comment becomes one space. Where a comment is not
/// closed, the last character of the text is kept.
pub open spec fn strip_style_from(s: Seq<char>, in_comment: bool) -> Seq<char>
    decreases s.len(),
{
    if s.len() == 0 {
        Seq::empty()
    } else if in_comment && s.len() >= 2 {
        if s[0] == '*' && s[1] == '/' {
            strip_style_from(s.skip(2), false)
        } else {
            strip_style_from(s.skip(1), true)
        }
    } else if s[0] == '/' && s.len() >= 2 && s[1] == '*' {
        seq![' '] + strip_style_from(s.skip(2), true)
    } else {
        seq![s[0]] + strip_style_from(s.skip(1), false)
    }
}

/// A style sheet without its comments.
pub open spec fn strip_style_comments(s: Seq<char>) -> Seq<char> {
    strip_style_from(s, false)
}

/// Whether `s` begins with `<!--`.
pub open spec fn opens_comment(s: Seq<char>) -> bool {
    s.len() >= 4 && s[0] == '<' && s[1] == '!' && s[2] == '-' && s[3] == '-'
}

/// Whether `s` begins with `-->`.
pub open spec fn closes_comment(s: Seq<char>) -> bool {
    s.len() >= 3 && s[0] == '-' && s[1] == '-' && s[2] == '>'
}

/// Markup without its comments, scanned from inside a comment or from
/// outside one. A comment leaves nothing. Where a comment is not closed, the
/// last two characters of the text are kept.
pub open spec fn strip_markup_from(s: Seq<char>, in_comment: bool) -> Seq<char>
    decreases s.len(),
{
    if s.len() == 0 {
        Seq::empty()
    } else if in_comment && s.len() >= 3 {
        if closes_comment(s) {
            strip_markup_from(s.skip(3), false)
        } else {
            strip_markup_from(s.skip(1), true)
        }
    } else if opens_comment(s) {
        strip_markup_from(s.skip(4), true)
    } else {
        seq![s[0]] + strip_markup_from(s.skip(1), false)
    }
}

/// Markup without its comments.
pub open spec fn strip_markup_comments(s: Seq<char>) -> Seq<char> {
    strip_markup_from(s, false)
}

/// A script with each run of whitespace outside string literals collapsed
/// into one space, scanned from a given state: whether inside a literal,
/// which quote opened it, and whether a space was written last.
pub open spec fn collapse_script_from(s: Seq<char>, in_text: bool, quote: char, spaced: bool)
    -> Seq<char>
    decreases s.len(),
{
    if s.len() == 0 {
        Seq::empty()
    } else if is_quote(s[0]) {
        if !in_text {
            seq![s[0]] + collapse_script_from(s.skip(1), true, s[0], false)
        } else if s[0] == quote {
            seq![s[0]] + collapse_script_from(s.skip(1), false, quote, false)
        } else {
            seq![s[0]] + collapse_script_from(s.skip(1), true, quote, false)
        }
    } else if in_text {
        seq![s[0]] + collapse_script_from(s.skip(1), true, quote, false)
    } else if white_space(s[0]) {
        if spaced {
            collapse_script_from(s.skip(1), false, quote, true)
        } else {
            seq![' '] + collapse_script_from(s.skip(1), false, quote, true)
        }
    } else {
        seq![s[0]] + collapse_script_from(s.skip(1), false, quote, false)
    }
}

/// A script on one line: whitespace outside string literals collapsed, and
/// none at either end.
pub open spec fn collapse_script(s: Seq<char>) -> Seq<char> {
    trimmed(collapse_script_from(s, false, ' ', false))
}

/// Markup with each run of whitespace between tags collapsed into one space,
/// scanned from a given state: whether inside a tag, and whether a space was
/// written last. Inside a tag everything is kept.
pub open spec fn collapse_markup_from(s: Seq<char>, in_tag: bool, spaced: bool) -> Seq<char>
    decreases s.len(),
{
    if s.len() == 0 {
        Seq::empty()
    } else if s[0] == '<' {
        seq![s[0]] + collapse_markup_from(s.skip(1), true, false)
    } else if s[0] == '>' {
        seq![s[0]] + collapse_markup_from(s.skip(1), false, false)
    } else if in_tag {
        seq![s[0]] + collapse_markup_from(s.skip(1), true, spaced)
    } else if white_space(s[0]) {
        if spaced {
            collapse_markup_from(s.skip(1), false, true)
        } else {
            seq![' '] + collapse_markup_from(s.skip(1), false, true)
        }
    } else {
        seq![s[0]] + collapse_markup_from(s.skip(1), false, false)
    }
}

/// Markup on one line: whitespace between tags collapsed, and none at either
/// end.
pub open spec fn collapse_markup(s: Seq<char>) -> Seq<char> {
    trimmed(collapse_markup_from(s, false, false))
}

/// Each of the lines without the whitespace around it.
pub open spec fn trimmed_each(lines: Seq<Seq<char>>) -> Seq<Seq<char>> {
    Seq::new(lines.len(), |i: int| trimmed(lines[i]))
}

/// A style sheet on one line: its lines trimmed and put together.
pub open spec fn join_trimmed_lines(s: Seq<char>) -> Seq<char> {
    join(trimmed_each(lines_of(s)), Seq::empty())
}

/// XML without comments and without whitespace between tags, scanned from a
/// given state: whether inside a tag, and whether inside a comment.
///
/// `<!--` opens a comment wherever it stands, and `-->` closes one. Outside
/// comments a tag is kept as it is, and between tags everything but
/// whitespace.
pub open spec fn minify_xml_from(s: Seq<char>, in_tag: bool, in_comment: bool) -> Seq<char>
    decreases s.len(),
{
    if s.len() == 0 {
        Seq::empty()
    } else if opens_comment(s) {
        minify_xml_from(s.skip(4), in_tag, true)
    } else if in_comment && closes_comment(s) {
        minify_xml_from(s.skip(3), in_tag, false)
    } else if in_comment {
        minify_xml_from(s.skip(1), in_tag, true)
    } else if s[0] == '<' {
        seq![s[0]] + minify_xml_from(s.skip(1), true, false)
    } else if s[0] == '>' {
        seq![s[0]] + minify_xml_from(s.skip(1), false, false)
    } else if in_tag || !white_space(s[0]) {
        seq![s[0]] + minify_xml_from(s.skip(1), in_tag, false)
    } else {
        minify_xml_from(s.skip(1), in_tag, false)
    }
}

/// XML without comments and without whitespace between tags.
pub open spec fn minified_xml(s: Seq<char>) -> Seq<char> {
    minify_xml_from(s, false, false)
}

/// Whether the text of a component looks like TypeScript: it holds a type
/// annotation and one of the words or generic types that only TypeScript
/// has.
pub open spec fn looks_like_typescript(text: Seq<char>) -> bool {
    contains_text(text, ": "@) && (contains_text(text, "interface "@) || contains_text(
        text,
        "type "@,
    ) || contains_text(text, "enum "@) || contains_text(text, "<FC<"@) || contains_text(
        text,
        "React.FC<"@,
    ) || contains_text(text, "React.Component<"@) || contains_text(text, "FunctionComponent<"@)
        || contains_text(text, ": FC<"@))
}

/// The parser for a component.
pub open spec fn component_parser(text: Seq<char>) -> Seq<char> {
    if looks_like_typescript(text) {
        "typescript"@
    } else {
        "babel"@
    }
}

/// The arguments that format with the given parser: a line width of 100 and
/// one further option.
pub open spec fn format_args(parser: Seq<char>, option: Seq<char>, value: Seq<char>) -> Seq<
    Seq<char>,
> {
    seq!["--parser"@, parser, "--print-width"@, "100"@, option, value]
}

/// The arguments that put everything on as few lines as the parser allows.
pub open spec fn minify_args(parser: Seq<char>) -> Seq<Seq<char>> {
    seq!["--parser"@, parser, "--print-width"@, "99999"@]
}

/// A run of Prettier whose answer is the result and whose error is reported.
pub open spec fn format_plan(text: Seq<char>, parser: Seq<char>, option: Seq<char>, value: Seq<char>)
    -> FormatterPlanView {
    FormatterPlanView {
        formatter: "prettier"@,
        args: format_args(parser, option, value),
        input: text,
        after: AfterFormat::Keep,
        on_failure: OnFailureView::Report,
    }
}

/// A run of Prettier that needs a plug-in, and says so where it fails.
pub open spec fn plugin_plan(text: Seq<char>, parser: Seq<char>, advice: Seq<char>)
    -> FormatterPlanView {
    FormatterPlanView {
        formatter: "prettier"@,
        args: format_args(parser, "--tab-width"@, "4"@),
        input: text,
        after: AfterFormat::Keep,
        on_failure: OnFailureView::Explain(advice),
    }
}

/// A run of Prettier on text without comments, whose answer is collapsed;
/// where it fails the original text is the result.
pub open spec fn minify_plan(
    text: Seq<char>,
    stripped: Seq<char>,
    parser: Seq<char>,
    after: AfterFormat,
) -> FormatterPlanView {
    FormatterPlanView {
        formatter: "prettier"@,
        args: minify_args(parser),
        input: stripped,
        after,
        on_failure: OnFailureView::ReturnOriginal(text),
    }
}

/// What becomes of a formatter's output.
pub open spec fn processed(after: AfterFormat, output: Seq<char>) -> Seq<char> {
    match after {
        AfterFormat::Keep => output,
        AfterFormat::CollapseScript => collapse_script(output),
        AfterFormat::CollapseMarkup => collapse_markup(output),
        AfterFormat::JoinLines => join_trimmed_lines(output),
    }
}

/// The result of a plan, given how the run of its formatter went.
pub open spec fn finished(plan: FormatterPlanView, run: Result<Seq<char>, Seq<char>>) -> Result<
    Seq<char>,
    Seq<char>,
> {
    match run {
        Ok(output) => Ok(processed(plan.after, output)),
        Err(reason) => match plan.on_failure {
            OnFailureView::Report => Err(reason),
            OnFailureView::ReturnOriginal(text) => Ok(text),
            OnFailureView::Explain(advice) => Err(advice),
        },
    }
}

/// The content of a result of text.
pub open spec fn text_result_view(r: Result<String, String>) -> Result<Seq<char>, Seq<char>> {
    match r {
        Ok(text) => Ok(text@),
        Err(reason) => Err(reason@),
    }
}

fn is_quote_char(c: char) -> (quote: bool)
    ensures
        quote == is_quote(c),
{
    c == '"' || c == '\'' || c == '`'
}

/// A script without its comments.
pub fn remove_js_comments(text: &str) -> (stripped: String)
    ensures
        stripped@ == strip_script_comments(text@),
{
    let s = chars_of(text);
    let n = s.len();
    let mut out: Vec<char> = Vec::new();
    let mut mode = ScriptMode::Code;
    let mut i: usize = 0;
    assert(s@.skip(0) =~= s@);
    while i < n
        invariant
            i <= n,
            n == s@.len(),
            strip_script_comments(s@) == out@ + strip_script_from(s@.skip(i as int), mode),
        decreases n - i,
    {
        let ghost rest = s@.skip(i as int);
        let ghost before = out@;
        assert(rest.len() == n - i && rest[0] == s@[i as int]);
        assert(rest.skip(1) =~= s@.skip(i + 1));
        let ch = s[i];
        let has_next = n - i >= 2;
        if has_next {
            assert(rest[1] == s@[i + 1]);
            assert(rest.skip(2) =~= s@.skip(i + 2));
        }
        match mode {
            ScriptMode::Text(quote) => {
                if ch == '\\' && has_next {
                    out.push(ch);
                    out.push(s[i + 1]);
                    assert(out@ =~= before + seq![rest[0], rest[1]]);
                    i += 2;
                } else {
                    out.push(ch);
                    assert(out@ =~= before + seq![rest[0]]);
                    if ch == quote {
                        mode = ScriptMode::Code;
                    }
                    i += 1;
                }
            },
            ScriptMode::LineComment => {
                if ch == '\n' {
                    out.push('\n');
                    assert(out@ =~= before + seq!['\n']);
                    mode = ScriptMode::Code;
                }
                i += 1;
            },
            ScriptMode::BlockComment if has_next => {
                if ch == '*' && s[i + 1] == '/' {
                    mode = ScriptMode::Code;
                    i += 2;
                } else {
                    i += 1;
                }
            },
            _ => {
                if is_quote_char(ch) {
                    out.push(ch);
                    assert(out@ =~= before + seq![rest[0]]);
                    mode = ScriptMode::Text(ch);
                    i += 1;
                } else if ch == '/' && has_next && s[i + 1] == '/' {
                    mode = ScriptMode::LineComment;
                    i += 2;
                } else if ch == '/' && has_next && s[i + 1] == '*' {
                    out.push(' ');
                    assert(out@ =~= before + seq![' ']);
                    mode = ScriptMode::BlockComment;
                    i += 2;
                } else {
                    out.push(ch);
                    assert(out@ =~= before + seq![rest[0]]);
                    mode = ScriptMode::Code;
                    i += 1;
                }
            },
        }
    }
    assert(out@ + Seq::<char>::empty() =~= out@);
    string_of(&out)
}

/// A style sheet without its comments.
pub fn remove_css_comments(text: &str) -> (stripped: String)
    ensures
        stripped@ == strip_style_comments(text@),
{
    let s = chars_of(text);
    let n = s.len();
    let mut out: Vec<char> = Vec::new();
    let mut in_comment = false;
    let mut i: usize = 0;
    assert(s@.skip(0) =~= s@);
    while i < n
        invariant
            i <= n,
            n == s@.len(),
            strip_style_comments(s@) == out@ + strip_style_from(s@.skip(i as int), in_comment),
        decreases n - i,
    {
        let ghost rest = s@.skip(i as int);
        let ghost before = out@;
        assert(rest.len() == n - i && rest[0] == s@[i as int]);
        assert(rest.skip(1) =~= s@.skip(i + 1));
        let ch = s[i];
        let has_next = n - i >= 2;
        if has_next {
            assert(rest[1] == s@[i + 1]);
            assert(rest.skip(2) =~= s@.skip(i + 2));
        }
        if in_comment && has_next {
            if ch == '*' && s[i + 1] == '/' {
                in_comment = false;
                i += 2;
            } else {
                i += 1;
            }
        } else if ch == '/' && has_next && s[i + 1] == '*' {
            out.push(' ');
            assert(out@ =~= before + seq![' ']);
            in_comment = true;
            i += 2;
        } else {
            out.push(ch);
            assert(out@ =~= before + seq![rest[0]]);
            in_comment = false;
            i += 1;
        }
    }
    assert(out@ + Seq::<char>::empty() =~= out@);
    string_of(&out)
}

fn opens_comment_at(s: &Vec<char>, i: usize) -> (opens: bool)
    requires
        i <= s.len(),
    ensures
        opens == opens_comment(s@.skip(i as int)),
{
    s.len() - i >= 4 && s[i] == '<' && s[i + 1] == '!' && s[i + 2] == '-' && s[i + 3] == '-'
}

fn closes_comment_at(s: &Vec<char>, i: usize) -> (closes: bool)
    requires
        i <= s.len(),
    ensures
        closes == closes_comment(s@.skip(i as int)),
{
    s.len() - i >= 3 && s[i] == '-' && s[i + 1] == '-' && s[i + 2] == '>'
}

/// Markup without its comments.
pub fn remove_html_comments(text: &str) -> (stripped: String)
    ensures
        stripped@ == strip_markup_comments(text@),
{
    let s = chars_of(text);
    let n = s.len();
    let mut out: Vec<char> = Vec::new();
    let mut in_comment = false;
    let mut i: usize = 0;
    assert(s@.skip(0) =~= s@);
    while i < n
        invariant
            i <= n,
            n == s@.len(),
            strip_markup_comments(s@) == out@ + strip_markup_from(s@.skip(i as int), in_comment),
        decreases n - i,
    {
        let ghost rest = s@.skip(i as int);
        let ghost before = out@;
        assert(rest.len() == n - i && rest[0] == s@[i as int]);
        assert(rest.skip(1) =~= s@.skip(i + 1));
        if in_comment && n - i >= 3 {
            if closes_comment_at(&s, i) {
                assert(rest.skip(3) =~= s@.skip(i + 3));
                in_comment = false;
                i += 3;
            } else {
                i += 1;
            }
        } else if opens_comment_at(&s, i) {
            assert(rest.skip(4) =~= s@.skip(i + 4));
            in_comment = true;
            i += 4;
        } else {
            out.push(s[i]);
            assert(out@ =~= before + seq![rest[0]]);
            in_comment = false;
            i += 1;
        }
    }
    assert(out@ + Seq::<char>::empty() =~= out@);
    string_of(&out)
}

fn collapse_script_chars(s: &Vec<char>) -> (out: Vec<char>)
    ensures
        out@ == collapse_script(s@),
{
    let n = s.len();
    let mut out: Vec<char> = Vec::new();
    let mut in_text = false;
    let mut quote = ' ';
    let mut spaced = false;
    let mut i: usize = 0;
    assert(s@.skip(0) =~= s@);
    while i < n
        invariant
            i <= n,
            n == s@.len(),
            collapse_script_from(s@, false, ' ', false) == out@ + collapse_script_from(
                s@.skip(i as int),
                in_text,
                quote,
                spaced,
            ),
        decreases n - i,
    {
        let ghost rest = s@.skip(i as int);
        let ghost before = out@;
        assert(rest.len() == n - i && rest[0] == s@[i as int]);
        assert(rest.skip(1) =~= s@.skip(i + 1));
        let ch = s[i];
        if is_quote_char(ch) {
            if !in_text {
                in_text = true;
                quote = ch;
            } else if ch == quote {
                in_text = false;
            }
            out.push(ch);
            assert(out@ =~= before + seq![rest[0]]);
            spaced = false;
        } else if in_text {
            out.push(ch);
            assert(out@ =~= before + seq![rest[0]]);
            spaced = false;
        } else if ch.is_whitespace() {
            if !spaced {
                out.push(' ');
                assert(out@ =~= before + seq![' ']);
                spaced = true;
            }
        } else {
            out.push(ch);
            assert(out@ =~= before + seq![rest[0]]);
            spaced = false;
        }
        i += 1;
    }
    assert(out@ + Seq::<char>::empty() =~= out@);
    trim_chars(&out)
}

fn collapse_markup_chars(s: &Vec<char>) -> (out: Vec<char>)
    ensures
        out@ == collapse_markup(s@),
{
    let n = s.len();
    let mut out: Vec<char> = Vec::new();
    let mut in_tag = false;
    let mut spaced = false;
    let mut i: usize = 0;
    assert(s@.skip(0) =~= s@);
    while i < n
        invariant
            i <= n,
            n == s@.len(),
            collapse_markup_from(s@, false, false) == out@ + collapse_markup_from(
                s@.skip(i as int),
                in_tag,
                spaced,
            ),
        decreases n - i,
    {
        let ghost rest = s@.skip(i as int);
        let ghost before = out@;
        assert(rest.len() == n - i && rest[0] == s@[i as int]);
        assert(rest.skip(1) =~= s@.skip(i + 1));
        let ch = s[i];
        if ch == '<' {
            in_tag = true;
            out.push(ch);
            assert(out@ =~= before + seq![rest[0]]);
            spaced = false;
        } else if ch == '>' {
            in_tag = false;
            out.push(ch);
            assert(out@ =~= before + seq![rest[0]]);
            spaced = false;
        } else if in_tag {
            out.push(ch);
            assert(out@ =~= before + seq![rest[0]]);
        } else if ch.is_whitespace() {
            if !spaced {
                out.push(' ');
                assert(out@ =~= before + seq![' ']);
                spaced = true;
            }
        } else {
            out.push(ch);
            assert(out@ =~= before + seq![rest[0]]);
            spaced = false;
        }
        i += 1;
    }
    assert(out@ + Seq::<char>::empty() =~= out@);
    trim_chars(&out)
}

fn join_trimmed_chars(s: &Vec<char>) -> (out: Vec<char>)
    ensures
        out@ == join_trimmed_lines(s@),
{
    let lines = lines_chars(s);
    let mut kept: Vec<Vec<char>> = Vec::new();
    let mut i: usize = 0;
    while i < lines.len()
        invariant
            i <= lines.len(),
            kept@.len() == i,
            forall|k: int| 0 <= k < i ==> (#[trigger] kept@[k])@ == trimmed(lines@[k]@),
        decreases lines.len() - i,
    {
        kept.push(trim_chars(&lines[i]));
        i += 1;
    }
    assert(rows(kept@) =~= trimmed_each(rows(lines@)));
    let nothing: Vec<char> = Vec::new();
    join_chars(&kept, &nothing)
}

/// XML without comments and without whitespace between tags.
pub fn minify_xml_code(text: String) -> (minified: Result<String, String>)
    ensures
        minified matches Ok(out) && out@ == minified_xml(text@),
{
    let s = chars_of(text.as_str());
    let n = s.len();
    let mut out: Vec<char> = Vec::new();
    let mut in_tag = false;
    let mut in_comment = false;
    let mut i: usize = 0;
    assert(s@.skip(0) =~= s@);
    while i < n
        invariant
            i <= n,
            n == s@.len(),
            minified_xml(s@) == out@ + minify_xml_from(s@.skip(i as int), in_tag, in_comment),
        decreases n - i,
    {
        let ghost rest = s@.skip(i as int);
        let ghost before = out@;
        assert(rest.len() == n - i && rest[0] == s@[i as int]);
        assert(rest.skip(1) =~= s@.skip(i + 1));
        if opens_comment_at(&s, i) {
            assert(rest.skip(4) =~= s@.skip(i + 4));
            in_comment = true;
            i += 4;
        } else if in_comment && closes_comment_at(&s, i) {
            assert(rest.skip(3) =~= s@.skip(i + 3));
            in_comment = false;
            i += 3;
        } else if in_comment {
            i += 1;
        } else {
            let ch = s[i];
            if ch == '<' {
                in_tag = true;
                out.push(ch);
                assert(out@ =~= before + seq![rest[0]]);
            } else if ch == '>' {
                in_tag = false;
                out.push(ch);
                assert(out@ =~= before + seq![rest[0]]);
            } else if in_tag || !ch.is_whitespace() {
                out.push(ch);
                assert(out@ =~= before + seq![rest[0]]);
            }
            i += 1;
        }
    }
    assert(out@ + Seq::<char>::empty() =~= out@);
    Ok(string_of(&out))
}

fn is_typescript(text: &str) -> (typed: bool)
    ensures
        typed == looks_like_typescript(text@),
{
    str_contains(text, ": ") && (str_contains(text, "interface ") || str_contains(text, "type ")
        || str_contains(text, "enum ") || str_contains(text, "<FC<") || str_contains(
        text,
        "React.FC<",
    ) || str_contains(text, "React.Component<") || str_contains(text, "FunctionComponent<")
        || str_contains(text, ": FC<"))
}

fn parser_for_component(text: &str) -> (parser: &'static str)
    ensures
        parser@ == component_parser(text@),
{
    if is_typescript(text) {
        "typescript"
    } else {
        "babel"
    }
}

fn format_arguments(parser: &str, option: &str, value: &str) -> (args: Vec<String>)
    ensures
        args.deep_view() == format_args(parser@, option@, value@),
{
    let mut args: Vec<String> = Vec::new();
    args.push(String::from_str("--parser"));
    args.push(String::from_str(parser));
    args.push(String::from_str("--print-width"));
    args.push(String::from_str("100"));
    args.push(String::from_str(option));
    args.push(String::from_str(value));
    assert(args.deep_view() =~= format_args(parser@, option@, value@));
    args
}

fn minify_arguments(parser: &str) -> (args: Vec<String>)
    ensures
        args.deep_view() == minify_args(parser@),
{
    let mut args: Vec<String> = Vec::new();
    args.push(String::from_str("--parser"));
    args.push(String::from_str(parser));
    args.push(String::from_str("--print-width"));
    args.push(String::from_str("99999"));
    assert(args.deep_view() =~= minify_args(parser@));
    args
}

fn formatting(text: String, parser: &str, option: &str, value: &str) -> (plan: FormatterPlan)
    ensures
        plan@ == format_plan(text@, parser@, option@, value@),
{
    FormatterPlan {
        formatter: String::from_str("prettier"),
        args: format_arguments(parser, option, value),
        input: text,
        after: AfterFormat::Keep,
        on_failure: OnFailure::Report,
    }
}

fn formatting_with_plugin(text: String, parser: &str, advice: &str) -> (plan: FormatterPlan)
    ensures
        plan@ == plugin_plan(text@, parser@, advice@),
{
    FormatterPlan {
        formatter: String::from_str("prettier"),
        args: format_arguments(parser, "--tab-width", "4"),
        input: text,
        after: AfterFormat::Keep,
        on_failure: OnFailure::Explain(String::from_str(advice)),
    }
}

fn minifying(text: String, stripped: String, parser: &str, after: AfterFormat) -> (plan:
    FormatterPlan)
    ensures
        plan@ == minify_plan(text@, stripped@, parser@, after),
{
    FormatterPlan {
        formatter: String::from_str("prettier"),
        args: minify_arguments(parser),
        input: stripped,
        after,
        on_failure: OnFailure::ReturnOriginal(text),
    }
}

/// How JavaScript is formatted.
pub fn format_javascript_code(text: String) -> (plan: FormatterPlan)
    ensures
        plan@ == format_plan(text@, "babel"@, "--tab-width"@, "2"@),
{
    formatting(text, "babel", "--tab-width", "2")
}

/// How a React component is formatted: as TypeScript where it looks like
/// TypeScript.
pub fn format_react_code(text: String) -> (plan: FormatterPlan)
    ensures
        plan@ == format_plan(text@, component_parser(text@), "--tab-width"@, "2"@),
{
    let parser = parser_for_component(text.as_str());
    formatting(text, parser, "--tab-width", "2")
}

/// How HTML is formatted.
pub fn format_html_code(text: String) -> (plan: FormatterPlan)
    ensures
        plan@ == format_plan(text@, "html"@, "--tab-width"@, "2"@),
{
    formatting(text, "html", "--tab-width", "2")
}

/// How CSS is formatted.
pub fn format_css_code(text: String) -> (plan: FormatterPlan)
    ensures
        plan@ == format_plan(text@, "css"@, "--tab-width"@, "2"@),
{
    formatting(text, "css", "--tab-width", "2")
}

/// How JSON is formatted.
pub fn format_json_code(text: String) -> (plan: FormatterPlan)
    ensures
        plan@ == format_plan(text@, "json"@, "--tab-width"@, "2"@),
{
    formatting(text, "json", "--tab-width", "2")
}

/// How Markdown is formatted: prose is wrapped.
pub fn format_markdown_code(text: String) -> (plan: FormatterPlan)
    ensures
        plan@ == format_plan(text@, "markdown"@, "--prose-wrap"@, "always"@),
{
    formatting(text, "markdown", "--prose-wrap", "always")
}

/// How Java is formatted. It takes a plug-in, and a failure says so.
pub fn format_java_code(text: String) -> (plan: FormatterPlan)
    ensures
        plan@ == plugin_plan(
            text@,
            "java"@,
            "Java formatting requires Prettier with Java plugin. Run: pnpm add -D prettier-plugin-java"@,
        ),
{
    formatting_with_plugin(
        text,
        "java",
        "Java formatting requires Prettier with Java plugin. Run: pnpm add -D prettier-plugin-java",
    )
}

/// How PHP is formatted. It takes a plug-in, and a failure says so.
pub fn format_php_code(text: String) -> (plan: FormatterPlan)
    ensures
        plan@ == plugin_plan(
            text@,
            "php"@,
            "PHP formatting requires Prettier with PHP plugin. Run: pnpm add -D @prettier/plugin-php"@,
        ),
{
    formatting_with_plugin(
        text,
        "php",
        "PHP formatting requires Prettier with PHP plugin. Run: pnpm add -D @prettier/plugin-php",
    )
}

/// How JavaScript is minified: comments go, the formatter puts the rest on
/// long lines, and whitespace is collapsed.
pub fn minify_javascript_code(text: String) -> (plan: FormatterPlan)
    ensures
        plan@ == minify_plan(
            text@,
            strip_script_comments(text@),
            "babel"@,
            AfterFormat::CollapseScript,
        ),
{
    let stripped = remove_js_comments(text.as_str());
    minifying(text, stripped, "babel", AfterFormat::CollapseScript)
}

/// How a React component is minified.
pub fn minify_react_code(text: String) -> (plan: FormatterPlan)
    ensures
        plan@ == minify_plan(
            text@,
            strip_script_comments(text@),
            component_parser(text@),
            AfterFormat::CollapseScript,
        ),
{
    let parser = parser_for_component(text.as_str());
    let stripped = remove_js_comments(text.as_str());
    minifying(text, stripped, parser, AfterFormat::CollapseScript)
}

/// How CSS is minified.
pub fn minify_css_code(text: String) -> (plan: FormatterPlan)
    ensures
        plan@ == minify_plan(text@, strip_style_comments(text@), "css"@, AfterFormat::JoinLines),
{
    let stripped = remove_css_comments(text.as_str());
    minifying(text, stripped, "css", AfterFormat::JoinLines)
}

/// How HTML is minified.
pub fn minify_html_code(text: String) -> (plan: FormatterPlan)
    ensures
        plan@ == minify_plan(
            text@,
            strip_markup_comments(text@),
            "html"@,
            AfterFormat::CollapseMarkup,
        ),
{
    let stripped = remove_html_comments(text.as_str());
    minifying(text, stripped, "html", AfterFormat::CollapseMarkup)
}

/// What becomes of a formatter's output.
pub fn process_output(after: AfterFormat, output: String) -> (result: String)
    ensures
        result@ == processed(after, output@),
{
    match after {
        AfterFormat::Keep => output,
        AfterFormat::CollapseScript => {
            let chars = chars_of(output.as_str());
            string_of(&collapse_script_chars(&chars))
        },
        AfterFormat::CollapseMarkup => {
            let chars = chars_of(output.as_str());
            string_of(&collapse_markup_chars(&chars))
        },
        AfterFormat::JoinLines => {
            let chars = chars_of(output.as_str());
            string_of(&join_trimmed_chars(&chars))
        },
    }
}

/// The result of a plan, given how the run of its formatter went.
pub fn finish_formatting(plan: FormatterPlan, run: Result<String, String>) -> (result: Result<
    String,
    String,
>)
    ensures
        text_result_view(result) == finished(plan@, text_result_view(run)),
{
    match run {
        Ok(output) => Ok(process_output(plan.after, output)),
        Err(reason) => match plan.on_failure {
            OnFailure::Report => Err(reason),
            OnFailure::ReturnOriginal(text) => Ok(text),
            OnFailure::Explain(advice) => Err(advice),
        },
    }
}

} // verus!
