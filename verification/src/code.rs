//! Source text by language: which language a text is in, and how text of a
//! language is formatted and minified.

use vstd::prelude::*;
use vstd::string::StringExecFns;
use vstd::utf8::encode_utf8;
use crate::formatters::{
    format_css_code, format_html_code, format_java_code, format_javascript_code,
    format_json_code, format_markdown_code, format_php_code, format_react_code,
    minified_xml, minify_css_code, minify_html_code, minify_javascript_code, minify_react_code,
    minify_xml_code, text_result_view, FormatterPlan, FormatterPlanView,
};
use crate::formatters::{
    component_parser, format_plan, minify_plan, plugin_plan, strip_markup_comments,
    strip_script_comments, strip_style_comments, AfterFormat,
};
use crate::json::{
    json_compact_text, json_members, json_pretty_text, read_members, rewrite_compact,
    rewrite_pretty, JsonFailure,
};
use crate::strings::{
    chars_of, contains_text, matches_at, starts_with_text, str_contains, str_equals, string_of,
};
use crate::text::{
    append_chars, append_indentation, ends_with_chars, ends_with_text, indentation, is_blank,
    is_blank_chars, trim_chars, trim_start_chars, trim_start_of, trimmed,
};
use crate::unicode::{lowercase_of, uppercase_of};

verus! {

/// The message for a feature that the license does not cover.
pub open spec fn pro_required() -> Seq<char> {
    "This feature requires a Pro license"@
}

/// Whether `text` is JSON.
pub open spec fn is_json(text: Seq<char>) -> bool {
    json_members(encode_utf8(text), Seq::empty()) is Some
}

/// Whether a text in upper case begins, after any whitespace, with a word
/// that begins an SQL statement.
pub open spec fn begins_like_sql(upper: Seq<char>) -> bool {
    let start = trim_start_of(upper);
    starts_with_text(start, "SELECT"@) || starts_with_text(start, "INSERT"@) || starts_with_text(
        start,
        "UPDATE"@,
    ) || starts_with_text(start, "DELETE"@) || starts_with_text(start, "CREATE"@)
}

/// Whether a text holds what Python has and scripts have not.
pub open spec fn looks_like_python(text: Seq<char>) -> bool {
    contains_text(text, "def "@) || (contains_text(text, "import "@) && !contains_text(
        text,
        "import {"@,
    )) || (contains_text(text, "class "@) && contains_text(text, ":"@))
}

/// Whether a text holds a word of JavaScript.
pub open spec fn looks_like_script(text: Seq<char>) -> bool {
    contains_text(text, "function "@) || contains_text(text, "const "@) || contains_text(
        text,
        "let "@,
    ) || contains_text(text, "var "@) || contains_text(text, "=>"@) || (contains_text(
        text,
        "import "@,
    ) && contains_text(text, "from "@))
}

/// Whether a script holds markup or the names of React.
pub open spec fn looks_like_react(text: Seq<char>) -> bool {
    (contains_text(text, "<"@) && contains_text(text, "/>"@)) || contains_text(
        text,
        "className="@,
    ) || contains_text(text, "useState"@) || contains_text(text, "useEffect"@) || contains_text(
        text,
        "React."@,
    ) || contains_text(text, "from 'react'"@) || contains_text(text, "from \"react\""@)
}

/// Whether a script holds a type annotation and a type declaration.
pub open spec fn looks_typed(text: Seq<char>) -> bool {
    contains_text(text, ": "@) && (contains_text(text, "interface "@) || contains_text(
        text,
        "type "@,
    ) || contains_text(text, "enum "@))
}

/// Whether a text holds braces and a word of CSS.
pub open spec fn looks_like_css(text: Seq<char>) -> bool {
    contains_text(text, "{"@) && contains_text(text, "}"@) && (contains_text(text, "@media"@)
        || contains_text(text, "@import"@) || contains_text(text, "px"@) || contains_text(
        text,
        "rem"@,
    ))
}

/// The language that a text is taken to be in. JSON is tried first, then
/// markup, SQL, Python, the scripts, and CSS; anything else is plain text.
pub open spec fn detected_language(text: Seq<char>) -> Seq<char> {
    let start = trimmed(text);
    if (starts_with_text(start, "{"@) || starts_with_text(start, "["@)) && is_json(text) {
        "json"@
    } else if starts_with_text(start, "<"@) {
        if contains_text(lowercase_of(start), "<!doctype html"@) || contains_text(
            lowercase_of(start),
            "<html"@,
        ) {
            "html"@
        } else {
            "xml"@
        }
    } else if begins_like_sql(uppercase_of(text)) {
        "sql"@
    } else if looks_like_python(text) {
        "python"@
    } else if looks_like_script(text) {
        if looks_like_react(text) {
            "react"@
        } else if looks_typed(text) {
            "typescript"@
        } else {
            "javascript"@
        }
    } else if looks_like_css(text) {
        "css"@
    } else {
        "plaintext"@
    }
}

/// XML with one tag on a line, from a point on: `indent` is the depth at
/// that point and `pending` what was read since the last tag ended.
pub open spec fn format_xml_from(s: Seq<char>, indent: nat, pending: Seq<char>) -> Seq<char>
    decreases s.len(),
{
    if s.len() == 0 {
        if is_blank(pending) {
            Seq::empty()
        } else {
            trimmed(pending)
        }
    } else if s[0] == '<' {
        (if is_blank(pending) {
            Seq::empty()
        } else {
            indentation(indent) + trimmed(pending) + seq!['\n']
        }) + format_xml_from(s.skip(1), indent, seq!['<'])
    } else if s[0] == '>' {
        let tag = pending.push('>');
        let depth = tag_depth(tag, indent);
        indentation(depth) + tag + seq!['\n'] + format_xml_from(
            s.skip(1),
            if opens_element(tag) {
                depth + 1
            } else {
                depth
            },
            Seq::empty(),
        )
    } else {
        format_xml_from(s.skip(1), indent, pending.push(s[0]))
    }
}

/// Whether a tag closes an element.
pub open spec fn closes_element(tag: Seq<char>) -> bool {
    starts_with_text(tag, "</"@)
}

/// Whether a tag opens an element that a later tag closes: it is neither a
/// closing tag nor complete in itself, nor a declaration.
pub open spec fn opens_element(tag: Seq<char>) -> bool {
    !closes_element(tag) && !(ends_with_text(tag, "/>"@) || starts_with_text(tag, "<?"@)
        || starts_with_text(tag, "<!"@))
}

/// The depth at which a tag is written: a closing tag one level up.
pub open spec fn tag_depth(tag: Seq<char>, indent: nat) -> nat {
    if closes_element(tag) && indent > 0 {
        (indent - 1) as nat
    } else {
        indent
    }
}

/// XML with one tag on a line, indented by two spaces for each level.
pub open spec fn formatted_xml(s: Seq<char>) -> Seq<char> {
    trimmed(format_xml_from(s, 0, Seq::empty()))
}

/// The tools outside this library that format a language.
#[derive(Debug, Clone, Copy, PartialEq, Eq, Structural)]
pub enum ExternalFormatter {
    Python,
    Sql,
    Go,
    Rust,
    Ruby,
    Swift,
    Kotlin,
    CSharp,
    Bash,
    CCpp,
}

/// What is to be done to format or minify a text.
#[derive(Debug)]
pub enum CodeStep {
    /// Run this plan and finish it.
    Run(FormatterPlan),
    /// Hand the text to this tool.
    Tool(ExternalFormatter),
    /// Nothing is left to do: this is the result.
    Done(Result<String, String>),
}

/// The tool that formats a language, for the languages that one formats.
pub open spec fn external_formatter(language: Seq<char>) -> Option<ExternalFormatter> {
    if language == "python"@ {
        Some(ExternalFormatter::Python)
    } else if language == "sql"@ {
        Some(ExternalFormatter::Sql)
    } else if language == "go"@ {
        Some(ExternalFormatter::Go)
    } else if language == "rust"@ {
        Some(ExternalFormatter::Rust)
    } else if language == "ruby"@ {
        Some(ExternalFormatter::Ruby)
    } else if language == "swift"@ {
        Some(ExternalFormatter::Swift)
    } else if language == "kotlin"@ {
        Some(ExternalFormatter::Kotlin)
    } else if language == "csharp"@ {
        Some(ExternalFormatter::CSharp)
    } else if language == "bash"@ {
        Some(ExternalFormatter::Bash)
    } else if language == "c"@ || language == "cpp"@ {
        Some(ExternalFormatter::CCpp)
    } else {
        None
    }
}

/// The plan that formats a language, for the languages that Prettier
/// formats.
pub open spec fn format_plan_for(text: Seq<char>, language: Seq<char>) -> Option<
    FormatterPlanView,
> {
    if language == "json"@ {
        Some(format_plan(text, "json"@, "--tab-width"@, "2"@))
    } else if language == "html"@ {
        Some(format_plan(text, "html"@, "--tab-width"@, "2"@))
    } else if language == "css"@ {
        Some(format_plan(text, "css"@, "--tab-width"@, "2"@))
    } else if language == "react"@ || language == "jsx"@ || language == "tsx"@ {
        Some(format_plan(text, component_parser(text), "--tab-width"@, "2"@))
    } else if language == "javascript"@ || language == "typescript"@ {
        Some(format_plan(text, "babel"@, "--tab-width"@, "2"@))
    } else if language == "java"@ {
        Some(
            plugin_plan(
                text,
                "java"@,
                "Java formatting requires Prettier with Java plugin. Run: pnpm add -D prettier-plugin-java"@,
            ),
        )
    } else if language == "php"@ {
        Some(
            plugin_plan(
                text,
                "php"@,
                "PHP formatting requires Prettier with PHP plugin. Run: pnpm add -D @prettier/plugin-php"@,
            ),
        )
    } else if language == "markdown"@ {
        Some(format_plan(text, "markdown"@, "--prose-wrap"@, "always"@))
    } else {
        None
    }
}

/// What formatting comes to at once, for a language that is neither handed
/// to Prettier nor to a tool: XML is formatted here, and every other
/// language is refused.
pub open spec fn format_outcome(text: Seq<char>, language: Seq<char>) -> Result<
    Seq<char>,
    Seq<char>,
> {
    if language == "xml"@ {
        Ok(formatted_xml(text))
    } else if language == "yaml"@ {
        Err(
            "YAML formatting is not recommended as YAML is whitespace-sensitive and formatting may change semantics."@,
        )
    } else if language == "plaintext"@ {
        Err("Cannot format plain text. Please select a specific language mode first."@)
    } else {
        Err("Formatting not supported for "@ + language)
    }
}

/// The plan that minifies a language, for the languages that Prettier
/// helps to minify.
pub open spec fn minify_plan_for(text: Seq<char>, language: Seq<char>) -> Option<
    FormatterPlanView,
> {
    if language == "css"@ {
        Some(minify_plan(text, strip_style_comments(text), "css"@, AfterFormat::JoinLines))
    } else if language == "react"@ || language == "jsx"@ || language == "tsx"@ {
        Some(
            minify_plan(
                text,
                strip_script_comments(text),
                component_parser(text),
                AfterFormat::CollapseScript,
            ),
        )
    } else if language == "javascript"@ || language == "typescript"@ {
        Some(
            minify_plan(text, strip_script_comments(text), "babel"@, AfterFormat::CollapseScript),
        )
    } else if language == "html"@ {
        Some(
            minify_plan(text, strip_markup_comments(text), "html"@, AfterFormat::CollapseMarkup),
        )
    } else {
        None
    }
}

/// Why a language is not minified.
pub open spec fn minify_refusal(language: Seq<char>) -> Seq<char> {
    if language == "sql"@ {
        "SQL minification is not recommended as it reduces readability without significant benefits."@
    } else if language == "python"@ {
        "Python minification is not supported. Python relies on whitespace for syntax, making minification impractical."@
    } else if language == "yaml"@ {
        "YAML minification is not supported. YAML is whitespace-sensitive and minification would break the format."@
    } else if language == "markdown"@ {
        "Markdown minification is not supported. Markdown formatting is part of the content structure."@
    } else if language == "bash"@ {
        "Bash/Shell script minification is not supported. Readability is more important for shell scripts."@
    } else if language == "go"@ {
        "Go minification is not supported. Go code is compiled, so minification provides no runtime benefit."@
    } else if language == "rust"@ {
        "Rust minification is not supported. Rust code is compiled, so minification provides no runtime benefit."@
    } else if language == "java"@ {
        "Java minification is not supported. Java code is compiled, so minification provides no runtime benefit."@
    } else if language == "php"@ {
        "PHP minification is not commonly used. Consider using opcode caching (OPcache) for performance instead."@
    } else if language == "c"@ || language == "cpp"@ {
        "C/C++ minification is not supported. Code is compiled, so minification provides no runtime benefit."@
    } else if language == "ruby"@ {
        "Ruby minification is not supported. Ruby emphasizes readability over minification."@
    } else if language == "swift"@ {
        "Swift minification is not supported. Swift code is compiled, so minification provides no runtime benefit."@
    } else if language == "kotlin"@ {
        "Kotlin minification is not supported. Kotlin code is compiled, so minification provides no runtime benefit."@
    } else if language == "csharp"@ {
        "C# minification is not supported. C# code is compiled, so minification provides no runtime benefit."@
    } else if language == "plaintext"@ {
        "Cannot minify plain text. Please select a specific language mode first."@
    } else {
        "Minify not supported for "@ + language
    }
}

fn begins_with(hay: &Vec<char>, needle: &str) -> (begins: bool)
    ensures
        begins == starts_with_text(hay@, needle@),
{
    matches_at(hay, &chars_of(needle), 0)
}

fn holds(hay: &Vec<char>, needle: &str) -> (found: bool)
    ensures
        found == contains_text(hay@, needle@),
{
    crate::strings::contains_chars(hay, &chars_of(needle))
}

/// The language that a text is taken to be in.
pub fn detect_language(text: &str) -> (language: String)
    ensures
        language@ == detected_language(text@),
{
    let s = chars_of(text);
    let start = trim_chars(&s);
    if begins_with(&start, "{") || begins_with(&start, "[") {
        let no_keys: Vec<String> = Vec::new();
        assert(no_keys.deep_view() =~= Seq::<Seq<char>>::empty());
        if read_members(text.as_bytes(), &no_keys).is_ok() {
            return String::from_str("json");
        }
    }
    if begins_with(&start, "<") {
        let lower = chars_of(string_of(&start).as_str().to_lowercase().as_str());
        if holds(&lower, "<!doctype html") || holds(&lower, "<html") {
            return String::from_str("html");
        }
        return String::from_str("xml");
    }
    let upper = chars_of(text.to_uppercase().as_str());
    let upper_start = trim_start_chars(&upper);
    if begins_with(&upper_start, "SELECT") || begins_with(&upper_start, "INSERT") || begins_with(
        &upper_start,
        "UPDATE",
    ) || begins_with(&upper_start, "DELETE") || begins_with(&upper_start, "CREATE") {
        return String::from_str("sql");
    }
    if holds(&s, "def ") || (holds(&s, "import ") && !holds(&s, "import {")) || (holds(
        &s,
        "class ",
    ) && holds(&s, ":")) {
        return String::from_str("python");
    }
    if holds(&s, "function ") || holds(&s, "const ") || holds(&s, "let ") || holds(&s, "var ")
        || holds(&s, "=>") || (holds(&s, "import ") && holds(&s, "from ")) {
        if (holds(&s, "<") && holds(&s, "/>")) || holds(&s, "className=") || holds(
            &s,
            "useState",
        ) || holds(&s, "useEffect") || holds(&s, "React.") || holds(&s, "from 'react'") || holds(
            &s,
            "from \"react\"",
        ) {
            return String::from_str("react");
        }
        if holds(&s, ": ") && (holds(&s, "interface ") || holds(&s, "type ") || holds(
            &s,
            "enum ",
        )) {
            return String::from_str("typescript");
        }
        return String::from_str("javascript");
    }
    if holds(&s, "{") && holds(&s, "}") && (holds(&s, "@media") || holds(&s, "@import") || holds(
        &s,
        "px",
    ) || holds(&s, "rem")) {
        return String::from_str("css");
    }
    String::from_str("plaintext")
}

/// XML with one tag on a line, indented by two spaces for each level.
pub fn format_xml(text: &str) -> (formatted: String)
    ensures
        formatted@ == formatted_xml(text@),
{
    let s = chars_of(text);
    let mut out: Vec<char> = Vec::new();
    let mut indent: usize = 0;
    let mut pending: Vec<char> = Vec::new();
    let mut i: usize = 0;
    assert(s@.skip(0) =~= s@);
    while i < s.len()
        invariant
            i <= s.len(),
            indent <= i,
            format_xml_from(s@, 0, Seq::empty()) == out@ + format_xml_from(
                s@.skip(i as int),
                indent as nat,
                pending@,
            ),
        decreases s.len() - i,
    {
        let ghost rest = s@.skip(i as int);
        let ghost before = out@;
        assert(rest[0] == s@[i as int]);
        assert(rest.skip(1) =~= s@.skip(i + 1));
        let ch = s[i];
        if ch == '<' {
            if !is_blank_chars(&pending) {
                append_indentation(&mut out, indent);
                let kept = trim_chars(&pending);
                append_chars(&mut out, &kept);
                out.push('\n');
                assert(out@ =~= before + (indentation(indent as nat) + trimmed(pending@) + seq![
                    '\n',
                ]));
            } else {
                assert(out@ =~= before + Seq::<char>::empty());
            }
            pending = Vec::new();
            pending.push(ch);
            assert(pending@ =~= seq!['<']);
        } else if ch == '>' {
            pending.push(ch);
            let closing = begins_with(&pending, "</");
            let complete = ends_with_chars(&pending, &chars_of("/>")) || begins_with(
                &pending,
                "<?",
            ) || begins_with(&pending, "<!");
            if closing && indent > 0 {
                indent -= 1;
            }
            append_indentation(&mut out, indent);
            append_chars(&mut out, &pending);
            out.push('\n');
            assert(out@ =~= before + (indentation(indent as nat) + pending@ + seq!['\n']));
            if !closing && !complete {
                indent += 1;
            }
            pending = Vec::new();
        } else {
            pending.push(ch);
        }
        i += 1;
    }
    if !is_blank_chars(&pending) {
        let kept = trim_chars(&pending);
        append_chars(&mut out, &kept);
    } else {
        assert(out@ + Seq::<char>::empty() =~= out@);
    }
    string_of(&trim_chars(&out))
}

/// JSON on one line.
pub fn minify_json_code(text: &str) -> (minified: Result<String, String>)
    ensures
        match minified {
            Ok(out) => json_compact_text(text@) == Some(out@),
            Err(_) => json_compact_text(text@) is None,
        },
{
    match rewrite_compact(text) {
        Ok(out) => Ok(out),
        Err(JsonFailure::Read(reason)) => Err(
            String::from_str("Invalid JSON: ").concat(reason.as_str()),
        ),
        Err(JsonFailure::Write(reason)) => Err(
            String::from_str("Failed to minify JSON: ").concat(reason.as_str()),
        ),
    }
}

/// JSON indented.
pub fn format_json(text: &str) -> (formatted: Result<String, String>)
    ensures
        match formatted {
            Ok(out) => json_pretty_text(text@) == Some(out@),
            Err(_) => json_pretty_text(text@) is None,
        },
{
    match rewrite_pretty(text) {
        Ok(out) => Ok(out),
        Err(JsonFailure::Read(reason)) => Err(
            String::from_str("Invalid JSON: ").concat(reason.as_str()),
        ),
        Err(JsonFailure::Write(reason)) => Err(
            String::from_str("Failed to format JSON: ").concat(reason.as_str()),
        ),
    }
}

fn formatter_for(language: &str) -> (tool: Option<ExternalFormatter>)
    ensures
        tool == external_formatter(language@),
{
    if str_equals(language, "python") {
        Some(ExternalFormatter::Python)
    } else if str_equals(language, "sql") {
        Some(ExternalFormatter::Sql)
    } else if str_equals(language, "go") {
        Some(ExternalFormatter::Go)
    } else if str_equals(language, "rust") {
        Some(ExternalFormatter::Rust)
    } else if str_equals(language, "ruby") {
        Some(ExternalFormatter::Ruby)
    } else if str_equals(language, "swift") {
        Some(ExternalFormatter::Swift)
    } else if str_equals(language, "kotlin") {
        Some(ExternalFormatter::Kotlin)
    } else if str_equals(language, "csharp") {
        Some(ExternalFormatter::CSharp)
    } else if str_equals(language, "bash") {
        Some(ExternalFormatter::Bash)
    } else if str_equals(language, "c") || str_equals(language, "cpp") {
        Some(ExternalFormatter::CCpp)
    } else {
        None
    }
}

/// What is to be done to format `text` as `language`, for a user whose
/// license does or does not cover formatting.
pub fn format_code(text: String, language: &str, licensed: bool) -> (step: CodeStep)
    ensures
        !licensed ==> (step matches CodeStep::Done(Err(reason)) && reason@ == pro_required()),
        licensed ==> match step {
            CodeStep::Run(plan) => format_plan_for(text@, language@) == Some(plan@),
            CodeStep::Tool(tool) => format_plan_for(text@, language@) is None
                && external_formatter(language@) == Some(tool),
            CodeStep::Done(result) => format_plan_for(text@, language@) is None
                && external_formatter(language@) is None && text_result_view(result)
                == format_outcome(text@, language@),
        },
{
    if !licensed {
        return CodeStep::Done(Err(String::from_str("This feature requires a Pro license")));
    }
    if str_equals(language, "json") {
        CodeStep::Run(format_json_code(text))
    } else if str_equals(language, "html") {
        CodeStep::Run(format_html_code(text))
    } else if str_equals(language, "css") {
        CodeStep::Run(format_css_code(text))
    } else if str_equals(language, "react") || str_equals(language, "jsx") || str_equals(
        language,
        "tsx",
    ) {
        CodeStep::Run(format_react_code(text))
    } else if str_equals(language, "javascript") || str_equals(language, "typescript") {
        CodeStep::Run(format_javascript_code(text))
    } else if str_equals(language, "java") {
        CodeStep::Run(format_java_code(text))
    } else if str_equals(language, "php") {
        CodeStep::Run(format_php_code(text))
    } else if str_equals(language, "markdown") {
        CodeStep::Run(format_markdown_code(text))
    } else {
        proof {
            language_names_differ();
        }
        match formatter_for(language) {
            Some(tool) => CodeStep::Tool(tool),
            None => {
                if str_equals(language, "xml") {
                    CodeStep::Done(Ok(format_xml(text.as_str())))
                } else if str_equals(language, "yaml") {
                    CodeStep::Done(
                        Err(
                            String::from_str(
                                "YAML formatting is not recommended as YAML is whitespace-sensitive and formatting may change semantics.",
                            ),
                        ),
                    )
                } else if str_equals(language, "plaintext") {
                    CodeStep::Done(
                        Err(
                            String::from_str(
                                "Cannot format plain text. Please select a specific language mode first.",
                            ),
                        ),
                    )
                } else {
                    CodeStep::Done(
                        Err(String::from_str("Formatting not supported for ").concat(language)),
                    )
                }
            },
        }
    }
}

/// The names of the languages are pairwise different texts.
proof fn language_names_differ()
    ensures
        external_formatter("xml"@) is None,
        external_formatter("yaml"@) is None,
        external_formatter("plaintext"@) is None,
{
    reveal_strlit("xml");
    reveal_strlit("yaml");
    reveal_strlit("plaintext");
    reveal_strlit("python");
    reveal_strlit("sql");
    reveal_strlit("go");
    reveal_strlit("rust");
    reveal_strlit("ruby");
    reveal_strlit("swift");
    reveal_strlit("kotlin");
    reveal_strlit("csharp");
    reveal_strlit("bash");
    reveal_strlit("c");
    reveal_strlit("cpp");
    assert("xml"@[0] != "sql"@[0] && "xml"@[0] != "cpp"@[0]);
    assert("yaml"@[0] != "rust"@[0] && "yaml"@[0] != "ruby"@[0] && "yaml"@[0] != "bash"@[0]);
    assert("xml"@.len() == 3 && "yaml"@.len() == 4 && "plaintext"@.len() == 9);
    assert("python"@.len() == 6 && "sql"@.len() == 3 && "go"@.len() == 2 && "rust"@.len() == 4
        && "ruby"@.len() == 4 && "swift"@.len() == 5 && "kotlin"@.len() == 6 && "csharp"@.len()
        == 6 && "bash"@.len() == 4 && "c"@.len() == 1 && "cpp"@.len() == 3);
}

/// What is to be done to minify `text` as `language`, for a user whose
/// license does or does not cover minifying.
pub fn minify_code(text: String, language: &str, licensed: bool) -> (step: CodeStep)
    ensures
        !licensed ==> (step matches CodeStep::Done(Err(reason)) && reason@ == pro_required()),
        licensed ==> match step {
            CodeStep::Run(plan) => minify_plan_for(text@, language@) == Some(plan@),
            CodeStep::Tool(_) => false,
            CodeStep::Done(result) => minify_plan_for(text@, language@) is None && (
            if language@ == "json"@ {
                match result {
                    Ok(out) => json_compact_text(text@) == Some(out@),
                    Err(_) => json_compact_text(text@) is None,
                }
            } else if language@ == "xml"@ {
                text_result_view(result) == Ok::<Seq<char>, Seq<char>>(minified_xml(text@))
            } else {
                text_result_view(result) == Err::<Seq<char>, Seq<char>>(minify_refusal(language@))
            }),
        },
{
    if !licensed {
        return CodeStep::Done(Err(String::from_str("This feature requires a Pro license")));
    }
    if str_equals(language, "css") {
        CodeStep::Run(minify_css_code(text))
    } else if str_equals(language, "react") || str_equals(language, "jsx") || str_equals(
        language,
        "tsx",
    ) {
        CodeStep::Run(minify_react_code(text))
    } else if str_equals(language, "javascript") || str_equals(language, "typescript") {
        CodeStep::Run(minify_javascript_code(text))
    } else if str_equals(language, "html") {
        CodeStep::Run(minify_html_code(text))
    } else if str_equals(language, "json") {
        CodeStep::Done(minify_json_code(text.as_str()))
    } else if str_equals(language, "xml") {
        CodeStep::Done(minify_xml_code(text))
    } else {
        CodeStep::Done(Err(refusal_to_minify(language)))
    }
}

fn refusal_to_minify(language: &str) -> (reason: String)
    ensures
        reason@ == minify_refusal(language@),
{
    if str_equals(language, "sql") {
        String::from_str(
            "SQL minification is not recommended as it reduces readability without significant benefits.",
        )
    } else if str_equals(language, "python") {
        String::from_str(
            "Python minification is not supported. Python relies on whitespace for syntax, making minification impractical.",
        )
    } else if str_equals(language, "yaml") {
        String::from_str(
            "YAML minification is not supported. YAML is whitespace-sensitive and minification would break the format.",
        )
    } else if str_equals(language, "markdown") {
        String::from_str(
            "Markdown minification is not supported. Markdown formatting is part of the content structure.",
        )
    } else if str_equals(language, "bash") {
        String::from_str(
            "Bash/Shell script minification is not supported. Readability is more important for shell scripts.",
        )
    } else if str_equals(language, "go") {
        String::from_str(
            "Go minification is not supported. Go code is compiled, so minification provides no runtime benefit.",
        )
    } else if str_equals(language, "rust") {
        String::from_str(
            "Rust minification is not supported. Rust code is compiled, so minification provides no runtime benefit.",
        )
    } else if str_equals(language, "java") {
        String::from_str(
            "Java minification is not supported. Java code is compiled, so minification provides no runtime benefit.",
        )
    } else if str_equals(language, "php") {
        String::from_str(
            "PHP minification is not commonly used. Consider using opcode caching (OPcache) for performance instead.",
        )
    } else if str_equals(language, "c") || str_equals(language, "cpp") {
        String::from_str(
            "C/C++ minification is not supported. Code is compiled, so minification provides no runtime benefit.",
        )
    } else if str_equals(language, "ruby") {
        String::from_str(
            "Ruby minification is not supported. Ruby emphasizes readability over minification.",
        )
    } else if str_equals(language, "swift") {
        String::from_str(
            "Swift minification is not supported. Swift code is compiled, so minification provides no runtime benefit.",
        )
    } else if str_equals(language, "kotlin") {
        String::from_str(
            "Kotlin minification is not supported. Kotlin code is compiled, so minification provides no runtime benefit.",
        )
    } else if str_equals(language, "csharp") {
        String::from_str(
            "C# minification is not supported. C# code is compiled, so minification provides no runtime benefit.",
        )
    } else if str_equals(language, "plaintext") {
        String::from_str("Cannot minify plain text. Please select a specific language mode first.")
    } else {
        String::from_str("Minify not supported for ").concat(language)
    }
}

/// The name and the file extensions under which text of a language is
/// saved; plain text for a language that is not known.
pub open spec fn file_filter(language: Seq<char>) -> (Seq<char>, Seq<Seq<char>>) {
    if language == "javascript"@ {
        ("JavaScript"@, seq!["js"@])
    } else if language == "typescript"@ {
        ("TypeScript"@, seq!["ts"@])
    } else if language == "jsx"@ {
        ("JSX"@, seq!["jsx"@])
    } else if language == "tsx"@ {
        ("TSX"@, seq!["tsx"@])
    } else if language == "html"@ {
        ("HTML"@, seq!["html"@, "htm"@])
    } else if language == "css"@ {
        ("CSS"@, seq!["css"@])
    } else if language == "json"@ {
        ("JSON"@, seq!["json"@])
    } else if language == "sql"@ {
        ("SQL"@, seq!["sql"@])
    } else if language == "yaml"@ {
        ("YAML"@, seq!["yaml"@, "yml"@])
    } else if language == "xml"@ {
        ("XML"@, seq!["xml"@])
    } else if language == "bash"@ {
        ("Shell Script"@, seq!["sh"@, "bash"@])
    } else if language == "python"@ {
        ("Python"@, seq!["py"@])
    } else if language == "java"@ {
        ("Java"@, seq!["java"@])
    } else if language == "go"@ {
        ("Go"@, seq!["go"@])
    } else if language == "php"@ {
        ("PHP"@, seq!["php"@])
    } else if language == "c"@ {
        ("C"@, seq!["c"@, "h"@])
    } else if language == "cpp"@ {
        ("C++"@, seq!["cpp"@, "hpp"@, "cc"@])
    } else if language == "rust"@ {
        ("Rust"@, seq!["rs"@])
    } else if language == "ruby"@ {
        ("Ruby"@, seq!["rb"@])
    } else if language == "swift"@ {
        ("Swift"@, seq!["swift"@])
    } else if language == "kotlin"@ {
        ("Kotlin"@, seq!["kt"@, "kts"@])
    } else if language == "csharp"@ {
        ("C#"@, seq!["cs"@])
    } else if language == "markdown"@ {
        ("Markdown"@, seq!["md"@])
    } else {
        ("Text"@, seq!["txt"@])
    }
}


/// The name and the file extensions under which text of a language is
/// saved.
pub fn get_file_filter(language: &str) -> (filter: (&'static str, Vec<&'static str>))
    ensures
        filter.0@ == file_filter(language@).0,
        filter.1@.len() == file_filter(language@).1.len(),
        forall|i: int|
            0 <= i < filter.1@.len() ==> (#[trigger] filter.1@[i])@ == file_filter(language@).1[i],
{
    if str_equals(language, "javascript") {
        ("JavaScript", vec!["js"])
    } else if str_equals(language, "typescript") {
        ("TypeScript", vec!["ts"])
    } else if str_equals(language, "jsx") {
        ("JSX", vec!["jsx"])
    } else if str_equals(language, "tsx") {
        ("TSX", vec!["tsx"])
    } else if str_equals(language, "html") {
        ("HTML", vec!["html", "htm"])
    } else if str_equals(language, "css") {
        ("CSS", vec!["css"])
    } else if str_equals(language, "json") {
        ("JSON", vec!["json"])
    } else if str_equals(language, "sql") {
        ("SQL", vec!["sql"])
    } else if str_equals(language, "yaml") {
        ("YAML", vec!["yaml", "yml"])
    } else if str_equals(language, "xml") {
        ("XML", vec!["xml"])
    } else if str_equals(language, "bash") {
        ("Shell Script", vec!["sh", "bash"])
    } else if str_equals(language, "python") {
        ("Python", vec!["py"])
    } else if str_equals(language, "java") {
        ("Java", vec!["java"])
    } else if str_equals(language, "go") {
        ("Go", vec!["go"])
    } else if str_equals(language, "php") {
        ("PHP", vec!["php"])
    } else if str_equals(language, "c") {
        ("C", vec!["c", "h"])
    } else if str_equals(language, "cpp") {
        ("C++", vec!["cpp", "hpp", "cc"])
    } else if str_equals(language, "rust") {
        ("Rust", vec!["rs"])
    } else if str_equals(language, "ruby") {
        ("Ruby", vec!["rb"])
    } else if str_equals(language, "swift") {
        ("Swift", vec!["swift"])
    } else if str_equals(language, "kotlin") {
        ("Kotlin", vec!["kt", "kts"])
    } else if str_equals(language, "csharp") {
        ("C#", vec!["cs"])
    } else if str_equals(language, "markdown") {
        ("Markdown", vec!["md"])
    } else {
        ("Text", vec!["txt"])
    }
}

} // verus!
