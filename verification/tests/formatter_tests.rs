use wingman::formatters::{
    finish_formatting, format_css_code, format_html_code, format_java_code,
    format_javascript_code, format_json_code, format_markdown_code, format_php_code,
    format_react_code, minify_css_code, minify_html_code, minify_javascript_code,
    minify_react_code, minify_xml_code, process_output, remove_css_comments,
    remove_html_comments, remove_js_comments, AfterFormat, OnFailure,
};

fn strings(items: &[&str]) -> Vec<String> {
    items.iter().map(|item| item.to_string()).collect()
}

#[test]
fn script_comments_are_removed() {
    assert_eq!(remove_js_comments("let a = 1; // one\nlet b = 2;"), "let a = 1; \nlet b = 2;");
    assert_eq!(remove_js_comments("a /* b */ c"), "a   c");
    assert_eq!(remove_js_comments("a/**/b"), "a b");
    assert_eq!(remove_js_comments("a // to the end"), "a ");
    assert_eq!(remove_js_comments("//\n"), "\n");
    assert_eq!(remove_js_comments(""), "");
    assert_eq!(remove_js_comments("/"), "/");
    assert_eq!(remove_js_comments("a / b"), "a / b");
}

#[test]
fn strings_in_scripts_are_kept() {
    assert_eq!(remove_js_comments("s = \"// not a comment\";"), "s = \"// not a comment\";");
    assert_eq!(remove_js_comments("s = '/* no */';"), "s = '/* no */';");
    assert_eq!(remove_js_comments("s = `a // b`; // c"), "s = `a // b`; ");
    assert_eq!(remove_js_comments("s = \"a\\\"// b\"; // c"), "s = \"a\\\"// b\"; ");
    assert_eq!(remove_js_comments("s = \"it's\"; // c"), "s = \"it's\"; ");
    assert_eq!(remove_js_comments("s = \"open // never closed"), "s = \"open // never closed");
    assert_eq!(remove_js_comments("'\\"), "'\\");
}

#[test]
fn unclosed_block_comment_keeps_the_last_character() {
    assert_eq!(remove_js_comments("a /* b c"), "a  c");
    assert_eq!(remove_js_comments("a /*"), "a  ");
    assert_eq!(remove_js_comments("a /*x"), "a  x");
    assert_eq!(remove_js_comments("a /* b *"), "a  *");
    assert_eq!(remove_js_comments("a /* b \""), "a  \"");
    assert_eq!(remove_css_comments("a { } /* b"), "a { }  b");
    assert_eq!(remove_css_comments("/*"), " ");
}

#[test]
fn style_comments_are_removed() {
    assert_eq!(remove_css_comments("a{/* x */color:red}"), "a{ color:red}");
    assert_eq!(remove_css_comments("/* a *//* b */"), "  ");
    assert_eq!(remove_css_comments("a: \"/* kept? */\""), "a: \" \"");
    assert_eq!(remove_css_comments("a // b"), "a // b");
    assert_eq!(remove_css_comments("/*/ x */y"), " y");
    assert_eq!(remove_css_comments(""), "");
}

#[test]
fn markup_comments_are_removed() {
    assert_eq!(remove_html_comments("<p><!-- note -->text</p>"), "<p>text</p>");
    assert_eq!(remove_html_comments("a<!---->b"), "ab");
    assert_eq!(remove_html_comments("a<!-- b --"), "a--");
    assert_eq!(remove_html_comments("a<!-- bcd"), "acd");
    assert_eq!(remove_html_comments("a<!--"), "a");
    assert_eq!(remove_html_comments("a<!-"), "a<!-");
    assert_eq!(remove_html_comments("a<!--x"), "ax");
    assert_eq!(remove_html_comments("a<!--xy"), "axy");
    assert_eq!(remove_html_comments("<!-->b-->c"), "c");
    assert_eq!(remove_html_comments("<!- not one ->"), "<!- not one ->");
    assert_eq!(remove_html_comments(""), "");
}

#[test]
fn xml_is_minified() {
    assert_eq!(
        minify_xml_code("<a>\n  <b x=\"1 2\">t e x t</b>\n  <!-- c -->\n</a>".to_string()).unwrap(),
        "<a><b x=\"1 2\">text</b></a>"
    );
    assert_eq!(minify_xml_code("".to_string()).unwrap(), "");
    assert_eq!(minify_xml_code("  a  b  ".to_string()).unwrap(), "ab");
    assert_eq!(minify_xml_code("<a <!-- x --> b>".to_string()).unwrap(), "<a  b>");
    assert_eq!(minify_xml_code("<a><!-- open".to_string()).unwrap(), "<a>");
    assert_eq!(minify_xml_code("<!-- a <!-- b --> c --> d".to_string()).unwrap(), "c-->d");
    assert_eq!(minify_xml_code("a<!--x-->".to_string()).unwrap(), "a");
    assert_eq!(minify_xml_code("a<!--".to_string()).unwrap(), "a");
    assert_eq!(minify_xml_code("a<!-".to_string()).unwrap(), "a<!-");
    assert_eq!(minify_xml_code("a --> b".to_string()).unwrap(), "a-->b");
}

#[test]
fn format_plans_name_the_parser() {
    let plan = format_javascript_code("let a".to_string());
    assert_eq!(plan.formatter, "prettier");
    assert_eq!(
        plan.args,
        strings(&["--parser", "babel", "--print-width", "100", "--tab-width", "2"])
    );
    assert_eq!(plan.input, "let a");
    assert_eq!(plan.after, AfterFormat::Keep);
    assert!(matches!(plan.on_failure, OnFailure::Report));
    assert_eq!(format_html_code("x".to_string()).args[1], "html");
    assert_eq!(format_css_code("x".to_string()).args[1], "css");
    assert_eq!(format_json_code("x".to_string()).args[1], "json");
    assert_eq!(
        format_markdown_code("x".to_string()).args,
        strings(&["--parser", "markdown", "--print-width", "100", "--prose-wrap", "always"])
    );
    let plan = format_java_code("class A {}".to_string());
    assert_eq!(
        plan.args,
        strings(&["--parser", "java", "--print-width", "100", "--tab-width", "4"])
    );
    match plan.on_failure {
        OnFailure::Explain(advice) => assert_eq!(
            advice,
            "Java formatting requires Prettier with Java plugin. Run: pnpm add -D prettier-plugin-java"
        ),
        _ => panic!("a failure is explained"),
    }
    let plan = format_php_code("<?php".to_string());
    assert_eq!(plan.args[1], "php");
    match plan.on_failure {
        OnFailure::Explain(advice) => assert_eq!(
            advice,
            "PHP formatting requires Prettier with PHP plugin. Run: pnpm add -D @prettier/plugin-php"
        ),
        _ => panic!("a failure is explained"),
    }
}

#[test]
fn components_are_parsed_as_typescript_where_they_look_like_it() {
    assert_eq!(format_react_code("const a = <b/>;".to_string()).args[1], "babel");
    assert_eq!(
        format_react_code("interface P { a: string }".to_string()).args[1],
        "typescript"
    );
    assert_eq!(format_react_code("const A: FC<P> = () => null".to_string()).args[1], "typescript");
    assert_eq!(format_react_code("interface P {}".to_string()).args[1], "babel");
    assert_eq!(format_react_code("a: b".to_string()).args[1], "babel");
    assert_eq!(format_react_code("type A = {a: 1}".to_string()).args[1], "typescript");
    assert_eq!(format_react_code("x = {a: 1}; enum ".to_string()).args[1], "typescript");
    assert_eq!(minify_react_code("type A = {a: 1}".to_string()).args[1], "typescript");
    assert_eq!(minify_react_code("const a = 1".to_string()).args[1], "babel");
}

#[test]
fn minify_plans_strip_comments_first() {
    let plan = minify_javascript_code("a(); // call\nb();".to_string());
    assert_eq!(plan.args, strings(&["--parser", "babel", "--print-width", "99999"]));
    assert_eq!(plan.input, "a(); \nb();");
    assert_eq!(plan.after, AfterFormat::CollapseScript);
    match &plan.on_failure {
        OnFailure::ReturnOriginal(text) => assert_eq!(text, "a(); // call\nb();"),
        _ => panic!("the original is the fallback"),
    }
    let plan = minify_css_code("a { /* x */ }".to_string());
    assert_eq!(plan.args, strings(&["--parser", "css", "--print-width", "99999"]));
    assert_eq!(plan.input, "a {   }");
    assert_eq!(plan.after, AfterFormat::JoinLines);
    let plan = minify_html_code("<p><!-- x --></p>".to_string());
    assert_eq!(plan.args, strings(&["--parser", "html", "--print-width", "99999"]));
    assert_eq!(plan.input, "<p></p>");
    assert_eq!(plan.after, AfterFormat::CollapseMarkup);
    let plan = minify_react_code("/* c */ const A: FC<P> = 1".to_string());
    assert_eq!(plan.input, "  const A: FC<P> = 1");
    assert_eq!(plan.args[1], "typescript");
}

#[test]
fn script_whitespace_is_collapsed_outside_strings() {
    let collapse = |text: &str| process_output(AfterFormat::CollapseScript, text.to_string());
    assert_eq!(collapse("  a  =  1;\n\n b = \"x   y\";\n"), "a = 1; b = \"x   y\";");
    assert_eq!(collapse("a\t\n b"), "a b");
    assert_eq!(collapse("'a  b'  `c\n\nd`"), "'a  b' `c\n\nd`");
    assert_eq!(collapse("\"it's  a\"  b"), "\"it's  a\" b");
    assert_eq!(collapse("a \" b   "), "a \" b");
    assert_eq!(collapse("   "), "");
    assert_eq!(collapse(""), "");
    assert_eq!(collapse("a\u{a0}\u{2003}b"), "a b");
}

#[test]
fn markup_whitespace_is_collapsed_between_tags() {
    let collapse = |text: &str| process_output(AfterFormat::CollapseMarkup, text.to_string());
    assert_eq!(
        collapse("<div  class=\"a  b\">\n  hello   world\n</div>\n"),
        "<div  class=\"a  b\"> hello world </div>"
    );
    assert_eq!(collapse(" <a> </a> "), "<a> </a>");
    assert_eq!(collapse("a  <b>  c"), "a <b> c");
    assert_eq!(collapse("<a\n b"), "<a\n b");
    assert_eq!(collapse(""), "");
}

#[test]
fn style_lines_are_trimmed_and_joined() {
    let join = |text: &str| process_output(AfterFormat::JoinLines, text.to_string());
    assert_eq!(join("a {\n  color: red;\n}\n"), "a {color: red;}");
    assert_eq!(join("  a  \r\n\r\n  b  "), "ab");
    assert_eq!(join("a b\n c d "), "a bc d");
    assert_eq!(join(""), "");
    assert_eq!(join("\n\n"), "");
    assert_eq!(process_output(AfterFormat::Keep, " a \n".to_string()), " a \n");
}

#[test]
fn plans_are_finished_by_the_run_of_the_formatter() {
    let plan = format_javascript_code("let a".to_string());
    assert_eq!(finish_formatting(plan.clone(), Ok("let a;\n".to_string())), Ok("let a;\n".to_string()));
    assert_eq!(
        finish_formatting(plan, Err("Formatter error: x".to_string())),
        Err("Formatter error: x".to_string())
    );
    let plan = format_java_code("class A {}".to_string());
    assert_eq!(
        finish_formatting(plan, Err("whatever".to_string())),
        Err("Java formatting requires Prettier with Java plugin. Run: pnpm add -D prettier-plugin-java".to_string())
    );
    let plan = minify_javascript_code("a(); // call\nb();".to_string());
    assert_eq!(
        finish_formatting(plan.clone(), Ok("a();\nb();\n".to_string())),
        Ok("a(); b();".to_string())
    );
    assert_eq!(
        finish_formatting(plan, Err("no prettier".to_string())),
        Ok("a(); // call\nb();".to_string())
    );
    let plan = minify_css_code("a { }".to_string());
    assert_eq!(finish_formatting(plan, Ok("a {\n}\n".to_string())), Ok("a {}".to_string()));
    let plan = minify_html_code("<p> a </p>".to_string());
    assert_eq!(
        finish_formatting(plan, Ok("<p>\n  a\n</p>\n".to_string())),
        Ok("<p> a </p>".to_string())
    );
}
