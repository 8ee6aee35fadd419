use wingman::clipboard::{transform_from_name, transform_text_cmd, TextTransform};
use wingman::encoding::{
    decode_base64, decode_html, decode_url, encode_base64, encode_html, encode_url,
};
use wingman::github::{ensure_wingman_marker, has_wingman_marker};
use wingman::license::{
    check_feature_enabled, feature_from_name, LicenseCache, LicenseError, LicenseStatus,
    LicenseTier, ProFeature,
};
use wingman::links::{is_allowed_https_host, open_github_url, open_obsidian_url};
use wingman::premium::{
    add_to_obsidian_vault, get_ai_usage, NoteStamps, ObsidianConfig, ObsidianLocation,
    SubscriptionStatus,
};
use wingman::time::{first_of_next_month, Timestamp};

#[test]
fn html_entities() {
    assert_eq!(
        encode_html("<a href=\"x\">Tom & 'J'</a>"),
        "&lt;a href=&quot;x&quot;&gt;Tom &amp; &#x27;J&#x27;&lt;/a&gt;"
    );
    assert_eq!(encode_html(""), "");
    assert_eq!(encode_html("\u{e9} &amp;"), "\u{e9} &amp;amp;");
    assert_eq!(
        decode_html("&lt;p&gt; &amp;amp; &amp;lt; &#39;&apos;&#x27; &#x2F;&#47;&nbsp;&quot;"),
        "<p> &amp; < ''' // \""
    );
    assert_eq!(decode_html("&AMP; &unknown; &lt"), "&AMP; &unknown; &lt");
    assert_eq!(decode_html("&amp;nbsp;"), " ");
    assert_eq!(decode_html(&encode_html("<a href=\"x\">Tom & 'J'</a>")), "<a href=\"x\">Tom & 'J'</a>");
}

#[test]
fn base64_of_text() {
    assert_eq!(encode_base64("hello world~"), "aGVsbG8gd29ybGR+");
    assert_eq!(encode_base64(""), "");
    assert_eq!(encode_base64("\u{e9}"), "w6k=");
    assert_eq!(decode_base64("  aGVsbG8=\n").unwrap(), "hello");
    assert_eq!(decode_base64("w6k=").unwrap(), "\u{e9}");
    assert_eq!(decode_base64("").unwrap(), "");
    assert!(decode_base64("aGVsbG8").unwrap_err().starts_with("Invalid Base64: "));
    assert!(decode_base64("a b").unwrap_err().starts_with("Invalid Base64: "));
    assert!(decode_base64("/w==").unwrap_err().starts_with("Invalid UTF-8 in decoded data: "));
}

#[test]
fn percent_encoding() {
    assert_eq!(encode_url("a b&c/d~\u{e9}"), "a%20b%26c%2Fd~%C3%A9");
    assert_eq!(encode_url("AZaz09-._~"), "AZaz09-._~");
    assert_eq!(encode_url("+%\n"), "%2B%25%0A");
    assert_eq!(encode_url(""), "");
    assert_eq!(decode_url("a%20b%26c%2fd~%C3%A9").unwrap(), "a b&c/d~\u{e9}");
    assert_eq!(decode_url("a+b%2").unwrap(), "a+b%2");
    assert_eq!(decode_url("%zz%4").unwrap(), "%zz%4");
    assert!(decode_url("%FF").unwrap_err().starts_with("Invalid URL encoding: "));
}

#[test]
fn transformations_by_name() {
    assert_eq!(transform_from_name("uppercase"), Some(TextTransform::Uppercase));
    assert_eq!(transform_from_name("lowercase"), Some(TextTransform::Lowercase));
    assert_eq!(transform_from_name("titlecase"), Some(TextTransform::TitleCase));
    assert_eq!(transform_from_name("sentencecase"), Some(TextTransform::SentenceCase));
    assert_eq!(transform_from_name("camelcase"), Some(TextTransform::CamelCase));
    assert_eq!(transform_from_name("snakecase"), Some(TextTransform::SnakeCase));
    assert_eq!(transform_from_name("kebabcase"), Some(TextTransform::KebabCase));
    assert_eq!(transform_from_name("trim"), Some(TextTransform::TrimWhitespace));
    assert_eq!(transform_from_name("sort"), Some(TextTransform::SortLines));
    assert_eq!(transform_from_name("deduplicate"), Some(TextTransform::RemoveDuplicateLines));
    assert_eq!(transform_from_name("reverse"), Some(TextTransform::ReverseLines));
    assert_eq!(transform_from_name("bulletlist"), Some(TextTransform::BulletList));
    assert_eq!(transform_from_name("Uppercase"), None);
    assert_eq!(transform_text_cmd("a b", "snakecase"), Ok("a_b".to_string()));
    assert_eq!(transform_text_cmd("b\na", "sort"), Ok("a\nb".to_string()));
    assert_eq!(transform_text_cmd("a", "rot13"), Err("Unknown transform: rot13".to_string()));
}

#[test]
fn features_by_name() {
    assert_eq!(feature_from_name("history"), Some(ProFeature::History));
    assert_eq!(feature_from_name("syntax_highlighting"), Some(ProFeature::SyntaxHighlighting));
    assert_eq!(feature_from_name("snippets"), Some(ProFeature::Snippets));
    assert_eq!(feature_from_name("custom_themes"), Some(ProFeature::CustomThemes));
    assert_eq!(feature_from_name("stats_display"), Some(ProFeature::StatsDisplay));
    assert_eq!(feature_from_name("export_history"), Some(ProFeature::ExportHistory));
    assert_eq!(feature_from_name("History"), None);
    let now = Timestamp { secs: 1_705_276_800, nanos: 0 };
    let pro: Result<LicenseCache, LicenseError> = Ok(LicenseCache {
        license_key: Some("K".to_string()),
        email: None,
        tier: LicenseTier::Pro,
        status: LicenseStatus::Valid,
        device_id: "d".to_string(),
        last_validated: None,
        validation_expires: Some("2024-01-31T00:00:00Z".to_string()),
        grace_period_start: None,
    });
    assert_eq!(check_feature_enabled("snippets", &pro, now), Ok(true));
    let never: Result<LicenseCache, LicenseError> = Ok(LicenseCache::default());
    assert_eq!(check_feature_enabled("snippets", &never, now), Ok(false));
    assert_eq!(
        check_feature_enabled("teleport", &pro, now),
        Err("Unknown feature: teleport".to_string())
    );
}

#[test]
fn only_https_addresses_of_known_hosts_are_opened() {
    let hosts = vec!["github.com".to_string(), "gist.github.com".to_string()];
    assert!(is_allowed_https_host("https://github.com/a/b", &hosts));
    assert!(is_allowed_https_host("  HTTPS://GitHub.com:443/a/b \n", &hosts));
    assert!(is_allowed_https_host("https://gist.github.com", &hosts));
    assert!(is_allowed_https_host("https://github.com:8443", &hosts));
    assert!(!is_allowed_https_host("http://github.com/a", &hosts));
    assert!(!is_allowed_https_host("https://github.com.evil.com/", &hosts));
    assert!(!is_allowed_https_host("https://user@github.com/", &hosts));
    assert!(!is_allowed_https_host("https:/github.com", &hosts));
    assert!(!is_allowed_https_host("https://", &hosts));
    assert!(!is_allowed_https_host("", &hosts));
    assert!(!is_allowed_https_host("https://github.com", &vec![]));
    assert!(is_allowed_https_host("https://", &vec!["".to_string()]));
    assert_eq!(open_github_url("https://gist.github.com/x/1"), Ok(()));
    assert_eq!(
        open_github_url("https://example.com/github.com"),
        Err("Blocked URL host for GitHub open operation.".to_string())
    );
    assert_eq!(open_obsidian_url("  Obsidian://open?vault=a"), Ok(()));
    assert_eq!(
        open_obsidian_url("https://obsidian.md"),
        Err("Blocked URL scheme for Obsidian open operation.".to_string())
    );
}

#[test]
fn gist_descriptions_carry_the_marker() {
    assert!(has_wingman_marker("My [WINGMAN] gist"));
    assert!(has_wingman_marker("[Wingman]"));
    assert!(!has_wingman_marker("Wingman"));
    assert!(!has_wingman_marker(""));
    assert_eq!(ensure_wingman_marker("  notes "), "[Wingman] notes");
    assert_eq!(ensure_wingman_marker(""), "[Wingman] Created with Wingman");
    assert_eq!(ensure_wingman_marker("  \n"), "[Wingman] Created with Wingman");
    assert_eq!(ensure_wingman_marker(" [wingman] x "), "[wingman] x");
    assert_eq!(ensure_wingman_marker("x [Wingman]"), "x [Wingman]");
}

#[test]
fn allowance_resets_on_the_first_of_next_month() {
    assert_eq!(first_of_next_month(2024, 12), "2025-01-01");
    assert_eq!(first_of_next_month(2024, 1), "2024-02-01");
    assert_eq!(first_of_next_month(2024, 11), "2024-12-01");
    assert_eq!(first_of_next_month(2024, 13), "Unknown");
    assert_eq!(first_of_next_month(2024, 0), "2024-01-01");
    assert_eq!(first_of_next_month(i32::MAX, 12), "Unknown");
    assert_eq!(first_of_next_month(2024, u32::MAX), "Unknown");
    let status = SubscriptionStatus {
        tier: "premium".to_string(),
        is_active: true,
        expires_at: None,
        tokens_used: 12,
        tokens_remaining: 88,
    };
    let usage = get_ai_usage(&status, 2024, 2);
    assert_eq!(usage.tokens_used, 12);
    assert_eq!(usage.tokens_remaining, 88);
    assert_eq!(usage.request_count, 0);
    assert_eq!(usage.resets_at, "2024-03-01");
}

#[test]
fn notes_for_the_vault() {
    let stamps = NoteStamps {
        file: "2024-01-31 174502".to_string(),
        minute: "2024-01-31 17:45".to_string(),
        date: "2024-01-31".to_string(),
    };
    let config = ObsidianConfig {
        vault_path: "/home/me/My Vault".to_string(),
        default_location: ObsidianLocation::NewNote,
        specific_note_path: None,
        new_note_folder: Some("/Inbox/".to_string()),
        template: Some("## {{timestamp}}\n\n{{content}} ({{date}}) {{content}}".to_string()),
    };
    let note = add_to_obsidian_vault("Hello & bye", &config, "My Vault", &stamps);
    assert_eq!(note.result.note_name, "Inbox/Wingman 2024-01-31 174502");
    assert_eq!(note.result.vault_name, "My Vault");
    assert_eq!(
        note.result.open_uri,
        "obsidian://open?vault=My%20Vault&file=Inbox%2FWingman%202024-01-31%20174502"
    );
    assert_eq!(
        note.create_uri,
        "obsidian://new?vault=My%20Vault&name=Inbox%2FWingman%202024-01-31%20174502&content=%23%23%202024-01-31%2017%3A45%0A%0AHello%20%26%20bye%20%282024-01-31%29%20Hello%20%26%20bye"
    );
    let plain = ObsidianConfig::default();
    let note = add_to_obsidian_vault("{{date}}", &plain, "V", &stamps);
    assert_eq!(note.result.note_name, "Wingman 2024-01-31 174502");
    assert_eq!(
        note.create_uri,
        "obsidian://new?vault=V&name=Wingman%202024-01-31%20174502&content=%7B%7Bdate%7D%7D"
    );
    let nested = ObsidianConfig { new_note_folder: Some("//a/b///".to_string()), ..plain.clone() };
    assert_eq!(
        add_to_obsidian_vault("x", &nested, "V", &stamps).result.note_name,
        "a/b/Wingman 2024-01-31 174502"
    );
    let slashes = ObsidianConfig { new_note_folder: Some("///".to_string()), ..plain };
    assert_eq!(
        add_to_obsidian_vault("x", &slashes, "V", &stamps).result.note_name,
        "/Wingman 2024-01-31 174502"
    );
}
