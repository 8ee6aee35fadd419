use wingman::lorem::generate_lorem_ipsum;
use wingman::generators::{
    generate_bulk, generate_md5, generate_nanoid, generate_prefixed_id, generate_sha1,
    generate_sha256, generate_sha512, generate_short_hash, generate_uuid, generate_uuid_v7,
    prefix_identifier, to_hex,
};

fn is_lower_hex(text: &str) -> bool {
    text.chars().all(|c| c.is_ascii_digit() || ('a'..='f').contains(&c))
}

fn looks_like_uuid(text: &str, version: char) -> bool {
    let parts: Vec<&str> = text.split('-').collect();
    text.len() == 36
        && parts.iter().map(|p| p.len()).collect::<Vec<_>>() == vec![8, 4, 4, 4, 12]
        && parts.iter().all(|p| is_lower_hex(p))
        && parts[2].starts_with(version)
}

#[test]
fn digests_in_hexadecimal() {
    assert_eq!(generate_md5("abc"), "900150983cd24fb0d6963f7d28e17f72");
    assert_eq!(generate_md5(""), "d41d8cd98f00b204e9800998ecf8427e");
    assert_eq!(generate_sha1("abc"), "a9993e364706816aba3e25717850c26c9cd0d89d");
    assert_eq!(
        generate_sha256("abc"),
        "ba7816bf8f01cfea414140de5dae2223b00361a396177a9cb410ff61f20015ad"
    );
    assert_eq!(
        generate_sha512("abc"),
        "ddaf35a193617abacc417349ae20413112e6fa4e89a97ea20a9eeee64b55d39a2192992a274fc1a836ba3c23a3feebbd454d4423643ce80e2a9ac94fa54ca49f"
    );
    assert_eq!(
        generate_sha256("\u{e9}"),
        "4a99557e4033c3539de2eb65472017cad5f9557f7a0625a09f1c3f6e2ba69c4c"
    );
}

#[test]
fn short_hashes_are_prefixes_of_a_digest() {
    let whole = generate_sha256("seed");
    assert_eq!(generate_short_hash(None, "seed"), &whole[..8]);
    assert_eq!(generate_short_hash(Some(12), "seed"), &whole[..12]);
    assert_eq!(generate_short_hash(Some(0), "seed"), "");
    assert_eq!(generate_short_hash(Some(64), "seed"), whole);
    assert_eq!(generate_short_hash(Some(1000), "seed"), whole);
    assert_ne!(generate_short_hash(None, "seed"), generate_short_hash(None, "seed2"));
}

#[test]
fn random_identifiers() {
    assert!(looks_like_uuid(&generate_uuid(), '4'));
    assert!(looks_like_uuid(&generate_uuid_v7(), '7'));
    assert_ne!(generate_uuid(), generate_uuid());
    assert_eq!(generate_nanoid(None).chars().count(), 21);
    assert_eq!(generate_nanoid(Some(1)).chars().count(), 1);
    assert_eq!(generate_nanoid(Some(40)).chars().count(), 40);
    assert!(generate_nanoid(Some(64))
        .chars()
        .all(|c| c.is_ascii_alphanumeric() || c == '_' || c == '-'));
}

#[test]
fn prefixed_identifiers() {
    assert_eq!(
        prefix_identifier("usr_", Some("uuid"), "01234567-89ab-4def-8123-456789abcdef"),
        Ok("usr_0123456789ab".to_string())
    );
    assert_eq!(prefix_identifier("usr_", Some("uuid"), "ab-cd"), Ok("usr_abcd".to_string()));
    assert_eq!(prefix_identifier("usr_", Some("nanoid"), "a-b_c"), Ok("usr_a-b_c".to_string()));
    assert_eq!(prefix_identifier("", None, "a-b_c"), Ok("a-b_c".to_string()));
    assert_eq!(prefix_identifier("\u{e9}t\u{e9}_9", Some("other"), "x"), Ok("\u{e9}t\u{e9}_9x".to_string()));
    for bad in ["usr-", "a b", "a.b", "x!"] {
        assert_eq!(
            prefix_identifier(bad, None, "x"),
            Err("Prefix must be alphanumeric with underscores only".to_string())
        );
        assert_eq!(
            generate_prefixed_id(bad, Some("uuid")),
            Err("Prefix must be alphanumeric with underscores only".to_string())
        );
    }
    let id = generate_prefixed_id("org_", Some("uuid")).unwrap();
    assert!(id.starts_with("org_"));
    assert_eq!(id.len(), 16);
    assert!(is_lower_hex(&id[4..]));
    let id = generate_prefixed_id("org_", None).unwrap();
    assert!(id.starts_with("org_"));
    assert_eq!(id.chars().count(), 20);
}

#[test]
fn identifiers_in_bulk() {
    let none: Vec<String> = vec![];
    let text = generate_bulk("uuid", 3, None, None, &none).unwrap();
    let lines: Vec<&str> = text.split('\n').collect();
    assert_eq!(lines.len(), 3);
    assert!(lines.iter().all(|line| looks_like_uuid(line, '4')));
    let text = generate_bulk("uuid_v7", 2, None, None, &none).unwrap();
    assert!(text.split('\n').all(|line| looks_like_uuid(line, '7')));
    let text = generate_bulk("whatever", 1, None, None, &none).unwrap();
    assert!(looks_like_uuid(&text, '4'));
    assert_eq!(generate_bulk("uuid", 0, None, None, &none).unwrap(), "");
    let text = generate_bulk("nanoid", 250, None, Some(5), &none).unwrap();
    let lines: Vec<&str> = text.split('\n').collect();
    assert_eq!(lines.len(), 100);
    assert!(lines.iter().all(|line| line.chars().count() == 5));
    let text = generate_bulk("prefixed", 2, Some("k-"), None, &none).unwrap();
    assert!(text.split('\n').all(|line| line.starts_with("k-") && line.chars().count() == 18));
    let text = generate_bulk("prefixed", 1, None, None, &none).unwrap();
    assert!(text.starts_with("id_"));
    let entropy = vec!["a".to_string(), "b".to_string(), "c".to_string()];
    let text = generate_bulk("short_hash", 2, None, Some(10), &entropy).unwrap();
    assert_eq!(
        text,
        format!("{}\n{}", &generate_sha256("a")[..10], &generate_sha256("b")[..10])
    );
}

#[test]
fn filler_text_is_drawn_from_the_seed() {
    assert_eq!(generate_lorem_ipsum(0, "plain", 7), "");
    assert_eq!(generate_lorem_ipsum(0, "html", 7), "");
    assert_eq!(
        generate_lorem_ipsum(1, "plain", 1),
        "Lorem cupidatat reprehenderit et excepturi laborum iusto quis sed ipsum duis. Excepturi culpa ullamco tempor dignissimos in aliqua enim est minim aliqua. Quos dolores non elit quos obcaecati eiusmod ea amet pariatur ullamco. Velit deleniti cillum ea excepturi do cillum ea lorem culpa iusto enim nulla aliquip veniam quis eos obcaecati blanditiis. Velit exercitation non corrupti eos accusamus atque odio velit magna quas enim nostrud aliquip quas. Incididunt esse excepteur provident est laborum iusto fugiat nostrud exercitation excepteur."
    );
    assert_eq!(
        generate_lorem_ipsum(2, "html", 18446744073709551615),
        "<p>Qui id eos consequat cupiditate fugiat sunt consectetur aliqua. Excepturi dolores atque id commodo deleniti duis vero excepturi cupidatat labore fugiat eos in iusto quis dolore dolores excepteur. Nostrud dolores blanditiis id commodo do blanditiis vero sed laborum non quis eos dolores iusto. Irure deleniti iusto proident sunt accusamus excepteur corrupti eos pariatur aliqua.</p>\n\n<p>Cupidatat duis aute amet accusamus cillum praesentium eos. Non ea dolore in cillum corrupti nulla dolores qui. Eos magna adipiscing praesentium est consectetur labore vero deserunt ducimus eiusmod elit eos exercitation iusto voluptate occaecat mollit aliqua. Excepturi consequat non ea deserunt consequat quas vero voluptatum in ex laboris irure in eiusmod sit commodo consequat duis. Ad deleniti quas vero est do atque sit est cupidatat quas. Voluptatum cupidatat quas fugiat ad aliquip cupiditate provident quos ut anim. Est ducimus ullamco officia voluptatum magna ex elit sunt obcaecati dolor vero ad dolores at.</p>"
    );
    assert_eq!(
        generate_lorem_ipsum(2, "markdown", 0),
        "Aute incididunt magna iusto ea sunt magna veniam vero commodo mollit cupiditate fugiat deserunt. Duis fugiat sed mollit duis praesentium commodo esse cillum. Dolore consequat cillum enim deserunt magna at praesentium est aliquip eiusmod vero quos consequat qui et sed culpa qui. Incididunt do excepteur sint commodo in dolor officia irure consequat cupiditate. Ad accusamus at elit lorem deleniti anim provident nulla aliquip cupiditate molestias excepturi obcaecati non laboris dolore pariatur ex.\n\nAccusamus reprehenderit quis occaecat culpa cillum tempor incididunt consequat quas proident amet pariatur ullamco sint dignissimos. Dolor quis dignissimos pariatur cillum sint nulla consectetur at. Velit exercitation iusto aute excepturi in qui corrupti deserunt in iusto enim nostrud dolores dolor fugiat voluptatum deleniti ex. Sed consectetur eiusmod enim deserunt ducimus dolor corrupti lorem consectetur atque proident deserunt consequat non laboris occaecat obcaecati labore. Excepturi consectetur reprehenderit odio irure ut non et dignissimos culpa aliqua odio nostrud deleniti eiusmod. Excepturi cupidatat qui ea dignissimos aliquip reprehenderit quis velit esse qui provident commodo obcaecati iusto. Commodo accusamus at ea incididunt consectetur labore ea est do duis provident dignissimos esse labore."
    );
    assert_eq!(generate_lorem_ipsum(3, "HTML", 5), generate_lorem_ipsum(3, "text", 5));
    let text = generate_lorem_ipsum(40, "plain", 123456789);
    let paragraphs: Vec<&str> = text.split("\n\n").collect();
    assert_eq!(paragraphs.len(), 40);
    for paragraph in paragraphs {
        let sentences = paragraph.matches('.').count();
        assert!((4..=7).contains(&sentences));
        assert!(paragraph.chars().next().unwrap().is_ascii_uppercase());
        for sentence in paragraph.split(". ") {
            let words = sentence.split(' ').count();
            assert!((8..=19).contains(&words));
        }
    }
}

#[test]
fn bytes_in_hexadecimal() {
    let text: String = to_hex(&[0x00, 0x0f, 0xa0, 0xff, 0x12]).into_iter().collect();
    assert_eq!(text, "000fa0ff12");
    assert!(to_hex(&[]).is_empty());
}
