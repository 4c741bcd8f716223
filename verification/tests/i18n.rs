use game_engine::i18n::{language_name, parse, parse_events, LoadError, XmlEvent, XmlKind};

const SAMPLE: &str = r#"<?xml version="1.0" encoding="utf-8"?>
<strings>
  <language name="English" base="English" variant="Normal" code="en" isDefault="true" />
  <string key="PlayerStartedGame">
    <!-- 0 - Player name -->
    <value>{0} started a game.</value>
    <value>{0} is starting a game!</value>
  </string>
  <string key="MinuteLeftToJoin">
    <value>One minute left to join.</value>
  </string>
  <string key="NotInGame" deprecated="true">
    <value>You are not in a game.</value>
  </string>
  <string key="Bold">
    <value>Some <b>bold</b> text</value>
  </string>
  <string key="Bold">
    <value>second copy</value>
  </string>
  <string key="Blank">
    <value/>
  </string>
</strings>
"#;

#[test]
fn sample_has_expected_meta_keys_and_variants() {
    let pack = parse(SAMPLE).expect("sample should load");
    assert_eq!(pack.meta.name, "English");
    assert_eq!(pack.meta.base, "English");
    assert_eq!(pack.meta.variant, "Normal");
    assert_eq!(pack.meta.code.as_deref(), Some("en"));
    assert_eq!(pack.meta.is_default, Some(true));

    let variants = pack.variants("PlayerStartedGame").expect("PlayerStartedGame should exist");
    assert_eq!(variants.len(), 2);
    assert_eq!(variants[0], "{0} started a game.");
    assert_eq!(variants[1], "{0} is starting a game!");

    assert_eq!(pack.get("MinuteLeftToJoin"), Some("One minute left to join."));
    assert!(pack.get("NotInGame").is_none());
    assert!(pack.deprecated_keys.contains(&"NotInGame".to_string()));
}

#[test]
fn inline_markup_is_kept_verbatim() {
    let pack = parse(SAMPLE).unwrap();
    assert_eq!(pack.get("Bold"), Some("Some <b>bold</b> text"));
    let found = pack.variants_iter().iter().any(|v| v.contains("<b>") && v.contains("</b>"));
    assert!(found);
}

#[test]
fn a_repeated_key_keeps_the_first_values_and_is_recorded() {
    let pack = parse(SAMPLE).unwrap();
    assert_eq!(pack.variants("Bold").unwrap().len(), 1);
    assert_eq!(pack.duplicate_keys, vec!["Bold".to_string()]);
}

#[test]
fn an_empty_value_is_the_empty_text() {
    let pack = parse(SAMPLE).unwrap();
    assert_eq!(pack.get("Blank"), Some(""));
}

#[test]
fn all_variants_are_flattened_in_order() {
    let pack = parse(SAMPLE).unwrap();
    assert_eq!(
        pack.variants_iter(),
        vec![
            "{0} started a game.",
            "{0} is starting a game!",
            "One minute left to join.",
            "Some <b>bold</b> text",
            "",
        ]
    );
}

#[test]
fn a_string_without_key_is_refused() {
    let r = parse("<strings><string><value>x</value></string></strings>");
    assert!(matches!(r, Err(LoadError::MissingKey)));
}

#[test]
fn malformed_xml_is_an_xml_error() {
    let r = parse("<strings><string key=\"a\"><value>x</wrong></string></strings>");
    assert!(matches!(r, Err(LoadError::Xml(_))));
}

#[test]
fn unknown_keys_and_empty_documents_load_empty() {
    let pack = parse("<strings></strings>").unwrap();
    assert!(pack.variants("anything").is_none());
    assert!(pack.get("anything").is_none());
    assert!(pack.variants_iter().is_empty());
    assert_eq!(pack.meta.name, "");
    assert_eq!(pack.meta.code, None);
}

fn ev(kind: XmlKind, content: &str, name_len: usize) -> Result<XmlEvent, String> {
    Ok(XmlEvent { kind, content: content.as_bytes().to_vec(), name_len })
}

#[test]
fn events_ending_inside_a_string_are_an_unexpected_eof() {
    let steps = vec![
        ev(XmlKind::Start, "string key=\"a\"", 6),
        ev(XmlKind::Start, "value", 5),
        ev(XmlKind::Text, "hello", 0),
        ev(XmlKind::Eof, "", 0),
    ];
    assert!(matches!(parse_events(&steps), Err(LoadError::UnexpectedEof)));
}

#[test]
fn comments_inside_a_value_are_dropped_and_text_is_trimmed() {
    let steps = vec![
        ev(XmlKind::Start, "string key=\"k\"", 6),
        ev(XmlKind::Start, "value", 5),
        ev(XmlKind::Text, "  a ", 0),
        ev(XmlKind::Comment, " note ", 0),
        ev(XmlKind::Start, "i", 1),
        ev(XmlKind::Text, "b", 0),
        ev(XmlKind::End, "i", 1),
        ev(XmlKind::CData, "c", 0),
        ev(XmlKind::End, "value", 5),
        ev(XmlKind::End, "string", 6),
        ev(XmlKind::Eof, "", 0),
    ];
    let pack = parse_events(&steps).unwrap();
    assert_eq!(pack.get("k"), Some("a <i>b</i><![CDATA[c]]>"));
}

#[test]
fn invalid_utf8_in_a_value_is_refused() {
    let steps = vec![
        ev(XmlKind::Start, "string key=\"k\"", 6),
        ev(XmlKind::Start, "value", 5),
        Ok(XmlEvent { kind: XmlKind::Text, content: vec![0xff, 0xfe], name_len: 0 }),
        ev(XmlKind::End, "value", 5),
        ev(XmlKind::End, "string", 6),
        ev(XmlKind::Eof, "", 0),
    ];
    assert!(matches!(parse_events(&steps), Err(LoadError::Utf8)));
}

#[test]
fn a_read_error_is_reported_in_document_order() {
    let steps = vec![
        ev(XmlKind::Start, "string", 6),
        Err("boom".to_string()),
    ];
    // the missing key comes first
    assert!(matches!(parse_events(&steps), Err(LoadError::MissingKey)));
    let steps = vec![Err("boom".to_string())];
    match parse_events(&steps) {
        Err(LoadError::Xml(m)) => assert_eq!(m, "boom"),
        _ => panic!("expected the read error"),
    }
}

#[test]
fn load_errors_describe_themselves() {
    assert_eq!(LoadError::MissingKey.message(), "<string> element missing key attribute");
    assert_eq!(LoadError::UnexpectedEof.message(), "unexpected end of file inside <string>");
    assert_eq!(LoadError::Utf8.message(), "invalid utf-8 in value content");
}

#[test]
fn spaces_around_inline_markup_are_kept() {
    let pack = parse("<strings><string key='K'><value>Some <b>bold</b> text</value></string></strings>").unwrap();
    assert_eq!(pack.get("K"), Some("Some <b>bold</b> text"));
}

#[test]
fn a_value_is_trimmed_as_a_whole() {
    let pack = parse("<strings>\n  <string key='K'>\n    <value>\n   two  words <i>x</i> \n</value>\n  </string>\n</strings>").unwrap();
    assert_eq!(pack.get("K"), Some("two  words <i>x</i>"));
}

#[test]
fn deprecated_and_repeated_keys_follow_document_order() {
    let raw = "<strings>\
        <string key='a'><value>1</value></string>\
        <string key='old' deprecated='true'><value>x</value></string>\
        <string key='b'><value>2</value></string>\
        <string key='a'><value>3</value></string>\
        <string key='gone' deprecated='true'><value>y</value></string>\
        <string key='b'><value>4</value></string>\
        <string key='a'><value>5</value></string>\
        </strings>";
    let pack = parse(raw).unwrap();
    assert_eq!(pack.deprecated_keys, vec!["old".to_string(), "gone".to_string()]);
    assert_eq!(pack.duplicate_keys, vec!["a".to_string(), "b".to_string(), "a".to_string()]);
    assert_eq!(pack.get("a"), Some("1"));
    assert_eq!(pack.get("b"), Some("2"));
    assert!(pack.variants("old").is_none());
    // two active keys and three duplicates: the five elements not deprecated
    assert_eq!(pack.variants_iter(), vec!["1", "2"]);
}

#[test]
fn language_files_are_known_by_their_stem() {
    assert_eq!(language_name("English.xml"), Some("English".to_string()));
    assert_eq!(language_name("Persian Hip Hop.xml"), Some("Persian Hip Hop".to_string()));
    assert_eq!(language_name("a.b.xml"), Some("a.b".to_string()));
    assert_eq!(language_name("..xml"), Some(".".to_string()));
    assert_eq!(language_name(".xml"), None);
    assert_eq!(language_name("notes.txt"), None);
    assert_eq!(language_name("English.XML"), None);
    assert_eq!(language_name("xml"), None);
}

#[test]
fn unicode_whitespace_around_a_value_is_trimmed() {
    let pack = parse("<strings><string key='K'><value>\u{3000}\u{a0} hi \u{2003}</value></string></strings>").unwrap();
    assert_eq!(pack.get("K"), Some("hi"));
}
