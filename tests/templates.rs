use nakama_rpc::templates::{load_payload_templates, PayloadTemplates, TemplateError};

#[test]
fn templates_load_from_a_json_object() {
    let t = load_payload_templates("{\"ping\": {\"a\": 1}, \"list\": [] }").unwrap();
    assert_eq!(t.lookup("ping").map(|s| s.as_str()), Some("{\"a\": 1}"));
    assert_eq!(t.lookup("list").map(|s| s.as_str()), Some("[]"));
    assert_eq!(t.lookup("nope"), None);
    assert_eq!(t.default_payload("ping"), "{\"a\": 1}");
    assert_eq!(t.default_payload("nope"), "{}");
}

#[test]
fn later_duplicate_template_wins() {
    let t = load_payload_templates("{\"a\": 1, \"a\": 2}").unwrap();
    assert_eq!(t.default_payload("a"), "2");
}

#[test]
fn template_file_that_is_not_an_object_is_refused() {
    for text in ["[1, 2]", "{\"a\": ", "", "42"] {
        match load_payload_templates(text) {
            Err(TemplateError::InvalidJson(m)) => assert!(!m.is_empty()),
            Ok(_) => panic!("accepted {text:?}"),
        }
    }
}

#[test]
fn empty_store_has_no_template() {
    let t = PayloadTemplates::new();
    assert_eq!(t.lookup("ping"), None);
    assert_eq!(t.default_payload("ping"), "{}");
}
