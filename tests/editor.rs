use nakama_rpc::editor::{EditorAction, EditorEvent, PayloadEditor};
use nakama_rpc::json::pretty_print;
use nakama_rpc::templates::{load_payload_templates, PayloadTemplates};

fn templates() -> PayloadTemplates {
    load_payload_templates("{\"ping\": {\"a\": 1}, \"echo\": [1, 2]}").unwrap()
}

#[test]
fn valid_json_is_returned_trimmed_and_unchanged() {
    let t = templates();
    let ed = PayloadEditor::new("ping", &t);
    let typed = "  \n{ \"b\" :2,  \"a\":1 }\n\t ";
    match ed.step(EditorEvent::Submitted(typed.to_string())) {
        EditorAction::Accept(s) => assert_eq!(s, "{ \"b\" :2,  \"a\":1 }"),
        _ => panic!("valid JSON was not accepted"),
    }
}

#[test]
fn valid_scalar_json_is_accepted() {
    let t = PayloadTemplates::new();
    let ed = PayloadEditor::new("x", &t);
    match ed.step(EditorEvent::Submitted("42".to_string())) {
        EditorAction::Accept(s) => assert_eq!(s, "42"),
        _ => panic!("valid JSON was not accepted"),
    }
}

#[test]
fn invalid_json_reopens_on_the_original_seed() {
    let t = templates();
    let ed = PayloadEditor::new("ping", &t);
    let seed = ed.seed().clone();
    for attempt in ["{\"a\":", "not json", "", "{} {}"] {
        match ed.step(EditorEvent::Submitted(attempt.to_string())) {
            EditorAction::Reopen { seed: s, error } => {
                assert_eq!(s, seed);
                assert_ne!(s, attempt);
                assert!(!error.is_empty());
            }
            _ => panic!("invalid JSON was accepted"),
        }
    }
}

#[test]
fn absent_rpc_seeds_an_empty_object() {
    let t = templates();
    let ed = PayloadEditor::new("missing", &t);
    assert_eq!(ed.seed(), "{}");
    assert_eq!(t.default_payload("missing"), "{}");
}

#[test]
fn present_rpc_seeds_its_template_pretty_printed() {
    let t = templates();
    let ed = PayloadEditor::new("ping", &t);
    assert_eq!(ed.seed(), "{\n  \"a\": 1\n}");
    let ed2 = PayloadEditor::new("echo", &t);
    assert_eq!(ed2.seed(), "[\n  1,\n  2\n]");
}

#[test]
fn editor_failure_aborts() {
    let t = templates();
    let ed = PayloadEditor::new("ping", &t);
    match ed.step(EditorEvent::Failed("no terminal".to_string())) {
        EditorAction::Abort(m) => assert_eq!(m, "no terminal"),
        _ => panic!("editor failure did not abort"),
    }
}

#[test]
fn pretty_print_keeps_invalid_text() {
    assert_eq!(pretty_print("{oops"), "{oops");
    assert_eq!(pretty_print("{\"k\":[true,null]}"), "{\n  \"k\": [\n    true,\n    null\n  ]\n}");
}

#[test]
fn pretty_print_of_small_objects() {
    assert_eq!(pretty_print("{\"a\":1}"), "{\n  \"a\": 1\n}");
    assert_eq!(pretty_print("{}"), "{}");
    assert_eq!(pretty_print("{\"payload\":\"ok\"}"), "{\n  \"payload\": \"ok\"\n}");
    let once = pretty_print("{\"b\":[1,{\"c\":null}]}");
    assert_eq!(pretty_print(&once), once);
}
