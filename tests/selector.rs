use nakama_rpc::selector::rpc_choices;

#[test]
fn three_names_in_order() {
    assert_eq!(rpc_choices("foo\nbar\nbaz"), vec!["foo", "bar", "baz"]);
}

#[test]
fn empty_lines_and_crlf_endings() {
    assert_eq!(rpc_choices("foo\r\n\nbar\n\n"), vec!["foo", "bar"]);
    assert_eq!(rpc_choices(""), Vec::<String>::new());
    assert_eq!(rpc_choices("\n\r\n"), Vec::<String>::new());
    assert_eq!(rpc_choices("a b\nc\r"), vec!["a b", "c\r"]);
    assert_eq!(rpc_choices("é\nñ"), vec!["é", "ñ"]);
}
