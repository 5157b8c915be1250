use lambda_log_viewer::document::{parse_document, Document, Member};

fn pretty(text: &str) -> Vec<String> {
    parse_document(text).expect("a JSON document").pretty_lines()
}

fn serde_pretty(text: &str) -> Vec<String> {
    let value: serde_json::Value = serde_json::from_str(text).unwrap();
    serde_json::to_string_pretty(&value).unwrap().split('\n').map(|l| l.to_string()).collect()
}

#[test]
fn flat_object_has_one_line_per_member_and_two_braces() {
    let lines = pretty("{\"a\":1,\"b\":2}");
    assert_eq!(lines, vec!["{", "  \"a\": 1,", "  \"b\": 2", "}"]);
}

#[test]
fn scalars_take_one_line() {
    assert_eq!(pretty("null"), vec!["null"]);
    assert_eq!(pretty("true"), vec!["true"]);
    assert_eq!(pretty("false"), vec!["false"]);
    assert_eq!(pretty("-12"), vec!["-12"]);
    assert_eq!(pretty("1.5"), vec!["1.5"]);
    assert_eq!(pretty("\"text\""), vec!["\"text\""]);
}

#[test]
fn empty_containers_take_one_line() {
    assert_eq!(pretty("[]"), vec!["[]"]);
    assert_eq!(pretty("{}"), vec!["{}"]);
    assert_eq!(pretty("{\"a\":[],\"b\":{}}"), vec!["{", "  \"a\": [],", "  \"b\": {}", "}"]);
}

#[test]
fn nested_values_are_indented_by_two_spaces_per_level() {
    let lines = pretty("{\"a\":[1,{\"b\":null}],\"c\":\"d\"}");
    assert_eq!(
        lines,
        vec![
            "{",
            "  \"a\": [",
            "    1,",
            "    {",
            "      \"b\": null",
            "    }",
            "  ],",
            "  \"c\": \"d\"",
            "}",
        ]
    );
}

#[test]
fn strings_are_escaped_and_stay_on_one_line() {
    let lines = pretty("[\"a\\nb\\t\\\"q\\\"\\\\\\u0001\\u001f\\b\\f\\r\"]");
    assert_eq!(lines, vec!["[", "  \"a\\nb\\t\\\"q\\\"\\\\\\u0001\\u001f\\b\\f\\r\"", "]"]);
}

#[test]
fn pretty_lines_agree_with_serde_json() {
    let samples = [
        "{\"a\":1,\"b\":2}",
        "[1,2,3]",
        "[[],[[]],{}]",
        "{\"level\":\"INFO\",\"ctx\":{\"id\":7,\"tags\":[\"x\",\"y\"],\"ok\":true},\"msg\":\"done\\n\"}",
        "  [ 1 , 2.25 , -3e2 , 18446744073709551615, \"\\u00e9\\u0007\" ]  ",
        "{\"z\":1,\"a\":{\"k\":[null,false]}}",
        "\"plain\"",
        "0",
    ];
    for text in samples {
        assert_eq!(pretty(text), serde_pretty(text), "{}", text);
    }
}

#[test]
fn text_that_is_no_document_is_not_parsed() {
    assert!(parse_document("").is_none());
    assert!(parse_document("error A").is_none());
    assert!(parse_document("{\"a\":1} trailing").is_none());
    assert!(parse_document("{\"a\":").is_none());
    assert!(parse_document("START RequestId: 1").is_none());
}

#[test]
fn parsed_document_holds_the_values() {
    match parse_document("[true, \"x\", 3]") {
        Some(Document::Array(items)) => {
            assert_eq!(items.len(), 3);
            assert!(matches!(items[0], Document::Bool(true)));
            assert!(matches!(&items[1], Document::Text(t) if t == "x"));
            assert!(matches!(&items[2], Document::Number(n) if n == "3"));
        }
        _ => panic!("an array was expected"),
    }
}

#[test]
fn parsed_object_holds_its_members_by_key() {
    match parse_document("{\"b\": null, \"a\": {}}") {
        Some(Document::Object(members)) => {
            assert_eq!(members.len(), 2);
            assert_eq!(members[0].key, "a");
            assert!(matches!(&members[0].value, Document::Object(m) if m.is_empty()));
            assert_eq!(members[1].key, "b");
            assert!(matches!(members[1].value, Document::Null));
        }
        _ => panic!("an object was expected"),
    }
}

#[test]
fn hand_made_document_is_printed() {
    let document = Document::Object(vec![
        Member { key: "k\"".to_string(), value: Document::Array(vec![Document::Null, Document::Bool(false)]) },
        Member { key: "n".to_string(), value: Document::Number("42".to_string()) },
    ]);
    assert_eq!(
        document.pretty_lines(),
        vec!["{", "  \"k\\\"\": [", "    null,", "    false", "  ],", "  \"n\": 42", "}"]
    );
}
