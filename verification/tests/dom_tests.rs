use sheet_fetch::dom::Doc;
use sheet_fetch::errors::SheetError;

#[test]
fn query_yields_elements_in_document_order() {
    let doc = Doc::parse("<html><body><p id=\"x\">one</p><div></div><p>two</p></body></html>".to_string());
    let els = doc.query("p").unwrap();
    assert_eq!(els.len(), 2);
    assert_eq!(els[0].text, "one");
    assert_eq!(els[1].text, "two");
}

#[test]
fn attributes_are_readable_by_name() {
    let doc = Doc::parse("<p id=\"x\" class=\"a b\">t</p>".to_string());
    let els = doc.query("p").unwrap();
    assert_eq!(els[0].attr("id"), Some(&"x".to_string()));
    assert_eq!(els[0].attr("class"), Some(&"a b".to_string()));
    assert_eq!(els[0].attr("missing"), None);
}

#[test]
fn query_without_matches_is_empty() {
    let doc = Doc::parse("<p>t</p>".to_string());
    let els = doc.query("video").unwrap();
    assert_eq!(els.len(), 0);
}

#[test]
fn malformed_markup_is_tolerated() {
    let doc = Doc::parse("<p>unclosed <div><<< &&".to_string());
    let els = doc.query("p").unwrap();
    assert_eq!(els.len(), 1);
}

#[test]
fn an_unparseable_selector_is_a_parse_failure() {
    let doc = Doc::parse("<p>t</p>".to_string());
    let r = doc.query("");
    assert_eq!(r, Err(SheetError::ParseFailed));
}

#[test]
fn error_messages_name_the_missing_piece() {
    assert_eq!(
        SheetError::GetFailed("video url".to_string()).message(),
        "Failed to get video url"
    );
    assert_eq!(SheetError::ParseFailed.message(), "Parse Failed");
}
