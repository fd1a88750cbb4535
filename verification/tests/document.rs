use cosmos_document::{Document, DocumentAttributes, JsonObject, MetadataField, ParseError, Resource};
use http::header::HeaderMap;
use serde_json::Value;

fn object(entries: Vec<(&str, Value)>) -> JsonObject {
    let mut object = JsonObject::new();
    for (key, value) in entries {
        object.insert(key.to_owned(), value);
    }
    object
}

fn parse(body: &[u8]) -> Result<Document<JsonObject>, ParseError> {
    let headers = HeaderMap::new();
    Document::try_from((&headers, body))
}

#[test]
fn new_keeps_the_payload_and_defaults_the_attributes() {
    let document = Document::new(42u64);
    assert_eq!(document.document, 42);
    assert_eq!(document.document_attributes, DocumentAttributes::default());
    assert_eq!(document.document_attributes.id(), "");
    assert_eq!(document.document_attributes._self(), "");
    assert_eq!(document.document_attributes.etag(), "");
    assert_eq!(document.document_attributes.ts(), 0);

    let text = Document::new("payload".to_owned());
    assert_eq!(text.document, "payload");
    assert_eq!(text.uri(), "");
}

#[test]
fn attributes_hold_what_they_were_made_of() {
    let attributes =
        DocumentAttributes::new("x".to_owned(), "dbs/d/".to_owned(), "\"00\"".to_owned(), 1600000000);
    assert_eq!(attributes.id(), "x");
    assert_eq!(attributes._self(), "dbs/d/");
    assert_eq!(attributes.etag(), "\"00\"");
    assert_eq!(attributes.ts(), 1600000000);
    assert_eq!(attributes.clone(), attributes);
    assert_ne!(attributes, DocumentAttributes::default());
}

#[test]
fn from_response_reads_attributes_and_payload() {
    let body = b"{\"id\":\"x\",\"_self\":\"dbs/d/colls/c/docs/x/\",\"payload_field\":42}";
    let document = parse(body).expect("the body is a document");
    assert_eq!(document.uri(), "dbs/d/colls/c/docs/x/");
    assert_eq!((&document).uri(), "dbs/d/colls/c/docs/x/");
    assert_eq!(document.document.get("payload_field").and_then(Value::as_i64), Some(42));
    assert_eq!(document.document_attributes.id(), "x");
    assert_eq!(document.document_attributes.etag(), "");
    assert_eq!(document.document_attributes.ts(), 0);
    assert_eq!(document.document.len(), 1);
}

#[test]
fn from_response_reads_every_attribute() {
    let body = b" { \"_ts\": 1600000000, \"_etag\": \"\\\"7f00\\\"\", \"a\": [1, 2], \"_self\": \"dbs/d/\", \"id\": \"doc1\", \"_rid\": \"r\" } ";
    let document = parse(body).expect("the body is a document");
    assert_eq!(
        document.document_attributes,
        DocumentAttributes::new("doc1".to_owned(), "dbs/d/".to_owned(), "\"7f00\"".to_owned(), 1600000000)
    );
    assert_eq!(document.document.len(), 2);
    assert_eq!(document.document.get("a"), Some(&Value::from(vec![1, 2])));
    assert_eq!(document.document.get("_rid"), Some(&Value::from("r")));
    for key in ["id", "_self", "_etag", "_ts"] {
        assert!(!document.document.contains_key(key));
    }
}

#[test]
fn from_response_does_not_read_the_headers() {
    let body = b"{\"id\":\"x\",\"_self\":\"s\"}";
    let mut headers = HeaderMap::new();
    headers.insert("etag", "from-header".parse().unwrap());
    let document = Document::try_from((&headers, &body[..])).expect("the body is a document");
    assert_eq!(document.document_attributes.etag(), "");
    assert!(document.document.is_empty());
}

#[test]
fn malformed_body_is_a_parse_error() {
    let truncated = b"{\"id\":\"x\",\"_self\":\"dbs/d/colls/c/docs/x/\",\"payload_fi";
    assert!(matches!(parse(truncated), Err(ParseError::Json(_))));
    assert!(matches!(parse(b""), Err(ParseError::Json(_))));
    assert!(matches!(parse(b"{"), Err(ParseError::Json(_))));
    assert!(matches!(parse(b"not json"), Err(ParseError::Json(_))));
    assert!(matches!(parse(b"{\"id\":\"x\",\"_self\":\"s\",}"), Err(ParseError::Json(_))));
    assert!(matches!(parse(&[0xff, 0xfe]), Err(ParseError::Json(_))));
}

#[test]
fn body_that_is_no_single_object_is_a_parse_error() {
    assert!(matches!(parse(b"[1,2]"), Err(ParseError::Json(_))));
    assert!(matches!(parse(b"\"id\""), Err(ParseError::Json(_))));
    assert!(matches!(parse(b"null"), Err(ParseError::Json(_))));
    assert!(matches!(parse(b"{\"id\":\"x\",\"_self\":\"s\"} {}"), Err(ParseError::Json(_))));
}

#[test]
fn missing_required_attribute_is_a_parse_error() {
    assert!(matches!(
        parse(b"{\"_self\":\"s\",\"a\":1}"),
        Err(ParseError::MissingField(MetadataField::Id))
    ));
    assert!(matches!(
        parse(b"{\"id\":\"x\",\"a\":1}"),
        Err(ParseError::MissingField(MetadataField::SelfLink))
    ));
    assert!(matches!(parse(b"{}"), Err(ParseError::MissingField(MetadataField::Id))));
}

#[test]
fn attribute_of_the_wrong_kind_is_a_parse_error() {
    assert!(matches!(
        parse(b"{\"id\":7,\"_self\":\"s\"}"),
        Err(ParseError::InvalidField(MetadataField::Id))
    ));
    assert!(matches!(
        parse(b"{\"id\":\"x\",\"_self\":null}"),
        Err(ParseError::InvalidField(MetadataField::SelfLink))
    ));
    assert!(matches!(
        parse(b"{\"id\":\"x\",\"_self\":\"s\",\"_etag\":[]}"),
        Err(ParseError::InvalidField(MetadataField::Etag))
    ));
    for ts in ["\"1\"", "-1", "1.5", "18446744073709551616", "null"] {
        let body = format!("{{\"id\":\"x\",\"_self\":\"s\",\"_ts\":{}}}", ts);
        assert!(matches!(
            parse(body.as_bytes()),
            Err(ParseError::InvalidField(MetadataField::Timestamp))
        ));
    }
}

#[test]
fn the_first_failing_attribute_decides_the_error() {
    assert!(matches!(
        parse(b"{\"id\":1,\"_etag\":2,\"_ts\":\"3\"}"),
        Err(ParseError::InvalidField(MetadataField::Id))
    ));
    assert!(matches!(
        parse(b"{\"id\":\"x\",\"_etag\":2,\"_ts\":\"3\"}"),
        Err(ParseError::MissingField(MetadataField::SelfLink))
    ));
    assert!(matches!(
        parse(b"{\"id\":\"x\",\"_self\":\"s\",\"_etag\":2,\"_ts\":\"3\"}"),
        Err(ParseError::InvalidField(MetadataField::Etag))
    ));
}

#[test]
fn the_largest_timestamp_is_read() {
    let document = parse(b"{\"id\":\"x\",\"_self\":\"s\",\"_ts\":18446744073709551615}").unwrap();
    assert_eq!(document.document_attributes.ts(), u64::MAX);
}

#[test]
fn metadata_field_keys() {
    assert_eq!(MetadataField::Id.key(), "id");
    assert_eq!(MetadataField::SelfLink.key(), "_self");
    assert_eq!(MetadataField::Etag.key(), "_etag");
    assert_eq!(MetadataField::Timestamp.key(), "_ts");
}

#[test]
fn from_object_splits_attributes_from_payload() {
    let flat = object(vec![
        ("id", Value::from("x")),
        ("_self", Value::from("dbs/d/colls/c/docs/x/")),
        ("_ts", Value::from(5u64)),
        ("name", Value::from("n")),
        ("nested", Value::Object(object(vec![("id", Value::from("inner"))]))),
    ]);
    let document = Document::from_object(flat).unwrap();
    assert_eq!(
        document.document_attributes,
        DocumentAttributes::new("x".to_owned(), "dbs/d/colls/c/docs/x/".to_owned(), String::new(), 5)
    );
    assert_eq!(
        document.document,
        object(vec![
            ("name", Value::from("n")),
            ("nested", Value::Object(object(vec![("id", Value::from("inner"))]))),
        ])
    );
}

#[test]
fn to_object_is_one_flat_object() {
    let document = Document {
        document_attributes: DocumentAttributes::new(
            "x".to_owned(),
            "dbs/d/".to_owned(),
            "e".to_owned(),
            9,
        ),
        document: object(vec![("a", Value::from(1)), ("b", Value::from("two"))]),
    };
    let flat = document.to_object();
    assert_eq!(
        flat,
        object(vec![
            ("id", Value::from("x")),
            ("_self", Value::from("dbs/d/")),
            ("_etag", Value::from("e")),
            ("_ts", Value::from(9u64)),
            ("a", Value::from(1)),
            ("b", Value::from("two")),
        ])
    );
    assert!(!flat.contains_key("metadata"));
    assert!(!flat.contains_key("document_attributes"));
    assert_eq!(document.document.len(), 2);
    assert_eq!(
        String::from_utf8(serde_json::to_vec(&flat).unwrap()).unwrap(),
        "{\"_etag\":\"e\",\"_self\":\"dbs/d/\",\"_ts\":9,\"a\":1,\"b\":\"two\",\"id\":\"x\"}"
    );
}

#[test]
fn an_attribute_wins_over_a_payload_entry_of_its_key() {
    let document = Document::new(object(vec![("id", Value::from(1)), ("a", Value::from(2))]));
    let flat = document.to_object();
    assert_eq!(flat.get("id"), Some(&Value::from("")));
    assert_eq!(flat.get("a"), Some(&Value::from(2)));
    let back = Document::from_object(flat).unwrap();
    assert_eq!(back.document, object(vec![("a", Value::from(2))]));
}

#[test]
fn round_trip_through_the_flat_object_keeps_the_payload() {
    let payload = object(vec![
        ("payload_field", Value::from(42)),
        ("text", Value::from("t")),
        ("list", Value::from(vec!["a", "b"])),
        ("none", Value::Null),
    ]);
    let document = Document::new(payload.clone());
    let back = Document::from_object(document.to_object()).unwrap();
    assert_eq!(back.document, payload);
    assert_eq!(back.document_attributes, DocumentAttributes::default());
}

#[test]
fn round_trip_through_bytes_keeps_the_payload() {
    let payload = object(vec![
        ("payload_field", Value::from(42)),
        ("negative", Value::from(-7)),
        ("text", Value::from("caf\u{e9} \"quoted\"")),
        ("flag", Value::from(true)),
        ("inner", Value::Object(object(vec![("_self", Value::from("kept"))]))),
    ]);
    let document = Document::new(payload.clone());
    let bytes = serde_json::to_vec(&document.to_object()).unwrap();
    let back = parse(&bytes).unwrap();
    assert_eq!(back.document, payload);
    assert_eq!(back.document_attributes, document.document_attributes);

    let empty = Document::new(JsonObject::new());
    let bytes = serde_json::to_vec(&empty.to_object()).unwrap();
    assert_eq!(
        String::from_utf8(bytes.clone()).unwrap(),
        "{\"_etag\":\"\",\"_self\":\"\",\"_ts\":0,\"id\":\"\"}"
    );
    assert!(parse(&bytes).unwrap().document.is_empty());
}

#[test]
fn round_trip_keeps_the_attributes_of_a_stored_document() {
    let body = b"{\"id\":\"x\",\"_self\":\"dbs/d/colls/c/docs/x/\",\"_etag\":\"v1\",\"_ts\":12,\"payload_field\":42}";
    let document = parse(body).unwrap();
    let bytes = serde_json::to_vec(&document.to_object()).unwrap();
    let back = parse(&bytes).unwrap();
    assert_eq!(back.document_attributes, document.document_attributes);
    assert_eq!(back.document, document.document);
    assert_eq!(back.uri(), "dbs/d/colls/c/docs/x/");
}

#[test]
fn uri_is_the_self_link_by_value_and_by_reference() {
    fn locate<R: Resource>(resource: R) -> String {
        resource.uri().to_owned()
    }
    let document = Document {
        document_attributes: DocumentAttributes::new(
            "x".to_owned(),
            "dbs/d/colls/c/docs/x/".to_owned(),
            String::new(),
            0,
        ),
        document: (),
    };
    assert_eq!(locate(&document), "dbs/d/colls/c/docs/x/");
    assert_eq!(locate(document.clone()), "dbs/d/colls/c/docs/x/");
    assert_eq!(document.uri(), document.document_attributes._self());
}

#[test]
fn parse_error_can_be_shown() {
    let error = parse(b"{\"id\":\"x\"}").unwrap_err();
    assert_eq!(format!("{:?}", error), "MissingField(SelfLink)");
    let error = parse(b"{").unwrap_err();
    assert!(format!("{:?}", error).starts_with("Json("));
}

#[test]
fn well_formed_documents_keep_clear_of_the_attribute_keys() {
    assert!(Document::new(JsonObject::new()).is_well_formed());
    assert!(Document::new(object(vec![("a", Value::from(1)), ("ID", Value::from(2))])).is_well_formed());
    for key in ["id", "_self", "_etag", "_ts"] {
        let document = Document::new(object(vec![("a", Value::from(1)), (key, Value::Null)]));
        assert!(!document.is_well_formed());
    }
    let decoded = parse(b"{\"id\":\"x\",\"_self\":\"s\",\"_etag\":\"e\",\"_ts\":1,\"a\":{\"id\":2}}").unwrap();
    assert!(decoded.is_well_formed());
}
