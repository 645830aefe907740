use book_lookup::attributes::{AttributeMap, AttributeValue};
use book_lookup::book::{BookEntity, DecodeError};
use book_lookup::client::{select_endpoint, StoreEndpoint};
use book_lookup::handler::{book_query, path_id, respond};
use book_lookup::response::{internal_server, not_found, ErrorResponse, ErrorType, Response};
use uuid::Uuid;

const FIXED_ID: &str = "11111111-1111-1111-1111-111111111111";

fn params(pairs: &[(&str, &str)]) -> Vec<(String, String)> {
    pairs.iter().map(|(k, v)| (k.to_string(), v.to_string())).collect()
}

fn header<'a>(r: &'a Response, name: &str) -> Option<&'a str> {
    r.headers.iter().find(|(k, _)| k == name).map(|(_, v)| v.as_str())
}

fn text_of(v: Option<&AttributeValue>) -> Option<String> {
    match v {
        Some(AttributeValue::S(s)) => Some(s.clone()),
        _ => None,
    }
}

/// A stand-in for the store: the items put, looked up by their key.
struct Store {
    items: Vec<AttributeMap>,
}

impl Store {
    fn put(&mut self, item: AttributeMap) {
        self.items.push(item);
    }

    fn get(&self, key: &AttributeMap) -> Option<AttributeMap> {
        let id = text_of(key.get(&"id".to_string()));
        for item in &self.items {
            if text_of(item.get(&"id".to_string())) == id {
                let mut copy = AttributeMap::new();
                for (k, v) in item.entries() {
                    let v = match v {
                        AttributeValue::S(s) => AttributeValue::S(s.clone()),
                        AttributeValue::Other => AttributeValue::Other,
                    };
                    copy.insert(k.clone(), v);
                }
                return Some(copy);
            }
        }
        None
    }

    fn delete(&mut self, key: &AttributeMap) {
        let id = text_of(key.get(&"id".to_string()));
        self.items.retain(|item| text_of(item.get(&"id".to_string())) != id);
    }
}

fn lookup(store: &Store, request_params: &[(&str, &str)], request_id: &str) -> Response {
    let id = path_id(&params(request_params));
    let query = book_query(id);
    assert_eq!(query.table_name, "books");
    respond(request_id.to_string(), Ok(store.get(&query.key)))
}

#[test]
fn hello_handles() {
    let mut store = Store { items: Vec::new() };
    let rust_book = BookEntity::new(Uuid::new_v4().as_u128(), "rust".to_string());
    store.put(rust_book.to_attrs());

    let id = Uuid::from_u128(rust_book.id).to_string();
    let response = lookup(&store, &[("id", &id)], "ctx");

    let body: serde_json::Value = serde_json::from_str(&response.body).expect("Did not work");
    assert_eq!(body["bookTitle"], "rust");
    assert_eq!(response.status, 200);
    assert_eq!(header(&response, "x-foo-bar").unwrap(), "bar");
    assert_eq!(header(&response, "x-bar-baz").unwrap(), "baz");
    store.delete(&rust_book.key());
    assert!(store.items.is_empty());
}

#[test]
fn hello_handles_not_found() {
    let store = Store { items: Vec::new() };
    let response = lookup(&store, &[("id", "foo-bar")], "ctx");

    let body: serde_json::Value = serde_json::from_str(&response.body).expect("Did not work");
    assert_eq!(body["error_type"], "not_found");
    assert!(body.get("error_codes").is_none());
    assert_eq!(response.status, 404);
}

#[test]
fn fixed_record_is_answered_exactly() {
    let mut store = Store { items: Vec::new() };
    let id = Uuid::parse_str(FIXED_ID).unwrap().as_u128();
    let book = BookEntity::new(id, "rust".to_string());
    store.put(book.to_attrs());

    let response = lookup(&store, &[("id", FIXED_ID)], "ctx");
    assert_eq!(response.status, 200);
    assert_eq!(
        response.body,
        "{\"id\":\"11111111-1111-1111-1111-111111111111\",\"bookTitle\":\"rust\"}"
    );
    assert_eq!(
        response.headers,
        vec![
            ("x-foo-bar".to_string(), "bar".to_string()),
            ("x-bar-baz".to_string(), "baz".to_string())
        ]
    );
    store.delete(&book.key());
    assert_eq!(lookup(&store, &[("id", FIXED_ID)], "ctx").status, 404);
}

#[test]
fn unknown_id_is_answered_exactly() {
    let store = Store { items: Vec::new() };
    let response = lookup(&store, &[("id", "foo-bar")], "req-42");
    assert_eq!(response.status, 404);
    assert!(response.headers.is_empty());
    assert_eq!(response.body, "{\"request_id\":\"req-42\",\"error_type\":\"not_found\"}");
}

#[test]
fn missing_id_parameter_is_not_found() {
    let mut store = Store { items: Vec::new() };
    store.put(BookEntity::new(7, "seven".to_string()).to_attrs());
    assert_eq!(path_id(&params(&[("other", "x")])), "");
    let response = lookup(&store, &[("other", "x")], "r");
    assert_eq!(response.status, 404);
}

#[test]
fn first_id_parameter_is_taken() {
    assert_eq!(path_id(&params(&[("a", "1"), ("id", "x"), ("id", "y")])), "x");
    assert_eq!(path_id(&Vec::new()), "");
}

#[test]
fn store_failure_is_internal_server_error() {
    let response = respond("abc".to_string(), Err(()));
    assert_eq!(response.status, 500);
    assert!(response.headers.is_empty());
    assert_eq!(
        response.body,
        "{\"request_id\":\"abc\",\"error_type\":\"internal_server_error\"}"
    );
}

#[test]
fn undecodable_record_is_internal_server_error_with_code() {
    let mut item = AttributeMap::new();
    item.insert("id".to_string(), AttributeValue::S("not-a-uuid".to_string()));
    let response = respond("abc".to_string(), Ok(Some(item)));
    assert_eq!(response.status, 500);
    assert_eq!(
        response.body,
        "{\"request_id\":\"abc\",\"error_type\":\"internal_server_error\",\"error_codes\":[\"invalid_record\"]}"
    );
}

#[test]
fn record_round_trips_through_attributes() {
    let book = BookEntity::new(0xa1a2a3a4b1b2c1c2d1d2d3d4d5d6d7d8, "Dune \"1965\"".to_string());
    let back = BookEntity::from_attrs(&book.to_attrs()).unwrap();
    assert_eq!(back.id, book.id);
    assert_eq!(back.title, book.title);
}

#[test]
fn encoded_identifier_is_canonical_text() {
    let book = BookEntity::new(0xa1a2a3a4b1b2c1c2d1d2d3d4d5d6d7d8, "t".to_string());
    let attrs = book.to_attrs();
    assert_eq!(
        text_of(attrs.get(&"id".to_string())).unwrap(),
        "a1a2a3a4-b1b2-c1c2-d1d2-d3d4d5d6d7d8"
    );
    assert_eq!(text_of(attrs.get(&"bookTitle".to_string())).unwrap(), "t");
    assert_eq!(book.key().entries().len(), 1);
}

#[test]
fn decode_missing_id_fails() {
    let mut item = AttributeMap::new();
    item.insert("bookTitle".to_string(), AttributeValue::S("x".to_string()));
    assert_eq!(BookEntity::from_attrs(&item).err(), Some(DecodeError::MissingField));
}

#[test]
fn decode_id_of_other_kind_fails() {
    let mut item = AttributeMap::new();
    item.insert("id".to_string(), AttributeValue::Other);
    assert_eq!(BookEntity::from_attrs(&item).err(), Some(DecodeError::InvalidType));
}

#[test]
fn decode_bad_uuid_fails() {
    let mut item = AttributeMap::new();
    item.insert("id".to_string(), AttributeValue::S("foo-bar".to_string()));
    assert_eq!(BookEntity::from_attrs(&item).err(), Some(DecodeError::InvalidFormat));
    let mut empty = AttributeMap::new();
    empty.insert("id".to_string(), AttributeValue::S(String::new()));
    assert_eq!(BookEntity::from_attrs(&empty).err(), Some(DecodeError::InvalidFormat));
}

#[test]
fn decode_title_of_other_kind_fails() {
    let mut item = AttributeMap::new();
    item.insert("id".to_string(), AttributeValue::S(FIXED_ID.to_string()));
    item.insert("bookTitle".to_string(), AttributeValue::Other);
    assert_eq!(BookEntity::from_attrs(&item).err(), Some(DecodeError::InvalidType));
}

#[test]
fn decode_absent_title_defaults_to_empty() {
    let mut item = AttributeMap::new();
    item.insert("id".to_string(), AttributeValue::S(FIXED_ID.to_string()));
    let book = BookEntity::from_attrs(&item).unwrap();
    assert_eq!(book.title, "");
    assert_eq!(book.id, 0x11111111111111111111111111111111);
}

#[test]
fn decode_accepts_uppercase_and_simple_uuid_text() {
    let mut item = AttributeMap::new();
    item.insert(
        "id".to_string(),
        AttributeValue::S("A1A2A3A4B1B2C1C2D1D2D3D4D5D6D7D8".to_string()),
    );
    let book = BookEntity::from_attrs(&item).unwrap();
    assert_eq!(book.id, 0xa1a2a3a4b1b2c1c2d1d2d3d4d5d6d7d8);
}

#[test]
fn request_id_is_escaped_in_body() {
    let response = not_found("a\"b".to_string());
    assert_eq!(response.status, 404);
    assert_eq!(response.body, "{\"request_id\":\"a\\\"b\",\"error_type\":\"not_found\"}");
    let response = internal_server("x".to_string());
    assert_eq!(response.status, 500);
}

#[test]
fn error_responses_have_their_kind() {
    let e = ErrorResponse::not_found("r".to_string());
    assert_eq!(e.error_type, ErrorType::NotFound);
    assert_eq!(e.error_codes, None);
    assert_eq!(e.request_id, "r");
    let e = ErrorResponse::internal_server("r".to_string());
    assert_eq!(e.error_type, ErrorType::InternalServerError);
    assert_eq!(e.error_codes, None);
    let e = ErrorResponse::invalid_record("r".to_string());
    assert_eq!(e.error_codes, Some(vec!["invalid_record".to_string()]));
}

#[test]
fn error_codes_are_listed_in_order() {
    let e = ErrorResponse {
        request_id: "r".to_string(),
        error_type: ErrorType::RequestInvalid,
        error_codes: Some(vec!["a".to_string(), "b".to_string()]),
    };
    assert_eq!(
        e.to_json(),
        "{\"request_id\":\"r\",\"error_type\":\"request_invalid\",\"error_codes\":[\"a\",\"b\"]}"
    );
    let e = ErrorResponse {
        request_id: "r".to_string(),
        error_type: ErrorType::RequestUnauthorized,
        error_codes: Some(Vec::new()),
    };
    assert_eq!(
        e.to_json(),
        "{\"request_id\":\"r\",\"error_type\":\"request_unauthorized\",\"error_codes\":[]}"
    );
}

#[test]
fn error_type_names() {
    assert_eq!(ErrorType::RequestInvalid.as_str(), "request_invalid");
    assert_eq!(ErrorType::RequestUnauthorized.as_str(), "request_unauthorized");
    assert_eq!(ErrorType::NotFound.as_str(), "not_found");
    assert_eq!(ErrorType::InternalServerError.as_str(), "internal_server_error");
}

#[test]
fn endpoint_follows_mode_flag() {
    assert_eq!(select_endpoint(Some("live".to_string())), StoreEndpoint::Live);
    assert_eq!(select_endpoint(Some("LIVE".to_string())), StoreEndpoint::Local);
    assert_eq!(select_endpoint(Some("live ".to_string())), StoreEndpoint::Local);
    assert_eq!(select_endpoint(Some(String::new())), StoreEndpoint::Local);
    assert_eq!(select_endpoint(None), StoreEndpoint::Local);
    assert_eq!(StoreEndpoint::Local.address(), Some("http://localhost:8000"));
    assert_eq!(StoreEndpoint::Local.region(), "us-east-1");
    assert_eq!(StoreEndpoint::Live.address(), None);
    assert_eq!(StoreEndpoint::Live.region(), "eu-west-2");
}

#[test]
fn attribute_map_keeps_last_value() {
    let mut m = AttributeMap::new();
    assert!(m.get(&"id".to_string()).is_none());
    m.insert("id".to_string(), AttributeValue::S("a".to_string()));
    m.insert("id".to_string(), AttributeValue::S("b".to_string()));
    assert_eq!(text_of(m.get(&"id".to_string())), Some("b".to_string()));
}

#[test]
fn book_query_keys_by_id() {
    let q = book_query("foo".to_string());
    assert_eq!(q.table_name, "books");
    assert_eq!(text_of(q.key.get(&"id".to_string())), Some("foo".to_string()));
    assert_eq!(q.key.entries().len(), 1);
}
