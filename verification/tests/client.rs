use twilio_rust::decimal::decimal_string;
use twilio_rust::form::encode_form;
use twilio_rust::serde_helper::{
    deserialize_rfc2822, deserialize_str_to_u32, FieldError, JsonField, UtcTimestamp,
};
use twilio_rust::{Client, TwilioError, BASE_URI};

#[test]
fn client_holds_its_credentials() {
    let client = Client::new("ACabc", "SECRET-REDACTED");
    assert_eq!("ACabc", client.account_sid());
    assert_eq!("SECRET-REDACTED", client.auth_token());
    assert_eq!(
        "https://api.twilio.com/2010-04-01/Accounts/ACabc/Usage.json",
        client.account_uri("/Usage.json")
    );
    assert_eq!("https://api.twilio.com", BASE_URI);
}

#[test]
fn only_ok_and_created_are_accepted() {
    assert!(Client::accepts_status(200));
    assert!(Client::accepts_status(201));
    assert!(!Client::accepts_status(202));
    assert!(!Client::accepts_status(204));
    assert!(!Client::accepts_status(404));
    assert!(!Client::accepts_status(500));
}

fn response(status: u16) -> hyper::Response<hyper::Body> {
    hyper::Response::builder().status(status).body(hyper::Body::empty()).unwrap()
}

#[test]
fn check_response_passes_accepted_statuses() {
    assert_eq!(200, Client::check_response(response(200)).unwrap().status().as_u16());
    assert_eq!(201, Client::check_response(response(201)).unwrap().status().as_u16());
    match Client::check_response(response(401)) {
        Err(TwilioError::BadResponse(r)) => assert_eq!(401, r.status().as_u16()),
        _ => panic!("a 401 must be a bad response"),
    }
}

#[test]
fn page_from_response_reads_the_next_page_uri() {
    let path = JsonField::String("/2010-04-01/Accounts/AC1/Calls.json?Page=1&PageSize=5".to_string());
    let page = Client::page_from_response(&path, Some(vec![1, 2, 3])).unwrap();
    assert_eq!(vec![1, 2, 3], page.items);
    assert_eq!(
        Some("https://api.twilio.com/2010-04-01/Accounts/AC1/Calls.json?Page=1&PageSize=5".to_string()),
        page.next_page_uri
    );
    let page = Client::page_from_response(&JsonField::Null, Some(vec![7])).unwrap();
    assert_eq!(None, page.next_page_uri);
    let page = Client::page_from_response(&JsonField::Other, Some(Vec::<u8>::new())).unwrap();
    assert_eq!(None, page.next_page_uri);
    assert!(page.items.is_empty());
    let bad = JsonField::String("/a path with spaces".to_string());
    let page = Client::page_from_response(&bad, Some(vec![1])).unwrap();
    assert_eq!(None, page.next_page_uri);
}

#[test]
fn page_without_items_is_malformed() {
    match Client::page_from_response::<u8>(&JsonField::Null, None) {
        Err(TwilioError::MalformedResponse) => {}
        _ => panic!("a page without items is malformed"),
    }
}

#[test]
fn str_to_u32_field() {
    assert_eq!(None, deserialize_str_to_u32(&JsonField::Null).unwrap());
    assert_eq!(Some(42), deserialize_str_to_u32(&JsonField::String("42".to_string())).unwrap());
    assert_eq!(Some(7), deserialize_str_to_u32(&JsonField::String("+7".to_string())).unwrap());
    assert_eq!(
        Some(4294967295),
        deserialize_str_to_u32(&JsonField::String("4294967295".to_string())).unwrap()
    );
    for bad in ["", "+", "-1", " 1", "1 ", "4294967296", "1.5", "x"] {
        match deserialize_str_to_u32(&JsonField::String(bad.to_string())) {
            Err(FieldError::InvalidNumber(_)) => {}
            _ => panic!("{:?} must be refused", bad),
        }
    }
    match deserialize_str_to_u32(&JsonField::Other) {
        Err(FieldError::ExpectedStringOrNull) => {}
        _ => panic!("a number field must be a string or null"),
    }
}

#[test]
fn decimal_text_reads_back() {
    for n in [0u32, 1, 9, 10, 99, 100, 65535, 4294967295] {
        let text = decimal_string(n as u64);
        assert_eq!(n.to_string(), text);
        assert_eq!(Some(n), deserialize_str_to_u32(&JsonField::String(text)).unwrap());
    }
    assert_eq!("18446744073709551615", decimal_string(u64::MAX));
}

#[test]
fn rfc2822_field() {
    assert_eq!(None, deserialize_rfc2822(&JsonField::Null).unwrap());
    let utc = deserialize_rfc2822(&JsonField::String("Tue, 31 Aug 2010 20:36:28 +0000".to_string()))
        .unwrap();
    assert_eq!(Some(UtcTimestamp { unix_seconds: 1283286988, nanos: 0 }), utc);
    let offset = deserialize_rfc2822(&JsonField::String("Tue, 31 Aug 2010 21:36:28 +0100".to_string()))
        .unwrap();
    assert_eq!(utc, offset);
    match deserialize_rfc2822(&JsonField::String("yesterday".to_string())) {
        Err(FieldError::InvalidDate(_)) => {}
        _ => panic!("not a date"),
    }
    match deserialize_rfc2822(&JsonField::Other) {
        Err(FieldError::ExpectedStringOrNull) => {}
        _ => panic!("a date field must be a string or null"),
    }
}

#[test]
fn encode_form_separates_pairs() {
    assert_eq!("", encode_form(&vec![]));
    assert_eq!("a=b+c&x=%26", encode_form(&vec![("a", "b c"), ("x", "&")]));
    assert_eq!("=&=", encode_form(&vec![("", ""), ("", "")]));
    assert_eq!("*-._09AZaz=%7E%21", encode_form(&vec![("*-._09AZaz", "~!")]));
}

#[test]
fn different_pairs_give_different_bodies() {
    let a = encode_form(&vec![("a", "b&c=d")]);
    let b = encode_form(&vec![("a", "b"), ("c", "d")]);
    let c = encode_form(&vec![("a=b", "")]);
    let d = encode_form(&vec![("a", "=b")]);
    assert_ne!(a, b);
    assert_ne!(c, d);
    assert_eq!("a=b%26c%3Dd", a);
    assert_eq!("a%3Db=", c);
    assert_eq!("a=%3Db", d);
}

#[test]
fn read_page_body_reads_the_two_fields() {
    let body = br#"{"next_page_uri": "/2010-04-01/Accounts/AC1/Calls.json?Page=1", "calls": [{}, {"sid": "CA1"}], "page": 0}"#;
    let (next, entries) = Client::read_page_body(body).unwrap();
    assert_eq!(JsonField::String("/2010-04-01/Accounts/AC1/Calls.json?Page=1".to_string()), next);
    assert_eq!(vec!["{}".to_string(), "{\"sid\":\"CA1\"}".to_string()], entries.unwrap());

    let (next, entries) = Client::read_page_body(br#"{"next_page_uri": null, "calls": []}"#).unwrap();
    assert_eq!(JsonField::Null, next);
    assert_eq!(0, entries.unwrap().len());

    let (next, entries) = Client::read_page_body(br#"{"next_page_uri": 7, "calls": {}}"#).unwrap();
    assert_eq!(JsonField::Other, next);
    assert!(entries.is_none());

    let (next, entries) = Client::read_page_body(b"[1, 2]").unwrap();
    assert_eq!(JsonField::Null, next);
    assert!(entries.is_none());

    match Client::read_page_body(b"not json") {
        Err(TwilioError::Serde(_)) => {}
        _ => panic!("a body that is not JSON is a serde error"),
    }
}

#[test]
fn page_body_without_calls_is_malformed() {
    let (next, entries) = Client::read_page_body(br#"{"next_page_uri": "/x"}"#).unwrap();
    let entries: Option<Vec<u8>> = entries.map(|e| e.iter().map(|_| 0u8).collect());
    match Client::page_from_response(&next, entries) {
        Err(TwilioError::MalformedResponse) => {}
        _ => panic!("a page without calls is malformed"),
    }
}

#[test]
fn read_page_body_keeps_entries_in_order() {
    let body = br#"{"calls": [3, "two", {"a": [1]}, null]}"#;
    let (next, entries) = Client::read_page_body(body).unwrap();
    assert_eq!(JsonField::Null, next);
    assert_eq!(
        vec!["3".to_string(), "\"two\"".to_string(), "{\"a\":[1]}".to_string(), "null".to_string()],
        entries.unwrap()
    );
}

#[test]
fn prepared_requests_carry_headers_and_credentials() {
    let client = Client::new("AC1", "tok");
    let r = client.prepare_request(twilio_rust::HttpMethod::Get, "https://x/".to_string(), None);
    assert_eq!(None, r.content_type);
    assert_eq!(None, r.content_length);
    assert_eq!("AC1", r.username);
    assert_eq!("tok", r.password);
    let r = client.prepare_request(twilio_rust::HttpMethod::Post, "https://x/".to_string(), Some("a=%C3%89".to_string()));
    assert_eq!(Some("application/x-www-form-urlencoded".to_string()), r.content_type);
    assert_eq!(Some(8), r.content_length);
}
