use twilio_rust::calls::{
    CallStatus, Calls, Direction, IntoUrlEncoded, OutboundCall, OutboundCallBuilder,
    StatusCallbackEvent, CallbackMethod,
};
use twilio_rust::urls::Url;
use twilio_rust::{Client, HttpMethod, Page};

#[test]
fn test_callstatus_deserialize() {
    let queued: String = serde_json::from_str("\"queued\"").unwrap();
    assert_eq!(CallStatus::Queued, CallStatus::from_name(&queued).unwrap());
    let in_progress: String = serde_json::from_str("\"in-progress\"").unwrap();
    assert_eq!(CallStatus::InProgress, CallStatus::from_name(&in_progress).unwrap());
}

#[test]
fn test_direction_deserialize() {
    let name: String = serde_json::from_str("\"trunking-terminating\"").unwrap();
    assert_eq!(Direction::TrunkingTerminating, Direction::from_name(&name).unwrap());
}

#[test]
fn test_url_encoding() {
    let url = Url::parse("http://www.example.com").unwrap();
    let outbound_call = OutboundCall::new("tom", "jerry", &url);
    let url_encoded = outbound_call.to_url_encoded();
    assert_eq!("From=tom&To=jerry&Url=http%3A%2F%2Fwww.example.com%2F", url_encoded);
}

#[test]
fn test_status_callback() {
    let url = Url::parse("http://www.example.com").unwrap();
    let events = [StatusCallbackEvent::Answered, StatusCallbackEvent::Ringing];
    let mut outbound_call = OutboundCall::new("tom", "jerry", &url);
    outbound_call.set_status_callback_events(&events);
    let url_encoded = outbound_call.to_url_encoded();
    assert_eq!("From=tom&To=jerry&Url=http%3A%2F%2Fwww.example.com%2F\
        &StatusCallbackEvent=answered&StatusCallbackEvent=ringing", url_encoded);
}

#[test]
fn call_status_names_of_every_variant() {
    let names = ["queued", "ringing", "in-progress", "canceled", "completed", "busy", "failed"];
    let statuses = [
        CallStatus::Queued,
        CallStatus::Ringing,
        CallStatus::InProgress,
        CallStatus::Canceled,
        CallStatus::Completed,
        CallStatus::Busy,
        CallStatus::Failed,
    ];
    for (name, status) in names.iter().zip(statuses.iter()) {
        assert_eq!(Some(*status), CallStatus::from_name(name));
    }
    assert_eq!(None, CallStatus::from_name("in_progress"));
    assert_eq!(None, CallStatus::from_name("Queued"));
    assert_eq!(None, CallStatus::from_name(""));
}

#[test]
fn direction_names_of_every_variant() {
    assert_eq!(Some(Direction::Inbound), Direction::from_name("inbound"));
    assert_eq!(Some(Direction::OutboundApi), Direction::from_name("outbound-api"));
    assert_eq!(Some(Direction::OutboundDial), Direction::from_name("outbound-dial"));
    assert_eq!(Some(Direction::TrunkingOriginating), Direction::from_name("trunking-originating"));
    assert_eq!(None, Direction::from_name("outbound_api"));
}

#[test]
fn callback_method_and_event_names() {
    assert_eq!("POST", CallbackMethod::Post.name());
    assert_eq!("GET", CallbackMethod::Get.name());
    assert_eq!("initiated", StatusCallbackEvent::Initiated.name());
    assert_eq!("ringing", StatusCallbackEvent::Ringing.name());
    assert_eq!("answered", StatusCallbackEvent::Answered.name());
    assert_eq!("completed", StatusCallbackEvent::Completed.name());
}

#[test]
fn builder_writes_every_encoded_field_in_order() {
    let url = Url::parse("https://handler.example.com/twiml?x=1").unwrap();
    let fallback = Url::parse("https://www.example.com").unwrap();
    let status = Url::parse("https://status.example.com/cb").unwrap();
    let events = [StatusCallbackEvent::Initiated, StatusCallbackEvent::Completed];
    let call = OutboundCallBuilder::new("+15103674994", "+19493102155", &url)
        .with_method(CallbackMethod::Get)
        .with_fallback_url(&fallback)
        .with_fallback_method(CallbackMethod::Post)
        .with_status_callback(&status)
        .with_status_callback_events(&events)
        .build();
    assert_eq!(
        "From=%2B15103674994&To=%2B19493102155\
         &Url=https%3A%2F%2Fhandler.example.com%2Ftwiml%3Fx%3D1\
         &Method=GET&FallbackUrl=https%3A%2F%2Fwww.example.com%2F&FallbackMethod=POST\
         &StatusCallback=https%3A%2F%2Fstatus.example.com%2Fcb\
         &StatusCallbackEvent=initiated&StatusCallbackEvent=completed",
        call.to_url_encoded()
    );
}

#[test]
fn fresh_builder_builds_the_plain_call() {
    let url = Url::parse("http://www.example.com").unwrap();
    let built = OutboundCallBuilder::new("tom", "jerry", &url).build();
    let direct = OutboundCall::new("tom", "jerry", &url);
    assert_eq!(direct.to_url_encoded(), built.to_url_encoded());
}

#[test]
fn application_sid_source_and_unencoded_fields() {
    let url = Url::parse("http://www.example.com").unwrap();
    let mut call = OutboundCall::new("a b", "c&d", &url);
    call.twiml_source = twilio_rust::calls::TwimlSource::ApplicationSid("AP42");
    call.send_digits = Some("1234#");
    call.timeout = Some(30);
    call.record = Some(true);
    assert_eq!("From=a+b&To=c%26d&ApplicationSid=AP42&SendDigits=1234%23", call.to_url_encoded());
}

#[test]
fn call_requests() {
    let client = Client::new("AC123", "secret");
    let calls = Calls::new(&client);
    let r = calls.get_call("CA166b");
    assert_eq!(HttpMethod::Get, r.method);
    assert_eq!("https://api.twilio.com/2010-04-01/Accounts/AC123/Calls/CA166b.json", r.uri);
    assert!(r.form_body.is_none());

    let r = calls.get_calls();
    assert_eq!(HttpMethod::Get, r.method);
    assert_eq!("https://api.twilio.com/2010-04-01/Accounts/AC123/Calls.json", r.uri);

    let r = calls.get_calls_with_page_size(5);
    assert_eq!("https://api.twilio.com/2010-04-01/Accounts/AC123/Calls.json?PageSize=5", r.uri);
    let r = calls.get_calls_with_page_size(0);
    assert_eq!("https://api.twilio.com/2010-04-01/Accounts/AC123/Calls.json?PageSize=0", r.uri);
    let r = calls.get_calls_with_page_size(65535);
    assert_eq!("https://api.twilio.com/2010-04-01/Accounts/AC123/Calls.json?PageSize=65535", r.uri);

    let url = Url::parse("http://www.example.com").unwrap();
    let call = OutboundCall::new("tom", "jerry", &url);
    let r = calls.make_call(&call);
    assert_eq!(HttpMethod::Post, r.method);
    assert_eq!("https://api.twilio.com/2010-04-01/Accounts/AC123/Calls.json", r.uri);
    assert_eq!(
        Some("From=tom&To=jerry&Url=http%3A%2F%2Fwww.example.com%2F".to_string()),
        r.form_body
    );
}

#[test]
fn next_page_request_follows_the_page() {
    let client = Client::new("AC123", "secret");
    let calls = Calls::new(&client);
    let last: Page<twilio_rust::calls::Call> = Page { items: Vec::new(), next_page_uri: None };
    assert!(calls.get_next_page(&last).is_none());
    let more: Page<twilio_rust::calls::Call> = Page {
        items: Vec::new(),
        next_page_uri: Some("https://api.twilio.com/2010-04-01/Accounts/AC123/Calls.json?Page=1".to_string()),
    };
    let r = calls.get_next_page(&more).unwrap();
    assert_eq!(HttpMethod::Get, r.method);
    assert_eq!("https://api.twilio.com/2010-04-01/Accounts/AC123/Calls.json?Page=1", r.uri);
    assert!(r.form_body.is_none());
}

#[test]
fn url_parse_refuses_relative_urls() {
    assert!(Url::parse("not a url").is_err());
    assert!(Url::parse("/relative/path").is_err());
    assert_eq!("http://www.example.com/", Url::parse("http://www.example.com").unwrap().as_str());
}

#[test]
fn checked_requests_refuse_uris_hyper_refuses() {
    let client = Client::new("AC123", "secret");
    let calls = Calls::new(&client);
    let r = calls.try_get_call("CA1").unwrap();
    assert_eq!(HttpMethod::Get, r.method);
    assert_eq!("https://api.twilio.com/2010-04-01/Accounts/AC123/Calls/CA1.json", r.uri);
    assert!(calls.try_get_call("CA 1").is_none());
    assert!(calls.try_get_calls().is_some());
    assert_eq!(
        "https://api.twilio.com/2010-04-01/Accounts/AC123/Calls.json?PageSize=20",
        calls.try_get_calls_with_page_size(20).unwrap().uri
    );
    let url = Url::parse("http://www.example.com").unwrap();
    let call = OutboundCall::new("tom", "jerry", &url);
    let r = calls.try_make_call(&call).unwrap();
    assert_eq!(HttpMethod::Post, r.method);
    assert_eq!(Some("From=tom&To=jerry&Url=http%3A%2F%2Fwww.example.com%2F".to_string()), r.form_body);

    let spaced = Client::new("AC 123", "secret");
    let calls = Calls::new(&spaced);
    assert!(calls.try_get_calls().is_none());
    assert!(calls.try_get_calls_with_page_size(5).is_none());
    assert!(calls.try_make_call(&call).is_none());
}

#[test]
fn setter_order_does_not_matter() {
    let url = Url::parse("http://www.example.com").unwrap();
    let fallback = Url::parse("http://fallback.example.com").unwrap();
    let events = [StatusCallbackEvent::Answered];
    let one = OutboundCallBuilder::new("a", "b", &url)
        .with_method(CallbackMethod::Post)
        .with_fallback_url(&fallback)
        .with_status_callback_events(&events)
        .build();
    let two = OutboundCallBuilder::new("a", "b", &url)
        .with_status_callback_events(&events)
        .with_fallback_url(&fallback)
        .with_method(CallbackMethod::Get)
        .with_method(CallbackMethod::Post)
        .build();
    assert_eq!(one.to_url_encoded(), two.to_url_encoded());
}

#[test]
fn checked_next_page_request() {
    let client = Client::new("AC123", "secret");
    let calls = Calls::new(&client);
    let last: Page<twilio_rust::calls::Call> = Page { items: Vec::new(), next_page_uri: None };
    assert!(calls.try_get_next_page(&last).unwrap().is_none());
    let more: Page<twilio_rust::calls::Call> = Page {
        items: Vec::new(),
        next_page_uri: Some("https://api.twilio.com/2010-04-01/Accounts/AC123/Calls.json?Page=1".to_string()),
    };
    let r = calls.try_get_next_page(&more).unwrap().unwrap();
    assert_eq!("https://api.twilio.com/2010-04-01/Accounts/AC123/Calls.json?Page=1", r.uri);
    let bad: Page<twilio_rust::calls::Call> = Page {
        items: Vec::new(),
        next_page_uri: Some("https://api.twilio.com/a page".to_string()),
    };
    assert!(calls.try_get_next_page(&bad).is_none());
}

#[test]
fn call_requests_carry_credentials() {
    let client = Client::new("AC1", "tok");
    let calls = Calls::new(&client);
    let r = calls.get_call("CA123");
    assert_eq!("https://api.twilio.com/2010-04-01/Accounts/AC1/Calls/CA123.json", r.uri);
    assert_eq!(("AC1", "tok"), (r.username.as_str(), r.password.as_str()));
    assert_eq!(None, r.content_type);
    assert_eq!(None, r.content_length);
    let url = Url::parse("http://www.example.com").unwrap();
    let call = OutboundCall::new("tom", "jerry", &url);
    let r = calls.make_call(&call);
    assert_eq!(Some("application/x-www-form-urlencoded".to_string()), r.content_type);
    assert_eq!(Some(53), r.content_length);
    assert_eq!(("AC1", "tok"), (r.username.as_str(), r.password.as_str()));
    let page: Page<twilio_rust::calls::Call> = Page {
        items: Vec::new(),
        next_page_uri: Some("https://api.twilio.com/2010-04-01/Accounts/AC1/Calls.json?Page=1".to_string()),
    };
    let r = calls.get_next_page(&page).unwrap();
    assert_eq!(("AC1", "tok"), (r.username.as_str(), r.password.as_str()));
}
