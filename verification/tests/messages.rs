use twilio_rust::messages::{
    MessageDirection, MessageFrom, MessageStatus, Messages, OutboundMessageBuilder,
};
use twilio_rust::urls::Url;
use twilio_rust::{Client, HttpMethod, ToUrlEncoded};

#[test]
fn sms_from_the_readme_example() {
    let sms = OutboundMessageBuilder::new_sms(
        MessageFrom::From("+14088377998"),
        "+19493102155",
        "Hi from rust!",
    )
    .build();
    assert_eq!("To=%2B19493102155&From=%2B14088377998&Body=Hi+from+rust%21", sms.to_url_encoded());
}

#[test]
fn message_with_every_parameter() {
    let media = Url::parse("https://example.com/cat.png").unwrap();
    let callback = Url::parse("https://example.com/cb").unwrap();
    let message = OutboundMessageBuilder::new_mms(MessageFrom::MessagingServiceSid("MG1"), "+1", &media)
        .with_status_callback(&callback)
        .with_application_sid("AP1")
        .with_max_price("0.5")
        .with_provide_feedback(true)
        .with_validity_period(3600)
        .build();
    assert_eq!(
        "To=%2B1&MessagingServiceSid=MG1&MediaUrl=https%3A%2F%2Fexample.com%2Fcat.png\
         &StatusCallback=https%3A%2F%2Fexample.com%2Fcb&ApplicationSid=AP1&MaxPrice=0.5\
         &ProvideFeedback=true&ValidityPeriod=3600",
        message.to_url_encoded()
    );
}

#[test]
fn feedback_turned_off_again_is_not_written() {
    let message = OutboundMessageBuilder::new_sms(MessageFrom::From("a"), "b", "c")
        .with_provide_feedback(true)
        .with_provide_feedback(false)
        .with_validity_period(0)
        .build();
    assert_eq!("To=b&From=a&Body=c&ValidityPeriod=0", message.to_url_encoded());
}

#[test]
fn largest_validity_period() {
    let message = OutboundMessageBuilder::new_sms(MessageFrom::From("a"), "b", "c")
        .with_validity_period(u32::MAX)
        .build();
    assert_eq!("To=b&From=a&Body=c&ValidityPeriod=4294967295", message.to_url_encoded());
}

#[test]
fn send_message_request() {
    let client = Client::new("AC9", "token");
    let messages = Messages::new(&client);
    let message = OutboundMessageBuilder::new_sms(MessageFrom::From("x"), "y", "hello world").build();
    let r = messages.send_message(&message);
    assert_eq!(HttpMethod::Post, r.method);
    assert_eq!("https://api.twilio.com/2010-04-01/Accounts/AC9/Messages.json", r.uri);
    assert_eq!(Some("To=y&From=x&Body=hello+world".to_string()), r.form_body);
}

#[test]
fn message_status_and_direction_names() {
    let names = [
        "accepted", "queued", "sending", "sent", "failed", "delivered", "undelivered",
        "receiving", "received",
    ];
    let statuses = [
        MessageStatus::Accepted,
        MessageStatus::Queued,
        MessageStatus::Sending,
        MessageStatus::Sent,
        MessageStatus::Failed,
        MessageStatus::Delivered,
        MessageStatus::Undelivered,
        MessageStatus::Receiving,
        MessageStatus::Received,
    ];
    for (name, status) in names.iter().zip(statuses.iter()) {
        assert_eq!(Some(*status), MessageStatus::from_name(name));
    }
    assert_eq!(None, MessageStatus::from_name("read"));
    assert_eq!(Some(MessageDirection::Inbound), MessageDirection::from_name("inbound"));
    assert_eq!(Some(MessageDirection::OutboundApi), MessageDirection::from_name("outbound-api"));
    assert_eq!(Some(MessageDirection::OutboundCall), MessageDirection::from_name("outbound-call"));
    assert_eq!(Some(MessageDirection::OutboundReply), MessageDirection::from_name("outbound-reply"));
    assert_eq!(None, MessageDirection::from_name("outbound"));
}

#[test]
fn form_body_is_ascii_for_any_text() {
    let message = OutboundMessageBuilder::new_sms(MessageFrom::From("Été+hiver"), "黑风", "👋 & =").build();
    let body = message.to_url_encoded();
    assert!(body.is_ascii());
    assert_eq!(
        "To=%E9%BB%91%E9%A3%8E&From=%C3%89t%C3%A9%2Bhiver&Body=%F0%9F%91%8B+%26+%3D",
        body
    );
}

#[test]
fn checked_send_message_refuses_uris_hyper_refuses() {
    let message = OutboundMessageBuilder::new_sms(MessageFrom::From("x"), "y", "z").build();
    let client = Client::new("AC9", "token");
    let r = Messages::new(&client).try_send_message(&message).unwrap();
    assert_eq!(HttpMethod::Post, r.method);
    assert_eq!("https://api.twilio.com/2010-04-01/Accounts/AC9/Messages.json", r.uri);
    assert_eq!(Some("To=y&From=x&Body=z".to_string()), r.form_body);
    let spaced = Client::new("AC 9", "token");
    assert!(Messages::new(&spaced).try_send_message(&message).is_none());
}

#[test]
fn send_message_request_headers() {
    let client = Client::new("AC1", "tok");
    let messages = Messages::new(&client);
    let message = OutboundMessageBuilder::new_sms(
        MessageFrom::From("+14088377998"),
        "+19493102155",
        "Hi from rust!",
    )
    .build();
    let r = messages.send_message(&message);
    assert_eq!(HttpMethod::Post, r.method);
    assert_eq!("https://api.twilio.com/2010-04-01/Accounts/AC1/Messages.json", r.uri);
    assert_eq!(
        Some("To=%2B19493102155&From=%2B14088377998&Body=Hi+from+rust%21".to_string()),
        r.form_body
    );
    assert_eq!(Some("application/x-www-form-urlencoded".to_string()), r.content_type);
    assert_eq!(Some(58), r.content_length);
    assert_eq!("AC1", r.username);
    assert_eq!("tok", r.password);
}
