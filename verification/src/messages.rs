//! Messages: the message resource, outbound SMS and MMS and their form
//! encoding, and the request that sends one.
use vstd::prelude::*;
use vstd::string::StringExecFns;

use crate::calls::{
    lemma_optional_pair_values, optional_pair, optional_str, optional_url, push_optional, str_eq,
    str_values, url_values,
};
use crate::decimal::{decimal, decimal_string};
use crate::form::{
    encode_form, form_encode, lemma_form_encode_injective, lemma_values_named_add,
    lemma_values_named_one, pairs_view, values_named,
};
use crate::serde_helper::UtcTimestamp;
use crate::urls::{uri_accepts, uri_parses, Url};
use crate::{is_form_request, ApiRequest, Client, HttpMethod, ToUrlEncoded};

verus! {

/// The Messages API of one account.
pub struct Messages<'a> {
    client: &'a Client,
}

/// The state of a message.
#[derive(Debug, Clone, Copy, PartialEq, Eq, Structural)]
pub enum MessageStatus {
    Accepted,
    Queued,
    Sending,
    Sent,
    Failed,
    Delivered,
    Undelivered,
    Receiving,
    Received,
}

/// The status that the API names `name`: the variant's name in lower case.
pub open spec fn message_status_named(name: Seq<char>) -> Option<MessageStatus> {
    if name == "accepted"@ {
        Some(MessageStatus::Accepted)
    } else if name == "queued"@ {
        Some(MessageStatus::Queued)
    } else if name == "sending"@ {
        Some(MessageStatus::Sending)
    } else if name == "sent"@ {
        Some(MessageStatus::Sent)
    } else if name == "failed"@ {
        Some(MessageStatus::Failed)
    } else if name == "delivered"@ {
        Some(MessageStatus::Delivered)
    } else if name == "undelivered"@ {
        Some(MessageStatus::Undelivered)
    } else if name == "receiving"@ {
        Some(MessageStatus::Receiving)
    } else if name == "received"@ {
        Some(MessageStatus::Received)
    } else {
        None
    }
}

impl MessageStatus {
    /// The status that the API names `name`, if any.
    pub fn from_name(name: &str) -> (status: Option<MessageStatus>)
        ensures
            status == message_status_named(name@),
    {
        if str_eq(name, "accepted") {
            Some(MessageStatus::Accepted)
        } else if str_eq(name, "queued") {
            Some(MessageStatus::Queued)
        } else if str_eq(name, "sending") {
            Some(MessageStatus::Sending)
        } else if str_eq(name, "sent") {
            Some(MessageStatus::Sent)
        } else if str_eq(name, "failed") {
            Some(MessageStatus::Failed)
        } else if str_eq(name, "delivered") {
            Some(MessageStatus::Delivered)
        } else if str_eq(name, "undelivered") {
            Some(MessageStatus::Undelivered)
        } else if str_eq(name, "receiving") {
            Some(MessageStatus::Receiving)
        } else if str_eq(name, "received") {
            Some(MessageStatus::Received)
        } else {
            None
        }
    }
}

/// Where a message came from or went to.
#[derive(Debug, Clone, Copy, PartialEq, Eq, Structural)]
pub enum MessageDirection {
    Inbound,
    OutboundApi,
    OutboundCall,
    OutboundReply,
}

/// The direction that the API names `name`: the variant's name in kebab case.
pub open spec fn message_direction_named(name: Seq<char>) -> Option<MessageDirection> {
    if name == "inbound"@ {
        Some(MessageDirection::Inbound)
    } else if name == "outbound-api"@ {
        Some(MessageDirection::OutboundApi)
    } else if name == "outbound-call"@ {
        Some(MessageDirection::OutboundCall)
    } else if name == "outbound-reply"@ {
        Some(MessageDirection::OutboundReply)
    } else {
        None
    }
}

impl MessageDirection {
    /// The direction that the API names `name`, if any.
    pub fn from_name(name: &str) -> (direction: Option<MessageDirection>)
        ensures
            direction == message_direction_named(name@),
    {
        if str_eq(name, "inbound") {
            Some(MessageDirection::Inbound)
        } else if str_eq(name, "outbound-api") {
            Some(MessageDirection::OutboundApi)
        } else if str_eq(name, "outbound-call") {
            Some(MessageDirection::OutboundCall)
        } else if str_eq(name, "outbound-reply") {
            Some(MessageDirection::OutboundReply)
        } else {
            None
        }
    }
}

/// A message, as the API describes it.
pub struct Message {
    pub sid: String,
    pub account_sid: String,
    pub messaging_service_sid: Option<String>,
    pub from: String,
    pub to: String,
    pub body: String,
    pub num_segments: Option<u32>,
    pub status: MessageStatus,
    pub error_code: Option<String>,
    pub error_message: Option<String>,
    pub direction: MessageDirection,
    pub price: Option<String>,
    pub price_unit: Option<String>,
    pub date_created: Option<UtcTimestamp>,
    pub date_updated: Option<UtcTimestamp>,
    pub date_sent: Option<UtcTimestamp>,
}

/// What a message carries: a text (SMS) or the URL of a medium (MMS).
#[derive(Clone, Copy)]
pub enum MessageBody<'a> {
    SMS(&'a str),
    MMS(&'a Url),
}

/// Who sends a message: a phone number, or a messaging service.
#[derive(Clone, Copy)]
pub enum MessageFrom<'a> {
    From(&'a str),
    MessagingServiceSid(&'a str),
}

/// A message to send.
#[derive(Clone, Copy)]
pub struct OutboundMessage<'a> {
    pub to: &'a str,
    pub from: MessageFrom<'a>,
    pub body: MessageBody<'a>,
    pub status_callback: Option<&'a Url>,
    pub application_sid: Option<&'a str>,
    pub max_price: Option<&'a str>,
    pub provide_feedback: bool,
    pub validity_period: Option<u32>,
}

/// Builds an `OutboundMessage` one parameter at a time.
pub struct OutboundMessageBuilder<'a> {
    pub to: &'a str,
    pub from: MessageFrom<'a>,
    pub body: MessageBody<'a>,
    pub status_callback: Option<&'a Url>,
    pub application_sid: Option<&'a str>,
    pub max_price: Option<&'a str>,
    pub provide_feedback: bool,
    pub validity_period: Option<u32>,
}

/// The form field naming the sender: `From` or `MessagingServiceSid`.
pub open spec fn message_from_pair(from: MessageFrom) -> (Seq<char>, Seq<char>) {
    match from {
        MessageFrom::From(x) => ("From"@, x@),
        MessageFrom::MessagingServiceSid(x) => ("MessagingServiceSid"@, x@),
    }
}

/// The form field holding the content: `Body` or `MediaUrl`.
pub open spec fn message_body_pair(body: MessageBody) -> (Seq<char>, Seq<char>) {
    match body {
        MessageBody::SMS(x) => ("Body"@, x@),
        MessageBody::MMS(x) => ("MediaUrl"@, x@),
    }
}

/// The decimal text of an optional number.
pub open spec fn optional_decimal(n: Option<u32>) -> Option<Seq<char>> {
    match n {
        Some(v) => Some(decimal(v as nat)),
        None => None,
    }
}

impl<'a> OutboundMessage<'a> {
    /// The form fields of the message, in the order they are written: `To`,
    /// `From` or `MessagingServiceSid`, `Body` or `MediaUrl`, then
    /// `StatusCallback`, `ApplicationSid` and `MaxPrice` where set,
    /// `ProvideFeedback=true` where feedback is asked for, and
    /// `ValidityPeriod` in decimal where set.
    pub open spec fn form_pairs(&self) -> Seq<(Seq<char>, Seq<char>)> {
        seq![("To"@, self.to@), message_from_pair(self.from), message_body_pair(self.body)]
            + optional_pair("StatusCallback"@, optional_url(self.status_callback))
            + optional_pair("ApplicationSid"@, optional_str(self.application_sid))
            + optional_pair("MaxPrice"@, optional_str(self.max_price))
            + (if self.provide_feedback {
            seq![("ProvideFeedback"@, "true"@)]
        } else {
            Seq::empty()
        }) + optional_pair("ValidityPeriod"@, optional_decimal(self.validity_period))
    }
}

/// An optional number in decimal, as a list of zero or one text.
pub open spec fn decimal_values(n: Option<u32>) -> Seq<Seq<char>> {
    match n {
        Some(v) => seq![decimal(v as nat)],
        None => Seq::empty(),
    }
}

/// The values named `name` in a message's form fields, piece by piece.
proof fn lemma_message_values(m: OutboundMessage, name: Seq<char>)
    ensures
        values_named(m.form_pairs(), name) == (if "To"@ == name {
            seq![m.to@]
        } else {
            Seq::<Seq<char>>::empty()
        }) + (if message_from_pair(m.from).0 == name {
            seq![message_from_pair(m.from).1]
        } else {
            Seq::<Seq<char>>::empty()
        }) + (if message_body_pair(m.body).0 == name {
            seq![message_body_pair(m.body).1]
        } else {
            Seq::<Seq<char>>::empty()
        }) + (if "StatusCallback"@ == name {
            url_values(m.status_callback)
        } else {
            Seq::<Seq<char>>::empty()
        }) + (if "ApplicationSid"@ == name {
            str_values(m.application_sid)
        } else {
            Seq::<Seq<char>>::empty()
        }) + (if "MaxPrice"@ == name {
            str_values(m.max_price)
        } else {
            Seq::<Seq<char>>::empty()
        }) + (if "ProvideFeedback"@ == name && m.provide_feedback {
            seq!["true"@]
        } else {
            Seq::<Seq<char>>::empty()
        }) + (if "ValidityPeriod"@ == name {
            decimal_values(m.validity_period)
        } else {
            Seq::<Seq<char>>::empty()
        }),
{
    let p0 = seq![("To"@, m.to@)];
    let p1 = seq![message_from_pair(m.from)];
    let p2 = seq![message_body_pair(m.body)];
    let q0 = optional_pair("StatusCallback"@, optional_url(m.status_callback));
    let q1 = optional_pair("ApplicationSid"@, optional_str(m.application_sid));
    let q2 = optional_pair("MaxPrice"@, optional_str(m.max_price));
    let q3 = if m.provide_feedback {
        seq![("ProvideFeedback"@, "true"@)]
    } else {
        Seq::<(Seq<char>, Seq<char>)>::empty()
    };
    let q4 = optional_pair("ValidityPeriod"@, optional_decimal(m.validity_period));
    assert(seq![("To"@, m.to@), message_from_pair(m.from), message_body_pair(m.body)] =~= p0 + p1 + p2);
    assert(m.form_pairs() == p0 + p1 + p2 + q0 + q1 + q2 + q3 + q4);
    lemma_values_named_add(p0, p1, name);
    lemma_values_named_add(p0 + p1, p2, name);
    lemma_values_named_add(p0 + p1 + p2, q0, name);
    lemma_values_named_add(p0 + p1 + p2 + q0, q1, name);
    lemma_values_named_add(p0 + p1 + p2 + q0 + q1, q2, name);
    lemma_values_named_add(p0 + p1 + p2 + q0 + q1 + q2, q3, name);
    lemma_values_named_add(p0 + p1 + p2 + q0 + q1 + q2 + q3, q4, name);
    lemma_values_named_one("To"@, m.to@, name);
    lemma_values_named_one(message_from_pair(m.from).0, message_from_pair(m.from).1, name);
    lemma_values_named_one(message_body_pair(m.body).0, message_body_pair(m.body).1, name);
    lemma_optional_pair_values("StatusCallback"@, optional_url(m.status_callback), name);
    lemma_optional_pair_values("ApplicationSid"@, optional_str(m.application_sid), name);
    lemma_optional_pair_values("MaxPrice"@, optional_str(m.max_price), name);
    lemma_values_named_one("ProvideFeedback"@, "true"@, name);
    assert(values_named(Seq::<(Seq<char>, Seq<char>)>::empty(), name) == Seq::<Seq<char>>::empty());
    lemma_optional_pair_values("ValidityPeriod"@, optional_decimal(m.validity_period), name);
}

/// Read back as name/value pairs, the form body of any message starts with
/// `To`, then the sender (`From` for a number, `MessagingServiceSid` for a
/// messaging service, whatever the content), then the content (`Body` for
/// an SMS, `MediaUrl` for an MMS), and holds under each name exactly what
/// the message was given: `ProvideFeedback=true` only where feedback is
/// asked for, and the validity period in decimal where it is set.
pub proof fn lemma_message_body_read_back(m: OutboundMessage, pairs: Seq<(Seq<char>, Seq<char>)>)
    requires
        form_encode(pairs) == form_encode(m.form_pairs()),
    ensures
        pairs.len() >= 3,
        pairs[0] == ("To"@, m.to@),
        pairs[1] == (match m.from {
            MessageFrom::From(x) => ("From"@, x@),
            MessageFrom::MessagingServiceSid(x) => ("MessagingServiceSid"@, x@),
        }),
        pairs[2] == (match m.body {
            MessageBody::SMS(x) => ("Body"@, x@),
            MessageBody::MMS(u) => ("MediaUrl"@, u@),
        }),
        values_named(pairs, "To"@) == seq![m.to@],
        values_named(pairs, "From"@) == (match m.from {
            MessageFrom::From(x) => seq![x@],
            MessageFrom::MessagingServiceSid(_) => Seq::<Seq<char>>::empty(),
        }),
        values_named(pairs, "MessagingServiceSid"@) == (match m.from {
            MessageFrom::From(_) => Seq::<Seq<char>>::empty(),
            MessageFrom::MessagingServiceSid(x) => seq![x@],
        }),
        values_named(pairs, "Body"@) == (match m.body {
            MessageBody::SMS(x) => seq![x@],
            MessageBody::MMS(_) => Seq::<Seq<char>>::empty(),
        }),
        values_named(pairs, "MediaUrl"@) == (match m.body {
            MessageBody::SMS(_) => Seq::<Seq<char>>::empty(),
            MessageBody::MMS(u) => seq![u@],
        }),
        values_named(pairs, "StatusCallback"@) == url_values(m.status_callback),
        values_named(pairs, "ApplicationSid"@) == str_values(m.application_sid),
        values_named(pairs, "MaxPrice"@) == str_values(m.max_price),
        values_named(pairs, "ProvideFeedback"@) == (if m.provide_feedback {
            seq!["true"@]
        } else {
            Seq::<Seq<char>>::empty()
        }),
        values_named(pairs, "ValidityPeriod"@) == decimal_values(m.validity_period),
{
    lemma_form_encode_injective(pairs, m.form_pairs());
    reveal_strlit("To");
    reveal_strlit("From");
    reveal_strlit("MessagingServiceSid");
    reveal_strlit("Body");
    reveal_strlit("MediaUrl");
    reveal_strlit("StatusCallback");
    reveal_strlit("ApplicationSid");
    reveal_strlit("MaxPrice");
    reveal_strlit("ProvideFeedback");
    reveal_strlit("ValidityPeriod");
    assert("To"@.len() == 2);
    assert("From"@.len() == 4);
    assert("MessagingServiceSid"@.len() == 19);
    assert("Body"@.len() == 4);
    assert("MediaUrl"@.len() == 8);
    assert("StatusCallback"@.len() == 14);
    assert("ApplicationSid"@.len() == 14);
    assert("MaxPrice"@.len() == 8);
    assert("ProvideFeedback"@.len() == 15);
    assert("ValidityPeriod"@.len() == 14);
    assert("StatusCallback"@[0] == 'S');
    assert("ProvideFeedback"@[0] == 'P');
    assert("ApplicationSid"@[0] == 'A');
    assert("ValidityPeriod"@[0] == 'V');
    assert("From"@[0] == 'F');
    assert("Body"@[0] == 'B');
    assert("MaxPrice"@[1] == 'a');
    assert("MediaUrl"@[1] == 'e');
    let e = Seq::<Seq<char>>::empty();
    assert(e + e =~= e);
    lemma_message_values(m, "To"@);
    assert(values_named(pairs, "To"@) =~= seq![m.to@]);
    lemma_message_values(m, "From"@);
    assert(values_named(pairs, "From"@) =~= values_named(m.form_pairs(), "From"@));
    lemma_message_values(m, "MessagingServiceSid"@);
    assert(values_named(pairs, "MessagingServiceSid"@) =~= values_named(m.form_pairs(), "MessagingServiceSid"@));
    lemma_message_values(m, "Body"@);
    assert(values_named(pairs, "Body"@) =~= values_named(m.form_pairs(), "Body"@));
    lemma_message_values(m, "MediaUrl"@);
    assert(values_named(pairs, "MediaUrl"@) =~= values_named(m.form_pairs(), "MediaUrl"@));
    lemma_message_values(m, "StatusCallback"@);
    assert(values_named(pairs, "StatusCallback"@) =~= url_values(m.status_callback));
    lemma_message_values(m, "ApplicationSid"@);
    assert(values_named(pairs, "ApplicationSid"@) =~= str_values(m.application_sid));
    lemma_message_values(m, "MaxPrice"@);
    assert(values_named(pairs, "MaxPrice"@) =~= str_values(m.max_price));
    lemma_message_values(m, "ProvideFeedback"@);
    assert(values_named(pairs, "ProvideFeedback"@) =~= values_named(m.form_pairs(), "ProvideFeedback"@));
    lemma_message_values(m, "ValidityPeriod"@);
    assert(values_named(pairs, "ValidityPeriod"@) =~= decimal_values(m.validity_period));
}

impl<'a> ToUrlEncoded for OutboundMessage<'a> {
    /// The message's form body: its form fields, serialized in order.
    fn to_url_encoded(&self) -> (text: String)
        ensures
            text@ == form_encode(self.form_pairs()),
    {
        let validity: Option<String> = match self.validity_period {
            Some(v) => Some(decimal_string(v as u64)),
            None => None,
        };
        let mut pairs: Vec<(&str, &str)> = Vec::new();
        pairs.push(("To", self.to));
        let (name, value) = match self.from {
            MessageFrom::From(x) => ("From", x),
            MessageFrom::MessagingServiceSid(x) => ("MessagingServiceSid", x),
        };
        pairs.push((name, value));
        let (name, value) = match self.body {
            MessageBody::SMS(x) => ("Body", x),
            MessageBody::MMS(x) => ("MediaUrl", x.as_str()),
        };
        pairs.push((name, value));
        assert(pairs_view(pairs@) =~= seq![
            ("To"@, self.to@),
            message_from_pair(self.from),
            message_body_pair(self.body),
        ]);
        let status_callback = match self.status_callback {
            Some(u) => Some(u.as_str()),
            None => None,
        };
        push_optional(&mut pairs, "StatusCallback", status_callback);
        push_optional(&mut pairs, "ApplicationSid", self.application_sid);
        push_optional(&mut pairs, "MaxPrice", self.max_price);
        let feedback = if self.provide_feedback {
            Some("true")
        } else {
            None
        };
        push_optional(&mut pairs, "ProvideFeedback", feedback);
        let validity_text = match &validity {
            Some(v) => Some(v.as_str()),
            None => None,
        };
        push_optional(&mut pairs, "ValidityPeriod", validity_text);
        assert(pairs_view(pairs@) =~= self.form_pairs());
        encode_form(&pairs)
    }
}

impl<'a> OutboundMessageBuilder<'a> {
    /// The builder that `new_sms` and `new_mms` make.
    pub open spec fn spec_new(from: MessageFrom<'a>, to: &'a str, body: MessageBody<'a>) -> Self {
        OutboundMessageBuilder {
            from,
            to,
            body,
            status_callback: None,
            application_sid: None,
            max_price: None,
            provide_feedback: false,
            validity_period: None,
        }
    }

    /// The message that `build` makes: every parameter as the builder holds it.
    pub open spec fn spec_build(self) -> OutboundMessage<'a> {
        OutboundMessage {
            from: self.from,
            to: self.to,
            body: self.body,
            status_callback: self.status_callback,
            application_sid: self.application_sid,
            max_price: self.max_price,
            provide_feedback: self.provide_feedback,
            validity_period: self.validity_period,
        }
    }

    /// The builder with `status_callback` set and every other parameter kept.
    pub open spec fn spec_with_status_callback(self, url: &'a Url) -> Self {
        OutboundMessageBuilder { status_callback: Some(url), ..self }
    }

    /// The builder with `application_sid` set and every other parameter kept.
    pub open spec fn spec_with_application_sid(self, application_sid: &'a str) -> Self {
        OutboundMessageBuilder { application_sid: Some(application_sid), ..self }
    }

    /// The builder with `max_price` set and every other parameter kept.
    pub open spec fn spec_with_max_price(self, max_price: &'a str) -> Self {
        OutboundMessageBuilder { max_price: Some(max_price), ..self }
    }

    /// The builder with `provide_feedback` set and every other parameter kept.
    pub open spec fn spec_with_provide_feedback(self, provide_feedback: bool) -> Self {
        OutboundMessageBuilder { provide_feedback, ..self }
    }

    /// The builder with `validity_period` set and every other parameter kept.
    pub open spec fn spec_with_validity_period(self, validity_period: u32) -> Self {
        OutboundMessageBuilder { validity_period: Some(validity_period), ..self }
    }

    /// A builder for an SMS from `from` to `to` with the text `body`, with no
    /// other parameter set.
    pub fn new_sms(from: MessageFrom<'a>, to: &'a str, body: &'a str) -> (builder:
        OutboundMessageBuilder<'a>)
        ensures
            builder == Self::spec_new(from, to, MessageBody::SMS(body)),
            builder.body == MessageBody::SMS(body),
            builder.status_callback is None,
            builder.application_sid is None,
            builder.max_price is None,
            !builder.provide_feedback,
            builder.validity_period is None,
    {
        OutboundMessageBuilder {
            from,
            to,
            body: MessageBody::SMS(body),
            status_callback: None,
            application_sid: None,
            max_price: None,
            provide_feedback: false,
            validity_period: None,
        }
    }

    /// A builder for an MMS from `from` to `to` with the medium at `body`,
    /// with no other parameter set.
    pub fn new_mms(from: MessageFrom<'a>, to: &'a str, body: &'a Url) -> (builder:
        OutboundMessageBuilder<'a>)
        ensures
            builder == Self::spec_new(from, to, MessageBody::MMS(body)),
            builder.body == MessageBody::MMS(body),
            builder.status_callback is None,
            builder.application_sid is None,
            builder.max_price is None,
            !builder.provide_feedback,
            builder.validity_period is None,
    {
        OutboundMessageBuilder {
            from,
            to,
            body: MessageBody::MMS(body),
            status_callback: None,
            application_sid: None,
            max_price: None,
            provide_feedback: false,
            validity_period: None,
        }
    }

    /// Sets the URL to which Twilio reports the message's status.
    pub fn with_status_callback(&mut self, url: &'a Url) -> (this: &mut Self)
        ensures
            *this == old(self).spec_with_status_callback(url),
            this.status_callback == Some(url),
            *final(self) == *final(this),
    {
        self.status_callback = Some(url);
        self
    }

    /// Sets the application whose callback receives the message's status.
    pub fn with_application_sid(&mut self, application_sid: &'a str) -> (this: &mut Self)
        ensures
            *this == old(self).spec_with_application_sid(application_sid),
            this.application_sid == Some(application_sid),
            *final(self) == *final(this),
    {
        self.application_sid = Some(application_sid);
        self
    }

    /// Sets the highest price to pay for the message.
    pub fn with_max_price(&mut self, max_price: &'a str) -> (this: &mut Self)
        ensures
            *this == old(self).spec_with_max_price(max_price),
            this.max_price == Some(max_price),
            *final(self) == *final(this),
    {
        self.max_price = Some(max_price);
        self
    }

    /// Sets whether the message asks for delivery feedback.
    pub fn with_provide_feedback(&mut self, provide_feedback: bool) -> (this: &mut Self)
        ensures
            *this == old(self).spec_with_provide_feedback(provide_feedback),
            this.provide_feedback == provide_feedback,
            *final(self) == *final(this),
    {
        self.provide_feedback = provide_feedback;
        self
    }

    /// Sets how many seconds the message may wait in the queue.
    pub fn with_validity_period(&mut self, validity_period: u32) -> (this: &mut Self)
        ensures
            *this == old(self).spec_with_validity_period(validity_period),
            this.validity_period == Some(validity_period),
            *final(self) == *final(this),
    {
        self.validity_period = Some(validity_period);
        self
    }

    /// The message with every parameter set so far.
    pub fn build(&self) -> (message: OutboundMessage<'a>)
        ensures
            message == self.spec_build(),
    {
        OutboundMessage {
            from: self.from,
            to: self.to,
            body: self.body,
            status_callback: self.status_callback,
            application_sid: self.application_sid,
            max_price: self.max_price,
            provide_feedback: self.provide_feedback,
            validity_period: self.validity_period,
        }
    }
}

/// The setters of a message builder commute: setting two different
/// parameters gives the same builder, and so the same message, in either
/// order; setting one parameter twice keeps the second value.
pub proof fn lemma_message_setters_commute<'a>(
    b: OutboundMessageBuilder<'a>,
    url: &'a Url,
    application_sid: &'a str,
    max_price: &'a str,
    provide_feedback: bool,
    other_feedback: bool,
    validity_period: u32,
)
    ensures
        b.spec_with_status_callback(url).spec_with_application_sid(application_sid)
            == b.spec_with_application_sid(application_sid).spec_with_status_callback(url),
        b.spec_with_status_callback(url).spec_with_max_price(max_price)
            == b.spec_with_max_price(max_price).spec_with_status_callback(url),
        b.spec_with_status_callback(url).spec_with_provide_feedback(provide_feedback)
            == b.spec_with_provide_feedback(provide_feedback).spec_with_status_callback(url),
        b.spec_with_status_callback(url).spec_with_validity_period(validity_period)
            == b.spec_with_validity_period(validity_period).spec_with_status_callback(url),
        b.spec_with_application_sid(application_sid).spec_with_max_price(max_price)
            == b.spec_with_max_price(max_price).spec_with_application_sid(application_sid),
        b.spec_with_application_sid(application_sid).spec_with_provide_feedback(provide_feedback)
            == b.spec_with_provide_feedback(provide_feedback).spec_with_application_sid(
            application_sid,
        ),
        b.spec_with_application_sid(application_sid).spec_with_validity_period(validity_period)
            == b.spec_with_validity_period(validity_period).spec_with_application_sid(
            application_sid,
        ),
        b.spec_with_max_price(max_price).spec_with_provide_feedback(provide_feedback)
            == b.spec_with_provide_feedback(provide_feedback).spec_with_max_price(max_price),
        b.spec_with_max_price(max_price).spec_with_validity_period(validity_period)
            == b.spec_with_validity_period(validity_period).spec_with_max_price(max_price),
        b.spec_with_provide_feedback(provide_feedback).spec_with_validity_period(validity_period)
            == b.spec_with_validity_period(validity_period).spec_with_provide_feedback(
            provide_feedback,
        ),
        b.spec_with_provide_feedback(other_feedback).spec_with_provide_feedback(provide_feedback)
            == b.spec_with_provide_feedback(provide_feedback),
{
}

/// A fresh message builder, for an SMS as for an MMS, has no optional
/// parameter and does not ask for feedback; each setter sets its own
/// parameter to exactly the value it is given and keeps every other
/// parameter as it was.
pub proof fn lemma_message_builder_fields<'a>(
    b: OutboundMessageBuilder<'a>,
    from: MessageFrom<'a>,
    to: &'a str,
    body: MessageBody<'a>,
    url: &'a Url,
    application_sid: &'a str,
    max_price: &'a str,
    provide_feedback: bool,
    validity_period: u32,
)
    ensures
        OutboundMessageBuilder::spec_new(from, to, body).from == from,
        OutboundMessageBuilder::spec_new(from, to, body).to == to,
        OutboundMessageBuilder::spec_new(from, to, body).body == body,
        OutboundMessageBuilder::spec_new(from, to, body).status_callback is None,
        OutboundMessageBuilder::spec_new(from, to, body).application_sid is None,
        OutboundMessageBuilder::spec_new(from, to, body).max_price is None,
        !OutboundMessageBuilder::spec_new(from, to, body).provide_feedback,
        OutboundMessageBuilder::spec_new(from, to, body).validity_period is None,
        b.spec_with_status_callback(url).status_callback == Some(url),
        (OutboundMessageBuilder { status_callback: b.status_callback, ..b.spec_with_status_callback(url) })
            == b,
        b.spec_with_application_sid(application_sid).application_sid == Some(application_sid),
        (OutboundMessageBuilder {
            application_sid: b.application_sid,
            ..b.spec_with_application_sid(application_sid)
        }) == b,
        b.spec_with_max_price(max_price).max_price == Some(max_price),
        (OutboundMessageBuilder { max_price: b.max_price, ..b.spec_with_max_price(max_price) }) == b,
        b.spec_with_provide_feedback(provide_feedback).provide_feedback == provide_feedback,
        (OutboundMessageBuilder {
            provide_feedback: b.provide_feedback,
            ..b.spec_with_provide_feedback(provide_feedback)
        }) == b,
        b.spec_with_validity_period(validity_period).validity_period == Some(validity_period),
        (OutboundMessageBuilder {
            validity_period: b.validity_period,
            ..b.spec_with_validity_period(validity_period)
        }) == b,
{
}

/// A message built straight from `new_sms` or `new_mms` has as its form
/// body exactly `To`, the sender and the content, and in particular no
/// `ProvideFeedback` pair: feedback is asked for only by
/// `with_provide_feedback(true)`.
pub proof fn lemma_fresh_message_body<'a>(
    from: MessageFrom<'a>,
    to: &'a str,
    body: MessageBody<'a>,
    pairs: Seq<(Seq<char>, Seq<char>)>,
)
    requires
        form_encode(pairs) == form_encode(
            OutboundMessageBuilder::spec_new(from, to, body).spec_build().form_pairs(),
        ),
    ensures
        pairs.len() == 3,
        values_named(pairs, "ProvideFeedback"@) == Seq::<Seq<char>>::empty(),
        values_named(pairs, "StatusCallback"@) == Seq::<Seq<char>>::empty(),
        values_named(pairs, "ApplicationSid"@) == Seq::<Seq<char>>::empty(),
        values_named(pairs, "MaxPrice"@) == Seq::<Seq<char>>::empty(),
        values_named(pairs, "ValidityPeriod"@) == Seq::<Seq<char>>::empty(),
{
    let m = OutboundMessageBuilder::spec_new(from, to, body).spec_build();
    lemma_form_encode_injective(pairs, m.form_pairs());
    lemma_message_body_read_back(m, pairs);
    assert(m.form_pairs() =~= seq![("To"@, to@), message_from_pair(from), message_body_pair(body)]);
}

impl<'a> Messages<'a> {
    /// The client whose account the messages belong to.
    pub closed spec fn spec_client(&self) -> Client {
        *self.client
    }

    /// The Messages API of `client`'s account.
    pub fn new(client: &'a Client) -> (messages: Messages<'a>)
        ensures
            messages.spec_client() == *client,
    {
        Messages { client }
    }

    /// `<account>/Messages.json`, the URI of the account's messages.
    pub open spec fn spec_messages_uri(&self) -> Seq<char> {
        self.spec_client().spec_account_uri() + "/Messages.json"@
    }

    /// The request that sends `message`: `POST <account>/Messages.json` with
    /// the message's form body and the client's credentials; `hyper` must
    /// accept the URI (`try_send_message` tests it).
    pub fn send_message(&self, message: &OutboundMessage) -> (request: ApiRequest)
        requires
            uri_accepts(self.spec_messages_uri()),
        ensures
            is_form_request(
                request,
                self.spec_client(),
                self.spec_messages_uri(),
                form_encode(message.form_pairs()),
            ),
    {
        let encoded_params = message.to_url_encoded();
        let uri = self.client.account_uri("/Messages.json");
        self.client.prepare_request(HttpMethod::Post, uri, Some(encoded_params))
    }

    /// The request of `send_message`, where `hyper` accepts its URI; `None`
    /// where it refuses it.
    pub fn try_send_message(&self, message: &OutboundMessage) -> (request: Option<ApiRequest>)
        ensures
            request is Some <==> uri_accepts(self.spec_messages_uri()),
            request matches Some(r) ==> is_form_request(
                r,
                self.spec_client(),
                self.spec_messages_uri(),
                form_encode(message.form_pairs()),
            ),
    {
        let uri = self.client.account_uri("/Messages.json");
        if uri_parses(uri.as_str()) {
            Some(self.send_message(message))
        } else {
            None
        }
    }
}

} // verus!
