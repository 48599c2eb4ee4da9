//! Voice calls: the call resource, outbound calls and their form encoding,
//! and the requests of the Calls API.
use vstd::prelude::*;
use vstd::string::StringExecFns;

use crate::decimal::{decimal, decimal_string};
use crate::form::{
    encode_form, form_encode, lemma_form_encode_injective, lemma_values_named_add,
    lemma_values_named_one, pairs_view, values_named,
};
use crate::serde_helper::UtcTimestamp;
use crate::urls::{uri_accepts, uri_parses, Url};
use crate::{is_form_request, is_get_request, ApiRequest, Client, HttpMethod, Page};

verus! {

/// Two texts are equal.
pub(crate) fn str_eq(a: &str, b: &str) -> (equal: bool)
    ensures
        equal == (a@ == b@),
{
    String::from_str(a) == String::from_str(b)
}

/// The Calls API of one account.
pub struct Calls<'a> {
    client: &'a Client,
}

/// A call, as the API describes it.
pub struct Call {
    pub sid: String,
    pub account_sid: String,
    pub parent_call_sid: Option<String>,
    pub from: String,
    pub to: String,
    pub phone_number_sid: Option<String>,
    pub status: CallStatus,
    pub duration: Option<String>,
    pub answered_by: Option<String>,
    pub price: Option<String>,
    pub price_unit: Option<String>,
    pub direction: Option<Direction>,
    pub forwarded_from: Option<String>,
    pub to_formatted: Option<String>,
    pub from_formatted: Option<String>,
    pub caller_name: Option<String>,
    pub date_created: Option<UtcTimestamp>,
    pub date_updated: Option<UtcTimestamp>,
    pub start_time: Option<UtcTimestamp>,
    pub end_time: Option<UtcTimestamp>,
}

/// The state of a call.
#[derive(Debug, Clone, Copy, PartialEq, Eq, Structural)]
pub enum CallStatus {
    Queued,
    Ringing,
    InProgress,
    Canceled,
    Completed,
    Busy,
    Failed,
}

/// The status that the API names `name`: the variant's name in lower case,
/// and `in-progress` for `InProgress`.
pub open spec fn call_status_named(name: Seq<char>) -> Option<CallStatus> {
    if name == "queued"@ {
        Some(CallStatus::Queued)
    } else if name == "ringing"@ {
        Some(CallStatus::Ringing)
    } else if name == "in-progress"@ {
        Some(CallStatus::InProgress)
    } else if name == "canceled"@ {
        Some(CallStatus::Canceled)
    } else if name == "completed"@ {
        Some(CallStatus::Completed)
    } else if name == "busy"@ {
        Some(CallStatus::Busy)
    } else if name == "failed"@ {
        Some(CallStatus::Failed)
    } else {
        None
    }
}

impl CallStatus {
    /// The status that the API names `name`, if any.
    pub fn from_name(name: &str) -> (status: Option<CallStatus>)
        ensures
            status == call_status_named(name@),
    {
        if str_eq(name, "queued") {
            Some(CallStatus::Queued)
        } else if str_eq(name, "ringing") {
            Some(CallStatus::Ringing)
        } else if str_eq(name, "in-progress") {
            Some(CallStatus::InProgress)
        } else if str_eq(name, "canceled") {
            Some(CallStatus::Canceled)
        } else if str_eq(name, "completed") {
            Some(CallStatus::Completed)
        } else if str_eq(name, "busy") {
            Some(CallStatus::Busy)
        } else if str_eq(name, "failed") {
            Some(CallStatus::Failed)
        } else {
            None
        }
    }
}

/// Where a call came from or went to.
#[derive(Debug, Clone, Copy, PartialEq, Eq, Structural)]
pub enum Direction {
    Inbound,
    OutboundApi,
    OutboundDial,
    TrunkingTerminating,
    TrunkingOriginating,
}

/// The direction that the API names `name`: the variant's name in kebab case.
pub open spec fn direction_named(name: Seq<char>) -> Option<Direction> {
    if name == "inbound"@ {
        Some(Direction::Inbound)
    } else if name == "outbound-api"@ {
        Some(Direction::OutboundApi)
    } else if name == "outbound-dial"@ {
        Some(Direction::OutboundDial)
    } else if name == "trunking-terminating"@ {
        Some(Direction::TrunkingTerminating)
    } else if name == "trunking-originating"@ {
        Some(Direction::TrunkingOriginating)
    } else {
        None
    }
}

impl Direction {
    /// The direction that the API names `name`, if any.
    pub fn from_name(name: &str) -> (direction: Option<Direction>)
        ensures
            direction == direction_named(name@),
    {
        if str_eq(name, "inbound") {
            Some(Direction::Inbound)
        } else if str_eq(name, "outbound-api") {
            Some(Direction::OutboundApi)
        } else if str_eq(name, "outbound-dial") {
            Some(Direction::OutboundDial)
        } else if str_eq(name, "trunking-terminating") {
            Some(Direction::TrunkingTerminating)
        } else if str_eq(name, "trunking-originating") {
            Some(Direction::TrunkingOriginating)
        } else {
            None
        }
    }
}

/// What a call plays once answered: the TwiML at a URL, or an application.
#[derive(Clone, Copy)]
pub enum TwimlSource<'a> {
    Url(&'a Url),
    ApplicationSid(&'a str),
}

/// The HTTP method with which Twilio calls back a URL.
#[derive(Clone, Copy)]
pub enum CallbackMethod {
    Post,
    Get,
}

/// `POST` or `GET`.
pub open spec fn callback_method_name(method: CallbackMethod) -> Seq<char> {
    match method {
        CallbackMethod::Post => "POST"@,
        CallbackMethod::Get => "GET"@,
    }
}

impl CallbackMethod {
    /// The method's name: `POST` or `GET`.
    pub fn name(&self) -> (name: &'static str)
        ensures
            name@ == callback_method_name(*self),
    {
        match *self {
            CallbackMethod::Post => "POST",
            CallbackMethod::Get => "GET",
        }
    }
}

/// An event of a call that Twilio reports to the status callback.
#[derive(Clone, Copy)]
pub enum StatusCallbackEvent {
    Initiated,
    Ringing,
    Answered,
    Completed,
}

/// The event's name in lower case.
pub open spec fn status_callback_event_name(event: StatusCallbackEvent) -> Seq<char> {
    match event {
        StatusCallbackEvent::Initiated => "initiated"@,
        StatusCallbackEvent::Ringing => "ringing"@,
        StatusCallbackEvent::Answered => "answered"@,
        StatusCallbackEvent::Completed => "completed"@,
    }
}

impl StatusCallbackEvent {
    /// The event's name: `initiated`, `ringing`, `answered` or `completed`.
    pub fn name(&self) -> (name: &'static str)
        ensures
            name@ == status_callback_event_name(*self),
    {
        match *self {
            StatusCallbackEvent::Initiated => "initiated",
            StatusCallbackEvent::Ringing => "ringing",
            StatusCallbackEvent::Answered => "answered",
            StatusCallbackEvent::Completed => "completed",
        }
    }
}

/// How a recording keeps the two legs of a call.
#[derive(Clone, Copy)]
pub enum RecordingChannel {
    Mono,
    Dual,
}

/// A value that can be written as an `application/x-www-form-urlencoded` body.
pub trait IntoUrlEncoded {
    fn to_url_encoded(&self) -> String;
}

/// A call to place.
#[derive(Clone, Copy)]
pub struct OutboundCall<'a> {
    pub from: &'a str,
    pub to: &'a str,
    pub twiml_source: TwimlSource<'a>,
    pub method: Option<CallbackMethod>,
    pub fallback_url: Option<&'a Url>,
    pub fallback_method: Option<CallbackMethod>,
    pub status_callback: Option<&'a Url>,
    pub status_callback_method: Option<CallbackMethod>,
    pub status_callback_event: &'a [StatusCallbackEvent],
    pub send_digits: Option<&'a str>,
    pub timeout: Option<u32>,
    pub record: Option<bool>,
    pub recording_channels: Option<RecordingChannel>,
    pub recording_status_callback: Option<&'a Url>,
    pub recording_status_callback_method: Option<CallbackMethod>,
}

/// Builds an `OutboundCall` one parameter at a time.
pub struct OutboundCallBuilder<'a> {
    pub from: &'a str,
    pub to: &'a str,
    pub twiml_source: TwimlSource<'a>,
    pub method: Option<CallbackMethod>,
    pub fallback_url: Option<&'a Url>,
    pub fallback_method: Option<CallbackMethod>,
    pub status_callback: Option<&'a Url>,
    pub status_callback_method: Option<CallbackMethod>,
    pub status_callback_event: &'a [StatusCallbackEvent],
    pub send_digits: Option<&'a str>,
    pub timeout: Option<u32>,
    pub record: Option<bool>,
    pub recording_channels: Option<RecordingChannel>,
    pub recording_status_callback: Option<&'a Url>,
    pub recording_status_callback_method: Option<CallbackMethod>,
}

/// A form field that is written only when it has a value.
pub open spec fn optional_pair(name: Seq<char>, value: Option<Seq<char>>) -> Seq<(Seq<char>, Seq<char>)> {
    match value {
        Some(v) => seq![(name, v)],
        None => Seq::empty(),
    }
}

/// The name of an optional callback method.
pub open spec fn optional_method(method: Option<CallbackMethod>) -> Option<Seq<char>> {
    match method {
        Some(m) => Some(callback_method_name(m)),
        None => None,
    }
}

/// The text of an optional URL.
pub open spec fn optional_url(url: Option<&Url>) -> Option<Seq<char>> {
    match url {
        Some(u) => Some(u@),
        None => None,
    }
}

/// The text of an optional string.
pub open spec fn optional_str(s: Option<&str>) -> Option<Seq<char>> {
    match s {
        Some(t) => Some(t@),
        None => None,
    }
}

/// One `StatusCallbackEvent` field per event, in order.
pub open spec fn event_pairs(events: Seq<StatusCallbackEvent>) -> Seq<(Seq<char>, Seq<char>)> {
    events.map_values(|e: StatusCallbackEvent| ("StatusCallbackEvent"@, status_callback_event_name(e)))
}

/// The form field naming what the call plays: `Url` or `ApplicationSid`.
pub open spec fn twiml_source_pair(source: TwimlSource) -> (Seq<char>, Seq<char>) {
    match source {
        TwimlSource::Url(u) => ("Url"@, u@),
        TwimlSource::ApplicationSid(sid) => ("ApplicationSid"@, sid@),
    }
}

impl<'a> OutboundCall<'a> {
    /// A call from `from` to `to` that plays the TwiML at `url`, with no other parameter.
    pub fn new(from: &'a str, to: &'a str, url: &'a Url) -> (call: OutboundCall<'a>)
        ensures
            call == OutboundCallBuilder::spec_new(from, to, url).spec_build(),
    {
        OutboundCall {
            from,
            to,
            twiml_source: TwimlSource::Url(url),
            method: None,
            fallback_url: None,
            fallback_method: None,
            status_callback: None,
            status_callback_method: None,
            status_callback_event: &[],
            send_digits: None,
            timeout: None,
            record: None,
            recording_channels: None,
            recording_status_callback: None,
            recording_status_callback_method: None,
        }
    }

    /// Sets the events that Twilio reports to the status callback.
    pub fn set_status_callback_events(&mut self, events: &'a [StatusCallbackEvent])
        ensures
            *final(self) == (OutboundCall { status_callback_event: events, ..*old(self) }),
    {
        self.status_callback_event = events;
    }

    /// The form fields of the call, in the order they are written: `From`,
    /// `To`, `Url` or `ApplicationSid`, then `Method`, `FallbackUrl`,
    /// `FallbackMethod`, `StatusCallback`, `StatusCallbackMethod` where set,
    /// one `StatusCallbackEvent` per event, and `SendDigits` where set.
    /// The timeout and the recording parameters are not written.
    pub open spec fn form_pairs(&self) -> Seq<(Seq<char>, Seq<char>)> {
        seq![("From"@, self.from@), ("To"@, self.to@), twiml_source_pair(self.twiml_source)]
            + optional_pair("Method"@, optional_method(self.method))
            + optional_pair("FallbackUrl"@, optional_url(self.fallback_url))
            + optional_pair("FallbackMethod"@, optional_method(self.fallback_method))
            + optional_pair("StatusCallback"@, optional_url(self.status_callback))
            + optional_pair("StatusCallbackMethod"@, optional_method(self.status_callback_method))
            + event_pairs(self.status_callback_event@)
            + optional_pair("SendDigits"@, optional_str(self.send_digits))
    }
}

/// The name of an optional callback method, as a list of zero or one text.
pub open spec fn method_values(method: Option<CallbackMethod>) -> Seq<Seq<char>> {
    match method {
        Some(CallbackMethod::Post) => seq!["POST"@],
        Some(CallbackMethod::Get) => seq!["GET"@],
        None => Seq::empty(),
    }
}

/// The text of an optional URL, as a list of zero or one text.
pub open spec fn url_values(url: Option<&Url>) -> Seq<Seq<char>> {
    match url {
        Some(u) => seq![u@],
        None => Seq::empty(),
    }
}

/// An optional text, as a list of zero or one text.
pub open spec fn str_values(s: Option<&str>) -> Seq<Seq<char>> {
    match s {
        Some(t) => seq![t@],
        None => Seq::empty(),
    }
}

/// The names of a list of events, in order.
pub open spec fn event_texts(events: Seq<StatusCallbackEvent>) -> Seq<Seq<char>> {
    events.map_values(
        |e: StatusCallbackEvent|
            match e {
                StatusCallbackEvent::Initiated => "initiated"@,
                StatusCallbackEvent::Ringing => "ringing"@,
                StatusCallbackEvent::Answered => "answered"@,
                StatusCallbackEvent::Completed => "completed"@,
            },
    )
}

pub(crate) proof fn lemma_optional_pair_values(key: Seq<char>, value: Option<Seq<char>>, name: Seq<char>)
    ensures
        values_named(optional_pair(key, value), name) == (match value {
            Some(v) => if key == name {
                seq![v]
            } else {
                Seq::<Seq<char>>::empty()
            },
            None => Seq::<Seq<char>>::empty(),
        }),
{
    match value {
        Some(v) => lemma_values_named_one(key, v, name),
        None => {
            assert(values_named(Seq::<(Seq<char>, Seq<char>)>::empty(), name) == Seq::<Seq<char>>::empty());
        },
    }
}

proof fn lemma_event_pairs_values(events: Seq<StatusCallbackEvent>, name: Seq<char>)
    ensures
        values_named(event_pairs(events), name) == (if name == "StatusCallbackEvent"@ {
            event_texts(events)
        } else {
            Seq::<Seq<char>>::empty()
        }),
    decreases events.len(),
{
    if events.len() == 0 {
        assert(event_pairs(events) =~= Seq::<(Seq<char>, Seq<char>)>::empty());
        assert(event_texts(events) =~= Seq::<Seq<char>>::empty());
    } else {
        lemma_event_pairs_values(events.drop_last(), name);
        assert(event_pairs(events).drop_last() =~= event_pairs(events.drop_last()));
        assert(event_texts(events).drop_last() =~= event_texts(events.drop_last()));
        let e = events.last();
        assert(status_callback_event_name(e) == event_texts(events).last());
        if name == "StatusCallbackEvent"@ {
            assert(event_texts(events) =~= event_texts(events.drop_last()).push(event_texts(events).last()));
        }
    }
}

/// The values named `name` in a call's form fields, piece by piece.
proof fn lemma_call_values(call: OutboundCall, name: Seq<char>)
    ensures
        values_named(call.form_pairs(), name) == (if "From"@ == name {
            seq![call.from@]
        } else {
            Seq::<Seq<char>>::empty()
        }) + (if "To"@ == name {
            seq![call.to@]
        } else {
            Seq::<Seq<char>>::empty()
        }) + (if twiml_source_pair(call.twiml_source).0 == name {
            seq![twiml_source_pair(call.twiml_source).1]
        } else {
            Seq::<Seq<char>>::empty()
        }) + (if "Method"@ == name {
            method_values(call.method)
        } else {
            Seq::<Seq<char>>::empty()
        }) + (if "FallbackUrl"@ == name {
            url_values(call.fallback_url)
        } else {
            Seq::<Seq<char>>::empty()
        }) + (if "FallbackMethod"@ == name {
            method_values(call.fallback_method)
        } else {
            Seq::<Seq<char>>::empty()
        }) + (if "StatusCallback"@ == name {
            url_values(call.status_callback)
        } else {
            Seq::<Seq<char>>::empty()
        }) + (if "StatusCallbackMethod"@ == name {
            method_values(call.status_callback_method)
        } else {
            Seq::<Seq<char>>::empty()
        }) + (if "StatusCallbackEvent"@ == name {
            event_texts(call.status_callback_event@)
        } else {
            Seq::<Seq<char>>::empty()
        }) + (if "SendDigits"@ == name {
            str_values(call.send_digits)
        } else {
            Seq::<Seq<char>>::empty()
        }),
{
    let p0 = seq![("From"@, call.from@)];
    let p1 = seq![("To"@, call.to@)];
    let p2 = seq![twiml_source_pair(call.twiml_source)];
    let q0 = optional_pair("Method"@, optional_method(call.method));
    let q1 = optional_pair("FallbackUrl"@, optional_url(call.fallback_url));
    let q2 = optional_pair("FallbackMethod"@, optional_method(call.fallback_method));
    let q3 = optional_pair("StatusCallback"@, optional_url(call.status_callback));
    let q4 = optional_pair("StatusCallbackMethod"@, optional_method(call.status_callback_method));
    let q5 = event_pairs(call.status_callback_event@);
    let q6 = optional_pair("SendDigits"@, optional_str(call.send_digits));
    assert(seq![("From"@, call.from@), ("To"@, call.to@), twiml_source_pair(call.twiml_source)]
        =~= p0 + p1 + p2);
    assert(call.form_pairs() == p0 + p1 + p2 + q0 + q1 + q2 + q3 + q4 + q5 + q6);
    lemma_values_named_add(p0, p1, name);
    lemma_values_named_add(p0 + p1, p2, name);
    lemma_values_named_add(p0 + p1 + p2, q0, name);
    lemma_values_named_add(p0 + p1 + p2 + q0, q1, name);
    lemma_values_named_add(p0 + p1 + p2 + q0 + q1, q2, name);
    lemma_values_named_add(p0 + p1 + p2 + q0 + q1 + q2, q3, name);
    lemma_values_named_add(p0 + p1 + p2 + q0 + q1 + q2 + q3, q4, name);
    lemma_values_named_add(p0 + p1 + p2 + q0 + q1 + q2 + q3 + q4, q5, name);
    lemma_values_named_add(p0 + p1 + p2 + q0 + q1 + q2 + q3 + q4 + q5, q6, name);
    lemma_values_named_one("From"@, call.from@, name);
    lemma_values_named_one("To"@, call.to@, name);
    lemma_values_named_one(twiml_source_pair(call.twiml_source).0, twiml_source_pair(call.twiml_source).1, name);
    lemma_optional_pair_values("Method"@, optional_method(call.method), name);
    lemma_optional_pair_values("FallbackUrl"@, optional_url(call.fallback_url), name);
    lemma_optional_pair_values("FallbackMethod"@, optional_method(call.fallback_method), name);
    lemma_optional_pair_values("StatusCallback"@, optional_url(call.status_callback), name);
    lemma_optional_pair_values("StatusCallbackMethod"@, optional_method(call.status_callback_method), name);
    lemma_event_pairs_values(call.status_callback_event@, name);
    lemma_optional_pair_values("SendDigits"@, optional_str(call.send_digits), name);
}

/// Read back as name/value pairs, the form body of any call starts with
/// `From`, `To` and the TwiML source (`Url` or `ApplicationSid`), and holds
/// under each name exactly what the call was given: one `From` and one `To`,
/// each callback parameter where it is set, its method as `POST` or `GET`,
/// and one `StatusCallbackEvent` per event of the list, in the list's order.
pub proof fn lemma_call_body_read_back(call: OutboundCall, pairs: Seq<(Seq<char>, Seq<char>)>)
    requires
        form_encode(pairs) == form_encode(call.form_pairs()),
    ensures
        pairs.len() >= 3,
        pairs[0] == ("From"@, call.from@),
        pairs[1] == ("To"@, call.to@),
        pairs[2] == (match call.twiml_source {
            TwimlSource::Url(u) => ("Url"@, u@),
            TwimlSource::ApplicationSid(sid) => ("ApplicationSid"@, sid@),
        }),
        values_named(pairs, "From"@) == seq![call.from@],
        values_named(pairs, "To"@) == seq![call.to@],
        values_named(pairs, "Url"@) == (match call.twiml_source {
            TwimlSource::Url(u) => seq![u@],
            TwimlSource::ApplicationSid(_) => Seq::<Seq<char>>::empty(),
        }),
        values_named(pairs, "ApplicationSid"@) == (match call.twiml_source {
            TwimlSource::Url(_) => Seq::<Seq<char>>::empty(),
            TwimlSource::ApplicationSid(sid) => seq![sid@],
        }),
        values_named(pairs, "Method"@) == method_values(call.method),
        values_named(pairs, "FallbackUrl"@) == url_values(call.fallback_url),
        values_named(pairs, "FallbackMethod"@) == method_values(call.fallback_method),
        values_named(pairs, "StatusCallback"@) == url_values(call.status_callback),
        values_named(pairs, "StatusCallbackMethod"@) == method_values(call.status_callback_method),
        values_named(pairs, "StatusCallbackEvent"@) == event_texts(call.status_callback_event@),
        values_named(pairs, "StatusCallbackEvent"@).len() == call.status_callback_event@.len(),
        forall|k: int|
            0 <= k < call.status_callback_event@.len() ==> #[trigger] values_named(
                pairs,
                "StatusCallbackEvent"@,
            )[k] == (match call.status_callback_event@[k] {
                StatusCallbackEvent::Initiated => "initiated"@,
                StatusCallbackEvent::Ringing => "ringing"@,
                StatusCallbackEvent::Answered => "answered"@,
                StatusCallbackEvent::Completed => "completed"@,
            }),
        values_named(pairs, "SendDigits"@) == str_values(call.send_digits),
{
    lemma_form_encode_injective(pairs, call.form_pairs());
        reveal_strlit("From");
        reveal_strlit("To");
        reveal_strlit("Url");
        reveal_strlit("ApplicationSid");
        reveal_strlit("Method");
        reveal_strlit("FallbackUrl");
        reveal_strlit("FallbackMethod");
        reveal_strlit("StatusCallback");
        reveal_strlit("StatusCallbackMethod");
        reveal_strlit("StatusCallbackEvent");
        reveal_strlit("SendDigits");
    let e = Seq::<Seq<char>>::empty();
    assert("From"@.len() == 4);
    assert("To"@.len() == 2);
    assert("Url"@.len() == 3);
    assert("ApplicationSid"@.len() == 14);
    assert("Method"@.len() == 6);
    assert("FallbackUrl"@.len() == 11);
    assert("FallbackMethod"@.len() == 14);
    assert("FallbackMethod"@[0] == 'F');
    assert("StatusCallback"@[0] == 'S');
    assert("StatusCallback"@.len() == 14);
    assert("StatusCallbackMethod"@.len() == 20);
    assert("StatusCallbackEvent"@.len() == 19);
    assert("SendDigits"@.len() == 10);
    assert(pairs[0] == ("From"@, call.from@));
    assert(twiml_source_pair(call.twiml_source).0 == "Url"@ || twiml_source_pair(call.twiml_source).0
        == "ApplicationSid"@);
    assert(e + e =~= e);
    assert(seq![call.from@] + e =~= seq![call.from@]);
    assert(e + seq![call.to@] =~= seq![call.to@]);
    lemma_call_values(call, "From"@);
    assert(values_named(pairs, "From"@) =~= seq![call.from@]);
    lemma_call_values(call, "To"@);
    assert(values_named(pairs, "To"@) =~= seq![call.to@]);
    lemma_call_values(call, "Url"@);
    assert(values_named(pairs, "Url"@) =~= values_named(call.form_pairs(), "Url"@));
    lemma_call_values(call, "ApplicationSid"@);
    assert(values_named(pairs, "ApplicationSid"@) =~= values_named(call.form_pairs(), "ApplicationSid"@));
    lemma_call_values(call, "Method"@);
    assert(values_named(pairs, "Method"@) =~= method_values(call.method));
    lemma_call_values(call, "FallbackUrl"@);
    assert(values_named(pairs, "FallbackUrl"@) =~= url_values(call.fallback_url));
    lemma_call_values(call, "FallbackMethod"@);
    assert(values_named(pairs, "FallbackMethod"@) =~= method_values(call.fallback_method));
    lemma_call_values(call, "StatusCallback"@);
    assert(values_named(pairs, "StatusCallback"@) =~= url_values(call.status_callback));
    lemma_call_values(call, "StatusCallbackMethod"@);
    assert(values_named(pairs, "StatusCallbackMethod"@) =~= method_values(call.status_callback_method));
    lemma_call_values(call, "StatusCallbackEvent"@);
    assert(values_named(pairs, "StatusCallbackEvent"@) =~= event_texts(call.status_callback_event@));
    lemma_call_values(call, "SendDigits"@);
    assert(values_named(pairs, "SendDigits"@) =~= str_values(call.send_digits));
}

/// Appends a field when it has a value.
pub(crate) fn push_optional<'b>(pairs: &mut Vec<(&'b str, &'b str)>, name: &'b str, value: Option<&'b str>)
    ensures
        pairs_view(final(pairs)@) == pairs_view(old(pairs)@) + optional_pair(
            name@,
            optional_str(value),
        ),
{
    match value {
        Some(v) => {
            pairs.push((name, v));
            assert(pairs_view(pairs@) =~= pairs_view(old(pairs)@) + seq![(name@, v@)]);
        },
        None => {
            assert(pairs_view(pairs@) =~= pairs_view(old(pairs)@) + Seq::empty());
        },
    }
}

fn method_name_of(method: Option<CallbackMethod>) -> (name: Option<&'static str>)
    ensures
        optional_str(name) == optional_method(method),
{
    match method {
        Some(m) => Some(m.name()),
        None => None,
    }
}

fn url_text_of<'b>(url: Option<&'b Url>) -> (text: Option<&'b str>)
    ensures
        optional_str(text) == optional_url(url),
{
    match url {
        Some(u) => Some(u.as_str()),
        None => None,
    }
}

impl<'a> IntoUrlEncoded for OutboundCall<'a> {
    /// The call's form body: its form fields, serialized in order.
    fn to_url_encoded(&self) -> (text: String)
        ensures
            text@ == form_encode(self.form_pairs()),
    {
        let mut pairs: Vec<(&str, &str)> = Vec::new();
        pairs.push(("From", self.from));
        pairs.push(("To", self.to));
        let (name, value) = match self.twiml_source {
            TwimlSource::Url(x) => ("Url", x.as_str()),
            TwimlSource::ApplicationSid(x) => ("ApplicationSid", x),
        };
        pairs.push((name, value));
        assert(pairs_view(pairs@) =~= seq![
            ("From"@, self.from@),
            ("To"@, self.to@),
            twiml_source_pair(self.twiml_source),
        ]);
        push_optional(&mut pairs, "Method", method_name_of(self.method));
        push_optional(&mut pairs, "FallbackUrl", url_text_of(self.fallback_url));
        push_optional(&mut pairs, "FallbackMethod", method_name_of(self.fallback_method));
        push_optional(&mut pairs, "StatusCallback", url_text_of(self.status_callback));
        push_optional(
            &mut pairs,
            "StatusCallbackMethod",
            method_name_of(self.status_callback_method),
        );
        let ghost before_events = pairs_view(pairs@);
        let events = self.status_callback_event;
        let mut i: usize = 0;
        while i < events.len()
            invariant
                i <= events@.len(),
                events == self.status_callback_event,
                pairs_view(pairs@) == before_events + event_pairs(events@.take(i as int)),
            decreases events.len() - i,
        {
            let ghost prev = pairs@;
            pairs.push(("StatusCallbackEvent", events[i].name()));
            assert(event_pairs(events@.take(i + 1)) =~= event_pairs(events@.take(i as int)).push(
                ("StatusCallbackEvent"@, status_callback_event_name(events@[i as int])),
            ));
            assert(pairs_view(pairs@) =~= pairs_view(prev).push(
                ("StatusCallbackEvent"@, status_callback_event_name(events@[i as int])),
            ));
            i = i + 1;
        }
        assert(events@.take(i as int) =~= events@);
        push_optional(&mut pairs, "SendDigits", self.send_digits);
        assert(pairs_view(pairs@) =~= self.form_pairs());
        encode_form(&pairs)
    }
}

impl<'a> OutboundCallBuilder<'a> {
    /// The builder that `new` makes.
    pub open spec fn spec_new(from: &'a str, to: &'a str, url: &'a Url) -> OutboundCallBuilder<'a> {
        OutboundCallBuilder {
            from,
            to,
            twiml_source: TwimlSource::Url(url),
            method: None,
            fallback_url: None,
            fallback_method: None,
            status_callback: None,
            status_callback_method: None,
            status_callback_event: &[],
            send_digits: None,
            timeout: None,
            record: None,
            recording_channels: None,
            recording_status_callback: None,
            recording_status_callback_method: None,
        }
    }

    /// The call that `build` makes: every parameter as the builder holds it.
    pub open spec fn spec_build(self) -> OutboundCall<'a> {
        OutboundCall {
            from: self.from,
            to: self.to,
            twiml_source: self.twiml_source,
            method: self.method,
            fallback_url: self.fallback_url,
            fallback_method: self.fallback_method,
            status_callback: self.status_callback,
            status_callback_method: self.status_callback_method,
            status_callback_event: self.status_callback_event,
            send_digits: self.send_digits,
            timeout: self.timeout,
            record: self.record,
            recording_channels: self.recording_channels,
            recording_status_callback: self.recording_status_callback,
            recording_status_callback_method: self.recording_status_callback_method,
        }
    }

    /// The builder with `method` set and every other parameter kept.
    pub open spec fn spec_with_method(self, method: CallbackMethod) -> Self {
        OutboundCallBuilder { method: Some(method), ..self }
    }

    /// The builder with `fallback_url` set and every other parameter kept.
    pub open spec fn spec_with_fallback_url(self, fallback_url: &'a Url) -> Self {
        OutboundCallBuilder { fallback_url: Some(fallback_url), ..self }
    }

    /// The builder with `fallback_method` set and every other parameter kept.
    pub open spec fn spec_with_fallback_method(self, fallback_method: CallbackMethod) -> Self {
        OutboundCallBuilder { fallback_method: Some(fallback_method), ..self }
    }

    /// The builder with `status_callback` set and every other parameter kept.
    pub open spec fn spec_with_status_callback(self, status_callback: &'a Url) -> Self {
        OutboundCallBuilder { status_callback: Some(status_callback), ..self }
    }

    /// The builder with `status_callback_events` set and every other parameter kept.
    pub open spec fn spec_with_status_callback_events(self, events: &'a [StatusCallbackEvent]) -> Self {
        OutboundCallBuilder { status_callback_event: events, ..self }
    }

    /// A builder for a call from `from` to `to` that plays the TwiML at
    /// `url`, with no other parameter set.
    pub fn new(from: &'a str, to: &'a str, url: &'a Url) -> (builder: OutboundCallBuilder<'a>)
        ensures
            builder == Self::spec_new(from, to, url),
    {
        OutboundCallBuilder {
            from,
            to,
            twiml_source: TwimlSource::Url(url),
            method: None,
            fallback_url: None,
            fallback_method: None,
            status_callback: None,
            status_callback_method: None,
            status_callback_event: &[],
            send_digits: None,
            timeout: None,
            record: None,
            recording_channels: None,
            recording_status_callback: None,
            recording_status_callback_method: None,
        }
    }

    /// Sets the method with which Twilio fetches the TwiML URL.
    pub fn with_method(&mut self, method: CallbackMethod) -> (this: &mut Self)
        ensures
            *this == old(self).spec_with_method(method),
            this.method == Some(method),
            *final(self) == *final(this),
    {
        self.method = Some(method);
        self
    }

    /// Sets the URL that Twilio fetches when the TwiML URL fails.
    pub fn with_fallback_url(&mut self, fallback_url: &'a Url) -> (this: &mut Self)
        ensures
            *this == old(self).spec_with_fallback_url(fallback_url),
            this.fallback_url == Some(fallback_url),
            *final(self) == *final(this),
    {
        self.fallback_url = Some(fallback_url);
        self
    }

    /// Sets the method with which Twilio fetches the fallback URL.
    pub fn with_fallback_method(&mut self, fallback_method: CallbackMethod) -> (this: &mut Self)
        ensures
            *this == old(self).spec_with_fallback_method(fallback_method),
            this.fallback_method == Some(fallback_method),
            *final(self) == *final(this),
    {
        self.fallback_method = Some(fallback_method);
        self
    }

    /// Sets the URL to which Twilio reports the call's events.
    pub fn with_status_callback(&mut self, status_callback: &'a Url) -> (this: &mut Self)
        ensures
            *this == old(self).spec_with_status_callback(status_callback),
            this.status_callback == Some(status_callback),
            *final(self) == *final(this),
    {
        self.status_callback = Some(status_callback);
        self
    }

    /// Sets the events that Twilio reports to the status callback.
    pub fn with_status_callback_events(&mut self, events: &'a [StatusCallbackEvent]) -> (this:
        &mut Self)
        ensures
            *this == old(self).spec_with_status_callback_events(events),
            this.status_callback_event == events,
            *final(self) == *final(this),
    {
        self.status_callback_event = events;
        self
    }

    /// The call with every parameter set so far.
    pub fn build(&mut self) -> (call: OutboundCall<'a>)
        ensures
            call == old(self).spec_build(),
            *final(self) == *old(self),
    {
        OutboundCall {
            from: self.from,
            to: self.to,
            twiml_source: self.twiml_source,
            method: self.method,
            fallback_url: self.fallback_url,
            fallback_method: self.fallback_method,
            status_callback: self.status_callback,
            status_callback_method: self.status_callback_method,
            status_callback_event: self.status_callback_event,
            send_digits: self.send_digits,
            timeout: self.timeout,
            record: self.record,
            recording_channels: self.recording_channels,
            recording_status_callback: self.recording_status_callback,
            recording_status_callback_method: self.recording_status_callback_method,
        }
    }
}

/// The setters of a call builder commute: setting two different
/// parameters gives the same builder, and so the same call, in either order;
/// setting one parameter twice keeps the second value.
pub proof fn lemma_call_setters_commute<'a>(
    b: OutboundCallBuilder<'a>,
    method: CallbackMethod,
    other_method: CallbackMethod,
    fallback_url: &'a Url,
    fallback_method: CallbackMethod,
    status_callback: &'a Url,
    events: &'a [StatusCallbackEvent],
)
    ensures
        b.spec_with_method(method).spec_with_fallback_url(fallback_url)
            == b.spec_with_fallback_url(fallback_url).spec_with_method(method),
        b.spec_with_method(method).spec_with_fallback_method(fallback_method)
            == b.spec_with_fallback_method(fallback_method).spec_with_method(method),
        b.spec_with_method(method).spec_with_status_callback(status_callback)
            == b.spec_with_status_callback(status_callback).spec_with_method(method),
        b.spec_with_method(method).spec_with_status_callback_events(events)
            == b.spec_with_status_callback_events(events).spec_with_method(method),
        b.spec_with_fallback_url(fallback_url).spec_with_fallback_method(fallback_method)
            == b.spec_with_fallback_method(fallback_method).spec_with_fallback_url(fallback_url),
        b.spec_with_fallback_url(fallback_url).spec_with_status_callback(status_callback)
            == b.spec_with_status_callback(status_callback).spec_with_fallback_url(fallback_url),
        b.spec_with_fallback_url(fallback_url).spec_with_status_callback_events(events)
            == b.spec_with_status_callback_events(events).spec_with_fallback_url(fallback_url),
        b.spec_with_fallback_method(fallback_method).spec_with_status_callback(status_callback)
            == b.spec_with_status_callback(status_callback).spec_with_fallback_method(
            fallback_method,
        ),
        b.spec_with_fallback_method(fallback_method).spec_with_status_callback_events(events)
            == b.spec_with_status_callback_events(events).spec_with_fallback_method(
            fallback_method,
        ),
        b.spec_with_status_callback(status_callback).spec_with_status_callback_events(events)
            == b.spec_with_status_callback_events(events).spec_with_status_callback(
            status_callback,
        ),
        b.spec_with_method(other_method).spec_with_method(method) == b.spec_with_method(method),
{
}

/// A fresh call builder has no optional parameter and no event; each setter
/// sets its own parameter to exactly the value it is given and keeps every
/// other parameter as it was.
pub proof fn lemma_call_builder_fields<'a>(
    b: OutboundCallBuilder<'a>,
    from: &'a str,
    to: &'a str,
    url: &'a Url,
    method: CallbackMethod,
    fallback_url: &'a Url,
    fallback_method: CallbackMethod,
    status_callback: &'a Url,
    events: &'a [StatusCallbackEvent],
)
    ensures
        OutboundCallBuilder::spec_new(from, to, url).from == from,
        OutboundCallBuilder::spec_new(from, to, url).to == to,
        OutboundCallBuilder::spec_new(from, to, url).twiml_source == TwimlSource::Url(url),
        OutboundCallBuilder::spec_new(from, to, url).method is None,
        OutboundCallBuilder::spec_new(from, to, url).fallback_url is None,
        OutboundCallBuilder::spec_new(from, to, url).fallback_method is None,
        OutboundCallBuilder::spec_new(from, to, url).status_callback is None,
        OutboundCallBuilder::spec_new(from, to, url).status_callback_method is None,
        OutboundCallBuilder::spec_new(from, to, url).status_callback_event@.len() == 0,
        OutboundCallBuilder::spec_new(from, to, url).send_digits is None,
        b.spec_with_method(method).method == Some(method),
        (OutboundCallBuilder { method: b.method, ..b.spec_with_method(method) }) == b,
        b.spec_with_fallback_url(fallback_url).fallback_url == Some(fallback_url),
        (OutboundCallBuilder { fallback_url: b.fallback_url, ..b.spec_with_fallback_url(fallback_url) })
            == b,
        b.spec_with_fallback_method(fallback_method).fallback_method == Some(fallback_method),
        (OutboundCallBuilder {
            fallback_method: b.fallback_method,
            ..b.spec_with_fallback_method(fallback_method)
        }) == b,
        b.spec_with_status_callback(status_callback).status_callback == Some(status_callback),
        (OutboundCallBuilder {
            status_callback: b.status_callback,
            ..b.spec_with_status_callback(status_callback)
        }) == b,
        b.spec_with_status_callback_events(events).status_callback_event == events,
        (OutboundCallBuilder {
            status_callback_event: b.status_callback_event,
            ..b.spec_with_status_callback_events(events)
        }) == b,
{
}

/// The method asked for is the method written: the form body of a call
/// built after `with_method(m)` holds one `Method` pair, `POST` for
/// `CallbackMethod::Post` and `GET` for `CallbackMethod::Get`; likewise
/// `FallbackMethod` after `with_fallback_method(m)`.
pub proof fn lemma_call_methods_in_body<'a>(
    b: OutboundCallBuilder<'a>,
    method: CallbackMethod,
    fallback_method: CallbackMethod,
    pairs: Seq<(Seq<char>, Seq<char>)>,
    fallback_pairs: Seq<(Seq<char>, Seq<char>)>,
)
    requires
        form_encode(pairs) == form_encode(b.spec_with_method(method).spec_build().form_pairs()),
        form_encode(fallback_pairs) == form_encode(
            b.spec_with_fallback_method(fallback_method).spec_build().form_pairs(),
        ),
    ensures
        values_named(pairs, "Method"@) == seq![
            match method {
                CallbackMethod::Post => "POST"@,
                CallbackMethod::Get => "GET"@,
            },
        ],
        values_named(fallback_pairs, "FallbackMethod"@) == seq![
            match fallback_method {
                CallbackMethod::Post => "POST"@,
                CallbackMethod::Get => "GET"@,
            },
        ],
{
    lemma_call_body_read_back(b.spec_with_method(method).spec_build(), pairs);
    lemma_call_body_read_back(b.spec_with_fallback_method(fallback_method).spec_build(), fallback_pairs);
}

/// A call from `from` to `to` playing `url`, with only its status callback
/// events set, has as its
/// form body exactly `From`, `To`, `Url`, then one `StatusCallbackEvent`
/// pair per event of the list, the k-th naming the k-th event, and nothing
/// else.
pub proof fn lemma_call_with_events_body<'a>(
    from: &'a str,
    to: &'a str,
    url: &'a Url,
    events: &'a [StatusCallbackEvent],
    pairs: Seq<(Seq<char>, Seq<char>)>,
)
    requires
        form_encode(pairs) == form_encode(
            OutboundCallBuilder::spec_new(from, to, url).spec_with_status_callback_events(
                events,
            ).spec_build().form_pairs(),
        ),
    ensures
        pairs.len() == 3 + events@.len(),
        pairs[0] == ("From"@, from@),
        pairs[1] == ("To"@, to@),
        pairs[2] == ("Url"@, url@),
        forall|k: int|
            0 <= k < events@.len() ==> #[trigger] pairs[3 + k] == ("StatusCallbackEvent"@, match events@[k] {
                StatusCallbackEvent::Initiated => "initiated"@,
                StatusCallbackEvent::Ringing => "ringing"@,
                StatusCallbackEvent::Answered => "answered"@,
                StatusCallbackEvent::Completed => "completed"@,
            }),
{
    let call = OutboundCallBuilder::spec_new(from, to, url).spec_with_status_callback_events(
        events,
    ).spec_build();
    lemma_form_encode_injective(pairs, call.form_pairs());
    let head = seq![("From"@, from@), ("To"@, to@), ("Url"@, url@)];
    assert(call.form_pairs() =~= head + event_pairs(events@));
    assert forall|k: int| 0 <= k < events@.len() implies #[trigger] pairs[3 + k] == (
    "StatusCallbackEvent"@,
    match events@[k] {
        StatusCallbackEvent::Initiated => "initiated"@,
        StatusCallbackEvent::Ringing => "ringing"@,
        StatusCallbackEvent::Answered => "answered"@,
        StatusCallbackEvent::Completed => "completed"@,
    },
    ) by {
        assert(pairs[3 + k] == event_pairs(events@)[k]);
    }
}

impl<'a> Calls<'a> {
    /// The client whose account the calls belong to.
    pub closed spec fn spec_client(&self) -> Client {
        *self.client
    }

    /// The Calls API of `client`'s account.
    pub fn new(client: &'a Client) -> (calls: Calls<'a>)
        ensures
            calls.spec_client() == *client,
    {
        Calls { client }
    }

    /// `<account>/Calls/<call_sid>.json`, the URI of one call.
    pub open spec fn spec_call_uri(&self, call_sid: Seq<char>) -> Seq<char> {
        self.spec_client().spec_account_uri() + "/Calls/"@ + call_sid + ".json"@
    }

    /// `<account>/Calls.json`, the URI of the account's calls.
    pub open spec fn spec_calls_uri(&self) -> Seq<char> {
        self.spec_client().spec_account_uri() + "/Calls.json"@
    }

    /// `<account>/Calls.json?PageSize=<page_size>`.
    pub open spec fn spec_calls_page_uri(&self, page_size: u16) -> Seq<char> {
        self.spec_client().spec_account_uri() + "/Calls.json?PageSize="@ + decimal(page_size as nat)
    }

    /// The request that fetches the call `call_sid`:
    /// `GET <account>/Calls/<call_sid>.json` with the client's credentials,
    /// a URI that `hyper` must accept (`try_get_call` tests it).
    pub fn get_call(&self, call_sid: &str) -> (request: ApiRequest)
        requires
            uri_accepts(self.spec_call_uri(call_sid@)),
        ensures
            is_get_request(request, self.spec_client(), self.spec_call_uri(call_sid@)),
    {
        let mut rest = String::from_str("/Calls/");
        rest.append(call_sid);
        rest.append(".json");
        let uri = self.client.account_uri(rest.as_str());
        assert(uri@ =~= self.spec_call_uri(call_sid@));
        self.client.prepare_request(HttpMethod::Get, uri, None)
    }

    /// The request of `get_call`, where `hyper` accepts its URI; `None` where
    /// it refuses it.
    pub fn try_get_call(&self, call_sid: &str) -> (request: Option<ApiRequest>)
        ensures
            request is Some <==> uri_accepts(self.spec_call_uri(call_sid@)),
            request matches Some(r) ==> is_get_request(r, self.spec_client(), self.spec_call_uri(call_sid@)),
    {
        let mut rest = String::from_str("/Calls/");
        rest.append(call_sid);
        rest.append(".json");
        let uri = self.client.account_uri(rest.as_str());
        assert(uri@ =~= self.spec_call_uri(call_sid@));
        if uri_parses(uri.as_str()) {
            Some(self.get_call(call_sid))
        } else {
            None
        }
    }

    /// The request that places `outbound_call`: `POST <account>/Calls.json`
    /// with the call's form body and the client's credentials; `hyper` must
    /// accept the URI (`try_make_call` tests it).
    pub fn make_call(&self, outbound_call: &OutboundCall) -> (request: ApiRequest)
        requires
            uri_accepts(self.spec_calls_uri()),
        ensures
            is_form_request(
                request,
                self.spec_client(),
                self.spec_calls_uri(),
                form_encode(outbound_call.form_pairs()),
            ),
    {
        let url_encoded = outbound_call.to_url_encoded();
        let uri = self.client.account_uri("/Calls.json");
        self.client.prepare_request(HttpMethod::Post, uri, Some(url_encoded))
    }

    /// The request of `make_call`, where `hyper` accepts its URI; `None`
    /// where it refuses it.
    pub fn try_make_call(&self, outbound_call: &OutboundCall) -> (request: Option<ApiRequest>)
        ensures
            request is Some <==> uri_accepts(self.spec_calls_uri()),
            request matches Some(r) ==> is_form_request(
                r,
                self.spec_client(),
                self.spec_calls_uri(),
                form_encode(outbound_call.form_pairs()),
            ),
    {
        let uri = self.client.account_uri("/Calls.json");
        if uri_parses(uri.as_str()) {
            Some(self.make_call(outbound_call))
        } else {
            None
        }
    }

    /// The request that fetches the first page of calls:
    /// `GET <account>/Calls.json` with the client's credentials; `hyper`
    /// must accept the URI (`try_get_calls` tests it).
    pub fn get_calls(&self) -> (request: ApiRequest)
        requires
            uri_accepts(self.spec_calls_uri()),
        ensures
            is_get_request(request, self.spec_client(), self.spec_calls_uri()),
    {
        let uri = self.client.account_uri("/Calls.json");
        self.client.prepare_request(HttpMethod::Get, uri, None)
    }

    /// The request of `get_calls`, where `hyper` accepts its URI; `None`
    /// where it refuses it.
    pub fn try_get_calls(&self) -> (request: Option<ApiRequest>)
        ensures
            request is Some <==> uri_accepts(self.spec_calls_uri()),
            request matches Some(r) ==> is_get_request(r, self.spec_client(), self.spec_calls_uri()),
    {
        let uri = self.client.account_uri("/Calls.json");
        if uri_parses(uri.as_str()) {
            Some(self.get_calls())
        } else {
            None
        }
    }

    /// The request that fetches the first page of calls, `page_size` calls to
    /// a page: `GET <account>/Calls.json?PageSize=<page_size>` with the
    /// client's credentials; `hyper` must accept the URI
    /// (`try_get_calls_with_page_size` tests it).
    pub fn get_calls_with_page_size(&self, page_size: u16) -> (request: ApiRequest)
        requires
            uri_accepts(self.spec_calls_page_uri(page_size)),
        ensures
            is_get_request(request, self.spec_client(), self.spec_calls_page_uri(page_size)),
    {
        let mut rest = String::from_str("/Calls.json?PageSize=");
        let size = decimal_string(page_size as u64);
        rest.append(size.as_str());
        let uri = self.client.account_uri(rest.as_str());
        assert(uri@ =~= self.spec_calls_page_uri(page_size));
        self.client.prepare_request(HttpMethod::Get, uri, None)
    }

    /// The request of `get_calls_with_page_size`, where `hyper` accepts its
    /// URI; `None` where it refuses it.
    pub fn try_get_calls_with_page_size(&self, page_size: u16) -> (request: Option<ApiRequest>)
        ensures
            request is Some <==> uri_accepts(self.spec_calls_page_uri(page_size)),
            request matches Some(r) ==> is_get_request(
                r,
                self.spec_client(),
                self.spec_calls_page_uri(page_size),
            ),
    {
        let mut rest = String::from_str("/Calls.json?PageSize=");
        let size = decimal_string(page_size as u64);
        rest.append(size.as_str());
        let uri = self.client.account_uri(rest.as_str());
        assert(uri@ =~= self.spec_calls_page_uri(page_size));
        if uri_parses(uri.as_str()) {
            Some(self.get_calls_with_page_size(page_size))
        } else {
            None
        }
    }

    /// The request that fetches the page after `page`, if there is one:
    /// `GET` of the page's `next_page_uri` with the client's credentials. The
    /// URI must be one `hyper` accepts, as on every page
    /// `Client::page_from_response` makes (`try_get_next_page` tests it).
    pub fn get_next_page(&self, page: &Page<Call>) -> (request: Option<ApiRequest>)
        requires
            page.next_page_uri matches Some(uri) ==> uri_accepts(uri@),
        ensures
            request is Some <==> page.next_page_uri is Some,
            request matches Some(r) ==> is_get_request(
                r,
                self.spec_client(),
                page.next_page_uri.unwrap()@,
            ) && uri_accepts(r.uri@),
    {
        match &page.next_page_uri {
            Some(uri) => Some(
                self.client.prepare_request(HttpMethod::Get, String::from_str(uri.as_str()), None),
            ),
            None => None,
        }
    }

    /// The result of `get_next_page`, where `hyper` accepts the page's
    /// `next_page_uri` or the page has none; `None` where it refuses it.
    pub fn try_get_next_page(&self, page: &Page<Call>) -> (request: Option<Option<ApiRequest>>)
        ensures
            request is Some <==> (page.next_page_uri matches Some(uri) ==> uri_accepts(uri@)),
            request matches Some(next) ==> (next is Some <==> page.next_page_uri is Some),
            request matches Some(next) ==> (next matches Some(r) ==> is_get_request(
                r,
                self.spec_client(),
                page.next_page_uri.unwrap()@,
            )),
    {
        let accepted = match &page.next_page_uri {
            Some(uri) => uri_parses(uri.as_str()),
            None => true,
        };
        if accepted {
            Some(self.get_next_page(page))
        } else {
            None
        }
    }
}

} // verus!
