//! A client library for the Twilio REST API: it builds the requests that
//! place calls, fetch calls and pages of calls and send messages, encodes
//! their form bodies, and decides what a response means.
use vstd::prelude::*;
use vstd::string::StringExecFns;
use vstd::utf8::encode_utf8;

pub mod calls;
pub mod decimal;
pub mod form;
pub mod json;
pub mod messages;
pub mod serde_helper;
pub mod urls;

use crate::json::{
    find_member, json_document, lemma_member_named_absent, lemma_member_named_first, member_named,
    parse_json_document, texts, JsonMember, JsonMemberView,
};
use crate::serde_helper::JsonField;
use crate::urls::{uri_accepts, uri_parses};

verus! {

/// The root of every request URI.
pub const BASE_URI: &'static str = "https://api.twilio.com";

#[verifier::external_type_specification]
#[verifier::external_body]
pub struct ExHyperError(hyper::Error);

#[verifier::external_type_specification]
#[verifier::external_body]
pub struct ExSerdeJsonError(serde_json::Error);

#[verifier::external_type_specification]
#[verifier::external_body]
pub struct ExHyperBody(hyper::Body);

#[verifier::external_type_specification]
#[verifier::external_body]
#[verifier::reject_recursive_types(T)]
pub struct ExHyperResponse<T>(hyper::Response<T>);

/// Whether the two fields read from a page body are those of the document
/// `doc`: the `next_page_uri` member as a string (`Null` where it is missing
/// or null, `Other` where it is anything else), and the entries of the
/// `calls` member, in order, where it is an array.
pub open spec fn page_fields(
    doc: Option<Seq<(Seq<char>, JsonMemberView)>>,
    next: JsonField,
    calls: Option<Vec<String>>,
) -> bool {
    let next_member = match doc {
        Some(members) => member_named(members, "next_page_uri"@),
        None => None,
    };
    let calls_member = match doc {
        Some(members) => member_named(members, "calls"@),
        None => None,
    };
    &&& match next_member {
        Some(JsonMemberView::String(text)) => (next matches JsonField::String(s) && s@ == text),
        Some(JsonMemberView::Null) => next is Null,
        None => next is Null,
        Some(_) => next is Other,
    }
    &&& match calls_member {
        Some(JsonMemberView::Array(entries)) => (calls matches Some(v) && texts(v@) == entries),
        _ => calls is None,
    }
}

/// What a page body says of the next page is what its first
/// `next_page_uri` member holds, whatever the other members hold: a string
/// is read as that very string, `null` or no such member as no next page,
/// anything else as `Other`. Likewise the calls are the entries of the
/// first `calls` member where it is an array, and none otherwise.
pub proof fn lemma_page_fields_read(
    members: Seq<(Seq<char>, JsonMemberView)>,
    next: JsonField,
    calls: Option<Vec<String>>,
)
    requires
        page_fields(Some(members), next, calls),
    ensures
        (forall|j: int| 0 <= j < members.len() ==> #[trigger] members[j].0 != "next_page_uri"@)
            ==> next is Null,
        forall|i: int|
            0 <= i < members.len() && #[trigger] members[i].0 == "next_page_uri"@ && (forall|j: int|
                0 <= j < i ==> members[j].0 != "next_page_uri"@) ==> match members[i].1 {
                JsonMemberView::String(text) => next matches JsonField::String(s) && s@ == text,
                JsonMemberView::Null => next is Null,
                _ => next is Other,
            },
        (forall|j: int| 0 <= j < members.len() ==> #[trigger] members[j].0 != "calls"@) ==> calls is None,
        forall|i: int|
            0 <= i < members.len() && #[trigger] members[i].0 == "calls"@ && (forall|j: int|
                0 <= j < i ==> members[j].0 != "calls"@) ==> match members[i].1 {
                JsonMemberView::Array(entries) => calls matches Some(v) && texts(v@) == entries,
                _ => calls is None,
            },
{
    if forall|j: int| 0 <= j < members.len() ==> #[trigger] members[j].0 != "next_page_uri"@ {
        lemma_member_named_absent(members, "next_page_uri"@);
    }
    if forall|j: int| 0 <= j < members.len() ==> #[trigger] members[j].0 != "calls"@ {
        lemma_member_named_absent(members, "calls"@);
    }
    assert forall|i: int|
        0 <= i < members.len() && #[trigger] members[i].0 == "next_page_uri"@ && (forall|j: int|
            0 <= j < i ==> members[j].0 != "next_page_uri"@) implies match members[i].1 {
        JsonMemberView::String(text) => next matches JsonField::String(s) && s@ == text,
        JsonMemberView::Null => next is Null,
        _ => next is Other,
    } by {
        lemma_member_named_first(members, "next_page_uri"@, i);
    }
    assert forall|i: int|
        0 <= i < members.len() && #[trigger] members[i].0 == "calls"@ && (forall|j: int|
            0 <= j < i ==> members[j].0 != "calls"@) implies match members[i].1 {
        JsonMemberView::Array(entries) => calls matches Some(v) && texts(v@) == entries,
        _ => calls is None,
    } by {
        lemma_member_named_first(members, "calls"@, i);
    }
}

/// The credentials of a Twilio account; requests are made on its behalf.
pub struct Client {
    account_sid: String,
    auth_token: String,
}

/// What can go wrong with a request.
#[derive(Debug)]
pub enum TwilioError {
    /// The HTTP exchange failed.
    Hyper(hyper::Error),
    /// The response body was not the JSON that was expected.
    Serde(serde_json::Error),
    /// The server answered with a status other than 200 or 201.
    BadResponse(hyper::Response<hyper::Body>),
    /// A page of results lacks its list of items.
    MalformedResponse,
}

/// One page of a list of results, and the URI of the next page if there is one.
pub struct Page<T> {
    pub items: Vec<T>,
    /// The absolute URI of the next page. On the pages that
    /// `Client::page_from_response` makes it is one that `hyper` accepts;
    /// `Calls::get_next_page` asks for that.
    pub next_page_uri: Option<String>,
}

/// A value that can be written as an `application/x-www-form-urlencoded` body.
pub trait ToUrlEncoded {
    fn to_url_encoded(&self) -> String;
}

/// The HTTP methods of the requests this library makes.
#[derive(Debug, Clone, Copy, PartialEq, Eq, Structural)]
pub enum HttpMethod {
    Get,
    Post,
}

/// A request to the API, ready to send: its method, its absolute URI, its
/// form-encoded body with the `Content-Type` and `Content-Length` headers
/// that go with it (for a `POST`), and the user name and password of its
/// basic authorization.
pub struct ApiRequest {
    pub method: HttpMethod,
    pub uri: String,
    pub form_body: Option<String>,
    pub content_type: Option<String>,
    pub content_length: Option<u64>,
    pub username: String,
    pub password: String,
}

/// The content type of form bodies.
pub open spec fn form_content_type() -> Seq<char> {
    "application/x-www-form-urlencoded"@
}

/// The length of a text in UTF-8 bytes, as `str::len` gives it.
pub open spec fn content_length_of(text: Seq<char>) -> u64 {
    (encode_utf8(text).len() as usize) as u64
}

/// `request` is a `GET` of `uri`, with no body and no content headers,
/// authorized by `client`'s account SID and auth token.
pub open spec fn is_get_request(request: ApiRequest, client: Client, uri: Seq<char>) -> bool {
    &&& request.method == HttpMethod::Get
    &&& request.uri@ == uri
    &&& request.form_body is None
    &&& request.content_type is None
    &&& request.content_length is None
    &&& request.username@ == client.spec_account_sid()
    &&& request.password@ == client.spec_auth_token()
}

/// `request` is a `POST` of the form body `body` to `uri`, with the form
/// content type, the body's length in UTF-8 bytes as its content length,
/// authorized by `client`'s account SID and auth token.
pub open spec fn is_form_request(request: ApiRequest, client: Client, uri: Seq<char>, body: Seq<char>) -> bool {
    &&& request.method == HttpMethod::Post
    &&& request.uri@ == uri
    &&& (request.form_body matches Some(b) && b@ == body)
    &&& (request.content_type matches Some(t) && t@ == form_content_type())
    &&& request.content_length == Some(content_length_of(body))
    &&& request.username@ == client.spec_account_sid()
    &&& request.password@ == client.spec_auth_token()
}

/// The status code that a response carries.
pub uninterp spec fn status_code(response: hyper::Response<hyper::Body>) -> u16;

/// `response.status().as_u16()`: the response's status code.
#[verifier::external_body]
fn response_status(response: &hyper::Response<hyper::Body>) -> (status: u16)
    ensures
        status == status_code(*response),
{
    response.status().as_u16()
}

impl Client {
    /// The account's SID, as the client holds it.
    pub closed spec fn spec_account_sid(&self) -> Seq<char> {
        self.account_sid@
    }

    /// The account's auth token, as the client holds it.
    pub closed spec fn spec_auth_token(&self) -> Seq<char> {
        self.auth_token@
    }

    /// A client for the account `account_sid`, authenticated by `auth_token`.
    pub fn new(account_sid: &str, auth_token: &str) -> (client: Client)
        ensures
            client.spec_account_sid() == account_sid@,
            client.spec_auth_token() == auth_token@,
    {
        Client { account_sid: String::from_str(account_sid), auth_token: String::from_str(auth_token) }
    }

    /// The account's SID: the user name of the requests' basic authorization.
    pub fn account_sid(&self) -> (sid: &str)
        ensures
            sid@ == self.spec_account_sid(),
    {
        self.account_sid.as_str()
    }

    /// The auth token: the password of the requests' basic authorization.
    pub fn auth_token(&self) -> (token: &str)
        ensures
            token@ == self.spec_auth_token(),
    {
        self.auth_token.as_str()
    }

    /// The request of `method` to `uri` with `form_body`, as it is sent: with
    /// the form content type and the body's length in bytes where there is a
    /// body, and the client's account SID and auth token as its basic
    /// authorization.
    pub fn prepare_request(&self, method: HttpMethod, uri: String, form_body: Option<String>) -> (request: ApiRequest)
        ensures
            request.method == method,
            request.uri == uri,
            request.form_body == form_body,
            match form_body {
                Some(b) => (request.content_type matches Some(t) && t@ == form_content_type())
                    && request.content_length == Some(content_length_of(b@)),
                None => request.content_type is None && request.content_length is None,
            },
            request.username@ == self.spec_account_sid(),
            request.password@ == self.spec_auth_token(),
    {
        let (content_type, content_length) = match &form_body {
            Some(b) => (
                Some(String::from_str("application/x-www-form-urlencoded")),
                Some(b.as_str().len() as u64),
            ),
            None => (None, None),
        };
        ApiRequest {
            method,
            uri,
            form_body,
            content_type,
            content_length,
            username: String::from_str(self.account_sid.as_str()),
            password: String::from_str(self.auth_token.as_str()),
        }
    }

    /// `BASE_URI/2010-04-01/Accounts/<account sid>`, the root of the account's resources.
    pub open spec fn spec_account_uri(&self) -> Seq<char> {
        BASE_URI@ + "/2010-04-01/Accounts/"@ + self.spec_account_sid()
    }

    /// Builds `BASE_URI/2010-04-01/Accounts/<account sid>` followed by `rest`.
    pub fn account_uri(&self, rest: &str) -> (uri: String)
        ensures
            uri@ == self.spec_account_uri() + rest@,
    {
        let mut uri = String::from_str(BASE_URI);
        uri.append("/2010-04-01/Accounts/");
        uri.append(self.account_sid.as_str());
        uri.append(rest);
        uri
    }

    /// Whether a response with this status is read as a result: only
    /// 200 (OK) and 201 (Created) are.
    pub fn accepts_status(status: u16) -> (accepted: bool)
        ensures
            accepted == (status == 200 || status == 201),
    {
        status == 200 || status == 201
    }

    /// Passes on a response whose status is accepted, and turns any other
    /// into `TwilioError::BadResponse`, which holds the response.
    pub fn check_response(response: hyper::Response<hyper::Body>) -> (r: Result<
        hyper::Response<hyper::Body>,
        TwilioError,
    >)
        ensures
            r is Ok <==> (status_code(response) == 200 || status_code(response) == 201),
            r matches Ok(passed) ==> passed == response,
            r matches Err(e) ==> e == TwilioError::BadResponse(response),
    {
        let status = response_status(&response);
        if Self::accepts_status(status) {
            Ok(response)
        } else {
            Err(TwilioError::BadResponse(response))
        }
    }

    /// The URI of the next page that a page names: `BASE_URI` followed by
    /// the `next_page_uri` field where that field is a string and the result
    /// is a URI `hyper` accepts, and none otherwise.
    pub open spec fn spec_next_page_uri(next_page_uri: JsonField) -> Option<Seq<char>> {
        match next_page_uri {
            JsonField::String(path) => if uri_accepts(BASE_URI@ + path@) {
                Some(BASE_URI@ + path@)
            } else {
                None
            },
            _ => None,
        }
    }

    /// Reads the body of a page of calls: the `next_page_uri` member (a
    /// string, `Null` where it is missing or null, `Other` otherwise), and
    /// the entries of the `calls` member, as JSON text, where it is an
    /// array. A body that is not JSON is `TwilioError::Serde`.
    pub fn read_page_body(body: &[u8]) -> (r: Result<(JsonField, Option<Vec<String>>), TwilioError>)
        ensures
            r is Ok <==> json_document(body@) is Some,
            r matches Err(e) ==> e is Serde,
            r matches Ok(fields) ==> page_fields(json_document(body@).unwrap(), fields.0, fields.1),
    {
        match parse_json_document(body) {
            Err(e) => Err(TwilioError::Serde(e)),
            Ok(None) => Ok((JsonField::Null, None)),
            Ok(Some(mut members)) => {
                let next = match find_member(&members, "next_page_uri") {
                    Some(i) => match &members[i].1 {
                        JsonMember::Null => JsonField::Null,
                        JsonMember::String(s) => JsonField::String(s.clone()),
                        _ => JsonField::Other,
                    },
                    None => JsonField::Null,
                };
                let ghost before = members@;
                let calls = match find_member(&members, "calls") {
                    Some(i) => {
                        let (_, member) = members.remove(i);
                        assert(member == before[i as int].1);
                        match member {
                            JsonMember::Array(entries) => Some(entries),
                            _ => None,
                        }
                    },
                    None => None,
                };
                Ok((next, calls))
            },
        }
    }

    /// Assembles a page of results from the two fields of the response that
    /// it reads: `next_page_uri`, and `items`, the list of results, which is
    /// `None` where the response has no list under its key. A missing list
    /// is `TwilioError::MalformedResponse`.
    pub fn page_from_response<T>(next_page_uri: &JsonField, items: Option<Vec<T>>) -> (r: Result<
        Page<T>,
        TwilioError,
    >)
        ensures
            r is Ok <==> items is Some,
            r matches Ok(page) ==> page.items == items.unwrap() && (match page.next_page_uri {
                Some(uri) => Self::spec_next_page_uri(*next_page_uri) == Some(uri@),
                None => Self::spec_next_page_uri(*next_page_uri) is None,
            }),
            r matches Err(e) ==> e is MalformedResponse,
    {
        let next = match next_page_uri {
            JsonField::String(path) => {
                let mut uri = String::from_str(BASE_URI);
                uri.append(path.as_str());
                if uri_parses(uri.as_str()) {
                    Some(uri)
                } else {
                    None
                }
            },
            _ => None,
        };
        match items {
            Some(items) => Ok(Page { items, next_page_uri: next }),
            None => Err(TwilioError::MalformedResponse),
        }
    }
}

} // verus!
