//! What is sent over HTTP, and how an answer is read: addresses, headers, forms, calls, replies.

use crate::dto::rpc::JsonRpcRequest;
use crate::error::ClientError;
use crate::text::{decimal_text, digits, trimmed};
use reqwest::header::{HeaderValue, InvalidHeaderValue};
use reqwest::Identity;
use vstd::prelude::*;
use vstd::string::StringExecFns;

verus! {

/// Where certificate logins go.
pub const LOGIN_URL: &'static str = "https://identitysso-cert.betfair.com/api/certlogin";

/// Where interactive logins go.
pub const INTERACTIVE_LOGIN_URL: &'static str = "https://identitysso.betfair.com/api/login";

/// Where calls about markets and orders go.
pub const BETTING_URL: &'static str = "https://api.betfair.com/exchange/betting/json-rpc/v1";

/// Where calls about the account go.
pub const ACCOUNT_URL: &'static str = "https://api.betfair.com/exchange/account/json-rpc/v1";

/// The error of the `http` crate for a text that cannot be a header value, as an opaque value.
#[verifier::external_type_specification]
#[verifier::external_body]
pub struct ExInvalidHeaderValue(reqwest::header::InvalidHeaderValue);

/// A client certificate with its key, as an opaque value of the `reqwest` crate.
#[verifier::external_type_specification]
#[verifier::external_body]
pub struct ExIdentity(reqwest::Identity);

/// Whether a text can stand as the value of a header: no character below 32 but the tab, and no
/// character 127.
pub open spec fn header_text_ok(text: Seq<char>) -> bool {
    forall|i: int|
        0 <= i < text.len() ==> #[trigger] text[i] == '\t' || (text[i] as u32 >= 32
            && text[i] as u32 != 127)
}

/// Calls `HeaderValue::from_str`. It looks at the UTF-8 bytes of the text and refuses those below
/// 32, but for the tab, and 127. Such a byte is always a character of its own, so the contract
/// says the same of the characters. The value that it makes of the text is dropped.
#[verifier::external_body]
pub(crate) fn check_header_value(text: &str) -> (outcome: Result<(), InvalidHeaderValue>)
    ensures
        outcome is Ok <==> header_text_ok(text@),
{
    HeaderValue::from_str(text).map(|_| ())
}

/// The wording of the refusal of a header value.
pub open spec fn header_refusal() -> Seq<char> {
    "failed to parse header value"@
}

/// Whether an error is the refusal of a header value, with its wording.
pub open spec fn header_refused(error: ClientError) -> bool {
    error matches ClientError::InvalidHeader { error: wording } && wording@ == header_refusal()
}

/// Formats an `InvalidHeaderValue` with `Display`, which writes one fixed wording.
#[verifier::external_body]
pub(crate) fn header_error_text(error: &InvalidHeaderValue) -> (wording: String)
    ensures
        wording@ == header_refusal(),
{
    error.to_string()
}

/// What `Identity::from_pem` makes of the bytes of a PEM file: an identity, or the wording of its
/// error.
pub uninterp spec fn pem_identity(pem: Seq<u8>) -> Result<Identity, Seq<char>>;

/// Calls `Identity::from_pem`, which reads a private key and certificates out of the bytes of a
/// PEM file. Believed of it: what it returns depends on the bytes alone. Which bytes hold an
/// identity is left unsaid.
#[verifier::external_body]
pub(crate) fn parse_pem_identity(pem: &[u8]) -> (identity: Result<Identity, String>)
    ensures
        match identity {
            Ok(identity) => pem_identity(pem@) == Ok::<Identity, Seq<char>>(identity),
            Err(error) => pem_identity(pem@) == Err::<Identity, Seq<char>>(error@),
        },
{
    Identity::from_pem(pem).map_err(|error| error.to_string())
}

/// Calls `rand::random`. Any number may come back.
#[verifier::external_body]
pub(crate) fn random_number() -> (number: u128) {
    rand::random::<u128>()
}

/// Reads the client certificate out of the contents of a PEM file.
pub fn load_pem_identity(pem: &[u8]) -> (identity: Result<Identity, ClientError>)
    ensures
        match pem_identity(pem@) {
            Ok(parsed) => identity matches Ok(identity) && identity == parsed,
            Err(wording) => identity matches Err(ClientError::PemInvalid { error }) && error@
                == wording,
        },
{
    match parse_pem_identity(pem) {
        Ok(identity) => Ok(identity),
        Err(error) => Err(ClientError::PemInvalid { error }),
    }
}

/// A header of a request.
#[derive(Debug, Clone)]
pub struct Header {
    pub name: String,
    pub value: String,
}

/// A field of a form.
#[derive(Debug, Clone)]
pub struct FormField {
    pub name: String,
    pub value: String,
}

/// The names and values of headers.
pub open spec fn header_pairs(headers: Seq<Header>) -> Seq<(Seq<char>, Seq<char>)> {
    headers.map_values(|header: Header| (header.name@, header.value@))
}

/// The names and values of form fields.
pub open spec fn form_pairs(fields: Seq<FormField>) -> Seq<(Seq<char>, Seq<char>)> {
    fields.map_values(|field: FormField| (field.name@, field.value@))
}

fn make_header(name: &str, value: &str) -> (header: Result<Header, ClientError>)
    ensures
        match header {
            Ok(header) => header_text_ok(value@) && header.name@ == name@ && header.value@
                == value@,
            Err(error) => !header_text_ok(value@) && header_refused(error),
        },
{
    match check_header_value(value) {
        Ok(_) => Ok(Header { name: name.to_string(), value: value.to_string() }),
        Err(error) => Err(ClientError::InvalidHeader { error: header_error_text(&error) }),
    }
}

fn fixed_header(name: &str, value: &str) -> (header: Header)
    ensures
        header.name@ == name@,
        header.value@ == value@,
{
    Header { name: name.to_string(), value: value.to_string() }
}

/// The form of a login.
pub open spec fn credentials(username: Seq<char>, password: Seq<char>) -> Seq<
    (Seq<char>, Seq<char>),
> {
    seq![("username"@, username), ("password"@, password)]
}

fn credentials_form(username: &String, password: &String) -> (form: Vec<FormField>)
    ensures
        form_pairs(form@) == credentials(username@, password@),
{
    let mut form: Vec<FormField> = Vec::new();
    form.push(FormField { name: "username".to_string(), value: username.clone() });
    form.push(FormField { name: "password".to_string(), value: password.clone() });
    proof {
        assert(form_pairs(form@) =~= credentials(username@, password@));
    }
    form
}

/// The headers of a certificate login. The application is named twice, by its key and by a
/// number.
pub open spec fn login_header_pairs(api_key: Seq<char>, number: nat) -> Seq<
    (Seq<char>, Seq<char>),
> {
    seq![
        ("X-Application"@, api_key),
        ("Content-Type"@, "application/x-www-form-urlencoded"@),
        ("X-Application"@, "app_"@ + digits(number)),
    ]
}

/// Builds the headers of a certificate login around a given number.
pub fn login_headers(api_key: &str, number: u128) -> (headers: Result<Vec<Header>, ClientError>)
    ensures
        match headers {
            Ok(headers) => header_text_ok(api_key@) && header_pairs(headers@)
                == login_header_pairs(api_key@, number as nat),
            Err(error) => !header_text_ok(api_key@) && header_refused(error),
        },
{
    match make_header("X-Application", api_key) {
        Ok(application) => {
            let mut tag = "app_".to_string();
            tag.append(decimal_text(number).as_str());
            let mut headers: Vec<Header> = Vec::new();
            headers.push(application);
            headers.push(fixed_header("Content-Type", "application/x-www-form-urlencoded"));
            headers.push(Header { name: "X-Application".to_string(), value: tag });
            proof {
                assert(header_pairs(headers@) =~= login_header_pairs(api_key@, number as nat));
            }
            Ok(headers)
        },
        Err(error) => Err(error),
    }
}

/// A login with a client certificate.
#[derive(Debug, Clone)]
pub struct LoginCall {
    pub url: String,
    pub pem_path: String,
    pub api_key: String,
    pub username: String,
    pub password: String,
}

impl LoginCall {
    /// The headers of one attempt. The number in them is drawn anew each time.
    pub fn headers(&self) -> (headers: Result<Vec<Header>, ClientError>)
        ensures
            match headers {
                Ok(headers) => header_text_ok(self.api_key@) && exists|number: u128|
                    header_pairs(headers@) == #[trigger] login_header_pairs(
                        self.api_key@,
                        number as nat,
                    ),
                Err(error) => !header_text_ok(self.api_key@) && header_refused(error),
            },
    {
        login_headers(self.api_key.as_str(), random_number())
    }

    /// The form.
    pub fn form(&self) -> (form: Vec<FormField>)
        ensures
            form_pairs(form@) == credentials(self.username@, self.password@),
    {
        credentials_form(&self.username, &self.password)
    }
}

/// A login by name and password.
#[derive(Debug, Clone)]
pub struct InteractiveLoginCall {
    pub url: String,
    pub api_key: String,
    pub username: String,
    pub password: String,
}

/// The headers of an interactive login.
pub open spec fn interactive_header_pairs(api_key: Seq<char>) -> Seq<(Seq<char>, Seq<char>)> {
    seq![
        ("X-Application"@, api_key),
        ("Content-Type"@, "application/x-www-form-urlencoded"@),
        ("Accept"@, "application/json"@),
    ]
}

impl InteractiveLoginCall {
    /// The headers.
    pub fn headers(&self) -> (headers: Result<Vec<Header>, ClientError>)
        ensures
            match headers {
                Ok(headers) => header_text_ok(self.api_key@) && header_pairs(headers@)
                    == interactive_header_pairs(self.api_key@),
                Err(error) => !header_text_ok(self.api_key@) && header_refused(error),
            },
    {
        match make_header("X-Application", self.api_key.as_str()) {
            Ok(application) => {
                let mut headers: Vec<Header> = Vec::new();
                headers.push(application);
                headers.push(fixed_header("Content-Type", "application/x-www-form-urlencoded"));
                headers.push(fixed_header("Accept", "application/json"));
                proof {
                    assert(header_pairs(headers@) =~= interactive_header_pairs(self.api_key@));
                }
                Ok(headers)
            },
            Err(error) => Err(error),
        }
    }

    /// The form.
    pub fn form(&self) -> (form: Vec<FormField>)
        ensures
            form_pairs(form@) == credentials(self.username@, self.password@),
    {
        credentials_form(&self.username, &self.password)
    }
}

/// A JSON-RPC call.
#[derive(Debug, Clone)]
pub struct RpcCall<T> {
    pub url: String,
    pub api_key: String,
    pub session_token: String,
    pub body: JsonRpcRequest<T>,
}

/// The headers of a JSON-RPC call.
pub open spec fn rpc_header_pairs(api_key: Seq<char>, session_token: Seq<char>) -> Seq<
    (Seq<char>, Seq<char>),
> {
    seq![
        ("X-Application"@, api_key),
        ("X-Authentication"@, session_token),
        ("Content-Type"@, "application/json"@),
    ]
}

impl<T> RpcCall<T> {
    /// The headers.
    pub fn headers(&self) -> (headers: Result<Vec<Header>, ClientError>)
        ensures
            match headers {
                Ok(headers) => header_text_ok(self.api_key@) && header_text_ok(self.session_token@)
                    && header_pairs(headers@) == rpc_header_pairs(
                    self.api_key@,
                    self.session_token@,
                ),
                Err(error) => !(header_text_ok(self.api_key@) && header_text_ok(
                    self.session_token@,
                )) && header_refused(error),
            },
    {
        let application = match make_header("X-Application", self.api_key.as_str()) {
            Ok(header) => header,
            Err(error) => return Err(error),
        };
        let authentication = match make_header("X-Authentication", self.session_token.as_str()) {
            Ok(header) => header,
            Err(error) => return Err(error),
        };
        let mut headers: Vec<Header> = Vec::new();
        headers.push(application);
        headers.push(authentication);
        headers.push(fixed_header("Content-Type", "application/json"));
        proof {
            assert(header_pairs(headers@) =~= rpc_header_pairs(
                self.api_key@,
                self.session_token@,
            ));
        }
        Ok(headers)
    }
}

/// The budgets that calls are counted against.
#[derive(Debug, Clone, Copy, PartialEq, Eq, Structural)]
pub enum RateClass {
    /// Looking for markets and prices.
    Navigation,
    /// Moving money and orders.
    Transaction,
    /// Reading an account's data.
    Data,
}

/// A call and what it costs. Every budget of `limits` is drawn on once, in order and before
/// `call` is looked at.
#[derive(Debug)]
pub struct ApiRequest<T> {
    pub limits: Vec<RateClass>,
    pub call: Result<RpcCall<T>, ClientError>,
}

/// An answer: its status code, the code with its reason as text, and the body.
#[derive(Debug, Clone)]
pub struct HttpReply {
    pub code: u16,
    pub status: String,
    pub body: String,
}

/// Whether a status code tells of success.
pub open spec fn success_code(code: u16) -> bool {
    200 <= code < 300
}

impl HttpReply {
    /// The body of the answer to a JSON-RPC call. Any status but success is an error.
    pub fn rpc_body(self) -> (body: Result<String, ClientError>)
        ensures
            if success_code(self.code) {
                body matches Ok(body) && body@ == self.body@
            } else {
                body matches Err(ClientError::ApiStatus { status, body }) && status@ == self.status@
                    && body@ == self.body@
            },
    {
        if 200 <= self.code && self.code < 300 {
            Ok(self.body)
        } else {
            Err(ClientError::ApiStatus { status: self.status, body: self.body })
        }
    }

    /// The body of the answer to an interactive login. Any status but success is an error.
    pub fn interactive_login_body(self) -> (body: Result<String, ClientError>)
        ensures
            if success_code(self.code) {
                body matches Ok(body) && body@ == self.body@
            } else {
                body matches Err(ClientError::InteractiveStatus { status, body }) && status@
                    == self.status@ && trimmed(self.body@, body@)
            },
    {
        if 200 <= self.code && self.code < 300 {
            Ok(self.body)
        } else {
            let body = self.body.as_str().trim().to_string();
            Err(ClientError::InteractiveStatus { status: self.status, body })
        }
    }
}

} // verus!
