//! The session client: from a device identity to authenticated requests.
//!
//! The client never touches the network. It says which request to send and
//! what a response means; sending is the caller's part.

pub mod encoding;
pub mod endpoints;
pub mod http;
pub mod template;

use vstd::prelude::*;
use vstd::string::*;
use crate::api::encoding::{base64_decode, base64_decoded};
use crate::api::endpoints::EndpointMap;
use crate::api::http::{is_method_token, parse_method, status_head, status_line, Status};
use crate::api::template::{fill, substitute};
use crate::event::{batch_json, batch_view, DeviceOSIds, Taxonomy, TelemetryEvent};

verus! {

/// The address that every request path is appended to.
pub const BASE_URL: &'static str = "API_URL";

/// The seconds that the caller waits for a response before it gives the
/// request up as failed.
pub const TIMEOUT_SECS: u64 = 30;

/// What the service answers to the bootstrap request.
pub struct TokenResponse {
    pub detail: String,
    pub token: String,
    pub device_id: String,
    pub endpoints: EndpointMap,
}

/// The structured body of a response that reports a failure.
pub struct ErrorResponse {
    pub message: String,
}

/// One finding in the service's answer to an upload.
pub struct EventsResponseDetail {
    pub loc: (String, String, u32, String, String),
    pub msg: String,
    pub type_: String,
}

/// The service's answer to an upload that it did not take as it stands.
pub struct EventsResponse {
    pub detail: Vec<EventsResponseDetail>,
}

/// A request for the caller to send.
pub struct Request {
    pub method: String,
    pub url: String,
    pub headers: Vec<(String, String)>,
    pub query: Vec<(String, String)>,
    pub body: Option<Vec<u8>>,
}

/// Why the client could not go on.
#[derive(Debug)]
pub enum ApiError {
    /// The service refused the bootstrap request.
    Authentication { text: String },
    /// The session has no endpoint of that name.
    EndpointNotConfigured { name: String },
    /// The endpoint's method is no HTTP method.
    InvalidMethod { method: String },
    /// The service answered a request with a status that is no success.
    Request { text: String },
    /// A response body did not have the encoding it was promised in.
    Decode,
}

/// The message of a structured error body, if there is one.
pub open spec fn message_of(error: Option<ErrorResponse>) -> Option<Seq<char>> {
    match error {
        Some(e) => Some(e.message@),
        None => None,
    }
}

/// The text of a failure: the status, then a colon, a space and the message
/// where the response carried one.
pub open spec fn failure_text(status: Seq<char>, message: Option<Seq<char>>) -> Seq<char> {
    match message {
        Some(m) => status + seq![':', ' '] + m,
        None => status,
    }
}

/// Joins the text of a status with the message of the error body, if any.
pub fn describe_failure(status: &str, error: &Option<ErrorResponse>) -> (text: String)
    ensures
        text@ == failure_text(status@, message_of(*error)),
{
    let mut text = status.to_owned();
    if let Some(e) = error {
        proof {
            reveal_strlit(": ");
        }
        text.append(": ");
        text.append(e.message.as_str());
    }
    text
}

/// The text of the failure that a response without success reports. It
/// begins with the number of the status and, where the response carried a
/// message, ends with that message.
pub fn err_from_resp(status: Status, error: Option<ErrorResponse>) -> (text: String)
    ensures
        text@ == failure_text(status_line(status.code()), message_of(error)),
        status_head(status.code()).is_prefix_of(text@),
        error matches Some(e) ==> e.message@.is_suffix_of(text@),
        error is None ==> text@ == status_line(status.code()),
{
    let line = status.text();
    describe_failure(line.as_str(), &error)
}

/// What a decoder's verdict on a compressed download means for the caller.
pub fn decoded(verdict: Result<Vec<u8>, base64::DecodeError>) -> (bytes: Result<Vec<u8>, ApiError>)
    ensures
        match verdict {
            Ok(b) => bytes == Ok::<Vec<u8>, ApiError>(b),
            Err(_) => bytes matches Err(ApiError::Decode),
        },
{
    match verdict {
        Ok(b) => Ok(b),
        Err(_) => Err(ApiError::Decode),
    }
}

/// The bytes of a download: a compressed one travels as base64 text and is
/// decoded, any other is taken as it came.
pub fn decode_download(zip: bool, body: Vec<u8>) -> (bytes: Result<Vec<u8>, ApiError>)
    ensures
        !zip ==> bytes == Ok::<Vec<u8>, ApiError>(body),
        zip ==> match base64_decoded(body@) {
            Some(raw) => (bytes matches Ok(b) && b@ == raw),
            None => bytes matches Err(ApiError::Decode),
        },
{
    if zip {
        decoded(base64_decode(body.as_slice()))
    } else {
        Ok(body)
    }
}

/// What a response to an authenticated request means: its body where the
/// status reports success, the failure it reports otherwise.
pub fn response(status: Status, body: Vec<u8>, error: Option<ErrorResponse>) -> (r: Result<
    Vec<u8>,
    ApiError,
>)
    ensures
        status.is_success() ==> r == Ok::<Vec<u8>, ApiError>(body),
        !status.is_success() ==> (r matches Err(ApiError::Request { text }) && text@
            == failure_text(status_line(status.code()), message_of(error))),
{
    if status.is_success() {
        Ok(body)
    } else {
        Err(ApiError::Request { text: err_from_resp(status, error) })
    }
}

/// An authenticated session with the service.
pub struct Api {
    ids: DeviceOSIds,
    token_resp: TokenResponse,
}

impl Api {
    /// The identity that the session was opened for.
    pub closed spec fn ids(&self) -> DeviceOSIds {
        self.ids
    }

    /// What the service answered when the session was opened.
    pub closed spec fn session(&self) -> TokenResponse {
        self.token_resp
    }

    /// Whether the session can resolve `name`: it has such an endpoint, and
    /// the endpoint's method is an HTTP method.
    pub open spec fn resolves(&self, name: Seq<char>) -> bool {
        &&& self.session().endpoints@.contains_key(name)
        &&& is_method_token(self.session().endpoints@[name].0)
    }

    /// The method of the endpoint `name`.
    pub open spec fn method_of(&self, name: Seq<char>) -> Seq<char> {
        self.session().endpoints@[name].0
    }

    /// The URL of the endpoint `name`: the base address, then the endpoint's
    /// template with the assigned device ID and the caller's OS-install ID
    /// in place of their placeholders.
    pub open spec fn url_of(&self, name: Seq<char>) -> Seq<char> {
        BASE_URL@ + substitute(
            self.session().endpoints@[name].1,
            self.session().device_id@,
            self.ids().os_install_uuid@,
        )
    }

    /// Whether `error` is what resolving `name` fails with: the name where
    /// the session has no such endpoint, the method where it is no HTTP
    /// method.
    pub open spec fn refuses(&self, name: Seq<char>, error: ApiError) -> bool {
        match error {
            ApiError::EndpointNotConfigured { name: n } => {
                &&& !self.session().endpoints@.contains_key(name)
                &&& n@ == name
            },
            ApiError::InvalidMethod { method } => {
                &&& self.session().endpoints@.contains_key(name)
                &&& !is_method_token(self.method_of(name))
                &&& method@ == self.method_of(name)
            },
            _ => false,
        }
    }

    /// Whether `request` goes to the endpoint `name` of this session: the
    /// endpoint's method and URL, and the session's token as the only header.
    pub open spec fn addresses(&self, name: Seq<char>, request: Request) -> bool {
        &&& self.resolves(name)
        &&& request.method@ == self.method_of(name)
        &&& request.url@ == self.url_of(name)
        &&& request.headers@.len() == 1
        &&& request.headers@[0].0@ == "authorizationToken"@
        &&& request.headers@[0].1@ == self.session().token@
    }

    /// The request that opens a session: the identity, as `body`, posted to
    /// the token endpoint.
    pub fn bootstrap(body: Vec<u8>) -> (request: Request)
        ensures
            request.method@ == "POST"@,
            request.url@ == BASE_URL@ + "/data/token"@,
            request.headers@.len() == 0,
            request.query@.len() == 0,
            request.body == Some(body),
    {
        let mut url = BASE_URL.to_owned();
        url.append("/data/token");
        Request {
            method: "POST".to_owned(),
            url,
            headers: Vec::new(),
            query: Vec::new(),
            body: Some(body),
        }
    }

    /// Opens the session from the answer to the bootstrap request.
    ///
    /// `token_resp` is the body where it has the shape of a token response,
    /// `error` the body where it has the shape of a structured error.
    pub fn new(
        ids: DeviceOSIds,
        status: Status,
        token_resp: Option<TokenResponse>,
        error: Option<ErrorResponse>,
    ) -> (api: Result<Api, ApiError>)
        ensures
            status.is_success() && token_resp is Some ==> (api matches Ok(a) && a.ids() == ids
                && a.session() == token_resp->0),
            status.is_success() && token_resp is None ==> api matches Err(ApiError::Decode),
            !status.is_success() ==> (api matches Err(ApiError::Authentication { text }) && text@
                == failure_text(status_line(status.code()), message_of(error))),
    {
        if status.is_success() {
            match token_resp {
                Some(token_resp) => Ok(Api { ids, token_resp }),
                None => Err(ApiError::Decode),
            }
        } else {
            Err(ApiError::Authentication { text: err_from_resp(status, error) })
        }
    }

    /// The method and the URL of the endpoint `name`.
    pub fn url(&self, name: &str) -> (resolved: Result<(String, String), ApiError>)
        ensures
            match resolved {
                Ok((method, url)) => {
                    &&& self.resolves(name@)
                    &&& method@ == self.method_of(name@)
                    &&& url@ == self.url_of(name@)
                },
                Err(error) => self.refuses(name@, error),
            },
    {
        match self.token_resp.endpoints.get(name) {
            None => Err(ApiError::EndpointNotConfigured { name: name.to_owned() }),
            Some((method, template)) => {
                match parse_method(method.as_str()) {
                    None => Err(ApiError::InvalidMethod { method: method.clone() }),
                    Some(method) => {
                        let path = fill(
                            template.as_str(),
                            self.token_resp.device_id.as_str(),
                            self.ids.os_install_uuid.as_str(),
                        );
                        let mut url = BASE_URL.to_owned();
                        url.append(path.as_str());
                        Ok((method, url))
                    },
                }
            },
        }
    }

    /// The request for the endpoint `name`, with the session's token in the
    /// authorization header, the given query parameters and the given body.
    pub fn request(&self, name: &str, query: Vec<(String, String)>, body: Option<Vec<u8>>) -> (r:
        Result<Request, ApiError>)
        ensures
            match r {
                Ok(request) => {
                    &&& self.addresses(name@, request)
                    &&& request.query == query
                    &&& request.body == body
                },
                Err(error) => self.refuses(name@, error),
            },
    {
        match self.url(name) {
            Err(error) => Err(error),
            Ok((method, url)) => {
                let mut headers: Vec<(String, String)> = Vec::new();
                headers.push(("authorizationToken".to_owned(), self.token_resp.token.clone()));
                Ok(Request { method, url, headers, query, body })
            },
        }
    }

    /// The request that uploads a batch of events: its body is the JSON text
    /// of the batch, the events in their order.
    pub fn upload(&self, taxonomy: &Taxonomy, batch: &Vec<TelemetryEvent>) -> (r: Result<
        Request,
        ApiError,
    >)
        requires
            forall|i: int| 0 <= i < batch@.len() ==> taxonomy.holds(#[trigger] batch@[i]),
        ensures
            match r {
                Ok(request) => {
                    &&& self.addresses("DataUpload"@, request)
                    &&& request.query@.len() == 0
                    &&& request.body matches Some(body)
                    &&& body@ == batch_json(taxonomy@, batch_view(batch@))
                },
                Err(error) => self.refuses("DataUpload"@, error),
            },
    {
        self.request("DataUpload", Vec::new(), Some(taxonomy.to_json(batch)))
    }

    /// The request that downloads the stored data: compressed where `zip` is
    /// set, as plain JSON otherwise.
    pub fn download(&self, zip: bool) -> (r: Result<Request, ApiError>)
        ensures
            match r {
                Ok(request) => {
                    &&& self.addresses("DataDownload"@, request)
                    &&& request.query@.len() == 1
                    &&& request.query@[0].0@ == "fileFormat"@
                    &&& request.query@[0].1@ == if zip {
                        "ZIP"@
                    } else {
                        "JSON"@
                    }
                    &&& request.body is None
                },
                Err(error) => self.refuses("DataDownload"@, error),
            },
    {
        let format = if zip {
            "ZIP"
        } else {
            "JSON"
        };
        let mut query: Vec<(String, String)> = Vec::new();
        query.push(("fileFormat".to_owned(), format.to_owned()));
        self.request("DataDownload", query, None)
    }

    /// The request that deletes the stored data.
    pub fn delete(&self) -> (r: Result<Request, ApiError>)
        ensures
            match r {
                Ok(request) => {
                    &&& self.addresses("DataDelete"@, request)
                    &&& request.query@.len() == 0
                    &&& request.body is None
                },
                Err(error) => self.refuses("DataDelete"@, error),
            },
    {
        self.request("DataDelete", Vec::new(), None)
    }
}

} // verus!
