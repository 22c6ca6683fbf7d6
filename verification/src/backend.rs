//! The calls to the account service: what is sent, and what an answer means.
//!
//! Nothing here touches the network. A request is described as a value for
//! the caller to send; the answer comes back as a `Reply` and is classified.

use vstd::prelude::*;
use vstd::string::StringExecFns;
use crate::account::{
    opt_text, Account, AccountError, ApiResponse, AuthRequest, ErrorView, API_BASE_URL,
};
use crate::json::member_views;
use crate::text::{decimal, i64_to_string, join, str_eq};

verus! {

/// A request to the account service, as mathematics sees it.
pub struct RequestView {
    pub url: Seq<char>,
    pub authorization: Option<Seq<char>>,
    pub body: Seq<(Seq<char>, Seq<char>)>,
}

/// A request to the account service: a `POST` to `url`, with the
/// `Authorization` header if one is given and a JSON object of the string
/// members of `body`. It cannot be printed, so that the credentials it
/// carries do not end up in a log.
pub struct ApiRequest {
    pub url: String,
    pub authorization: Option<String>,
    pub body: Vec<(String, String)>,
}

impl View for ApiRequest {
    type V = RequestView;

    open spec fn view(&self) -> RequestView {
        RequestView {
            url: self.url@,
            authorization: opt_text(self.authorization),
            body: member_views(self.body@),
        }
    }
}

/// The address of an endpoint of the account service.
pub open spec fn endpoint(path: Seq<char>) -> Seq<char> {
    API_BASE_URL@ + path
}

/// The `Authorization` header that carries an access token.
pub open spec fn bearer(access_token: Seq<char>) -> Seq<char> {
    "Bearer "@ + access_token
}

fn endpoint_url(path: &str) -> (url: String)
    ensures
        url@ == endpoint(path@),
{
    join(API_BASE_URL, path)
}

fn bearer_header(access_token: &str) -> (header: String)
    ensures
        header@ == bearer(access_token@),
{
    join("Bearer ", access_token)
}

fn member(key: &str, value: &str) -> (pair: (String, String))
    ensures
        pair.0@ == key@,
        pair.1@ == value@,
{
    (key.to_owned(), value.to_owned())
}

/// The request that registers this device and opens a device session.
pub fn device_login_request(device_id: &str, device_name: &str) -> (request: ApiRequest)
    ensures
        request@ == (RequestView {
            url: endpoint("/api/account/deviceLogin"@),
            authorization: None,
            body: seq![("deviceId"@, device_id@), ("deviceName"@, device_name@)],
        }),
{
    let mut body: Vec<(String, String)> = Vec::new();
    body.push(member("deviceId", device_id));
    body.push(member("deviceName", device_name));
    assert(member_views(body@) =~= seq![("deviceId"@, device_id@), ("deviceName"@, device_name@)]);
    ApiRequest { url: endpoint_url("/api/account/deviceLogin"), authorization: None, body }
}

/// The device that a login binds: the one the user chose, else this device.
pub open spec fn login_device(chosen: Option<String>, device_id: Seq<char>) -> Seq<char> {
    match chosen {
        Some(id) => id@,
        None => device_id,
    }
}

/// The request that logs a user in on a device.
pub fn login_request(auth: &AuthRequest, device_id: &str, device_name: &str) -> (request:
    ApiRequest)
    ensures
        request@ == (RequestView {
            url: endpoint("/api/account/login"@),
            authorization: None,
            body: seq![
                ("username"@, auth.username@),
                ("password"@, auth.password@),
                ("deviceId"@, login_device(auth.deviceUserId, device_id@)),
                ("deviceName"@, device_name@),
            ],
        }),
{
    let bound: &str = match &auth.deviceUserId {
        Some(id) => id.as_str(),
        None => device_id,
    };
    let mut body: Vec<(String, String)> = Vec::new();
    body.push(member("username", auth.username.as_str()));
    body.push(member("password", auth.password.as_str()));
    body.push(member("deviceId", bound));
    body.push(member("deviceName", device_name));
    assert(member_views(body@) =~= seq![
        ("username"@, auth.username@),
        ("password"@, auth.password@),
        ("deviceId"@, login_device(auth.deviceUserId, device_id@)),
        ("deviceName"@, device_name@),
    ]);
    ApiRequest { url: endpoint_url("/api/account/login"), authorization: None, body }
}

/// The request that asks for the current state of the session.
pub fn status_request(access_token: &str) -> (request: ApiRequest)
    ensures
        request@ == (RequestView {
            url: endpoint("/api/account/status"@),
            authorization: Some(bearer(access_token@)),
            body: Seq::empty(),
        }),
{
    let body: Vec<(String, String)> = Vec::new();
    assert(member_views(body@) =~= Seq::empty());
    ApiRequest {
        url: endpoint_url("/api/account/status"),
        authorization: Some(bearer_header(access_token)),
        body,
    }
}

/// The request that trades the refresh token for a new access token.
pub fn refresh_request(refresh_token: &str) -> (request: ApiRequest)
    ensures
        request@ == (RequestView {
            url: endpoint("/api/account/refresh"@),
            authorization: None,
            body: seq![("refreshToken"@, refresh_token@)],
        }),
{
    let mut body: Vec<(String, String)> = Vec::new();
    body.push(member("refreshToken", refresh_token));
    assert(member_views(body@) =~= seq![("refreshToken"@, refresh_token@)]);
    ApiRequest { url: endpoint_url("/api/account/refresh"), authorization: None, body }
}

/// The request that ends the session of one device of the account.
pub fn logout_request(access_token: &str, device_user_id: i64, refresh_token: &str) -> (request:
    ApiRequest)
    ensures
        request@ == (RequestView {
            url: endpoint("/api/account/logout?deviceUserId="@) + decimal(device_user_id as int)
                + "&refreshToken="@ + refresh_token@,
            authorization: Some(bearer(access_token@)),
            body: Seq::empty(),
        }),
{
    let mut url = endpoint_url("/api/account/logout?deviceUserId=");
    url.append(i64_to_string(device_user_id).as_str());
    url.append("&refreshToken=");
    url.append(refresh_token);
    let body: Vec<(String, String)> = Vec::new();
    assert(member_views(body@) =~= Seq::empty());
    ApiRequest { url, authorization: Some(bearer_header(access_token)), body }
}

/// The address that unbinds a device, naming the asking device if it is known.
pub open spec fn unbind_url(device_user_id: Seq<char>, current: Option<Seq<char>>) -> Seq<char> {
    let base = endpoint("/api/account/unbind-device?deviceUserId="@) + device_user_id;
    match current {
        Some(id) => base + "&currentDeviceUserId="@ + id,
        None => base,
    }
}

/// The request that removes a device from the account.
pub fn unbind_device_request(
    access_token: &str,
    device_user_id: &str,
    current_device_user_id: Option<String>,
) -> (request: ApiRequest)
    ensures
        request@ == (RequestView {
            url: unbind_url(device_user_id@, opt_text(current_device_user_id)),
            authorization: Some(bearer(access_token@)),
            body: Seq::empty(),
        }),
{
    let mut url = endpoint_url("/api/account/unbind-device?deviceUserId=");
    url.append(device_user_id);
    match &current_device_user_id {
        Some(id) => {
            url.append("&currentDeviceUserId=");
            url.append(id.as_str());
        },
        None => {},
    }
    let body: Vec<(String, String)> = Vec::new();
    assert(member_views(body@) =~= Seq::empty());
    ApiRequest { url, authorization: Some(bearer_header(access_token)), body }
}

/// The members sent to log in with a token obtained elsewhere.
pub open spec fn token_login_body(
    access_token: Seq<char>,
    device_user_id: Option<Seq<char>>,
) -> Seq<(Seq<char>, Seq<char>)> {
    match device_user_id {
        Some(id) => seq![("accessToken"@, access_token), ("deviceUserId"@, id)],
        None => seq![("accessToken"@, access_token)],
    }
}

/// The request that opens a session from a token obtained elsewhere.
pub fn login_by_token_request(access_token: &str, device_user_id: Option<String>) -> (request:
    ApiRequest)
    ensures
        request@ == (RequestView {
            url: endpoint("/api/account/loginByToken"@),
            authorization: None,
            body: token_login_body(access_token@, opt_text(device_user_id)),
        }),
{
    let mut body: Vec<(String, String)> = Vec::new();
    body.push(member("accessToken", access_token));
    match &device_user_id {
        Some(id) => {
            body.push(member("deviceUserId", id.as_str()));
        },
        None => {},
    }
    assert(member_views(body@) =~= token_login_body(access_token@, opt_text(device_user_id)));
    ApiRequest { url: endpoint_url("/api/account/loginByToken"), authorization: None, body }
}

/// The body of an answer of the account service.
#[derive(Debug)]
pub enum Body<T> {
    /// The body could not be read; `detail` says why.
    Unread { detail: String },
    /// The body `raw` is not the expected JSON; `detail` says why.
    Malformed { detail: String, raw: String },
    /// The body held a response wrapper.
    Envelope(ApiResponse<T>),
}

/// What came back from one call to the account service.
#[derive(Debug)]
pub enum Reply<T> {
    /// No answer arrived; `detail` says why.
    Unreachable { detail: String },
    /// An answer arrived. `status` is its HTTP status code and `line` the
    /// status as the transport prints it.
    Answer { status: u16, line: String, body: Body<T> },
}

/// Why a call did not yield data, as mathematics sees it.
pub enum FailureView {
    Unreachable { detail: Seq<char> },
    Status { line: Seq<char> },
    Unread { detail: Seq<char> },
    Malformed { detail: Seq<char>, raw: Seq<char> },
    Rejected { code: Seq<char>, message: Seq<char> },
}

/// Why a call did not yield data: the transport failed (`Unreachable`,
/// `Unread`), the answer had a failing HTTP status (`Status`), it could not
/// be decoded (`Malformed`), or the service rejected the call (`Rejected`).
#[derive(Debug)]
pub enum Failure {
    Unreachable { detail: String },
    Status { line: String },
    Unread { detail: String },
    Malformed { detail: String, raw: String },
    Rejected { code: String, message: String },
}

impl View for Failure {
    type V = FailureView;

    open spec fn view(&self) -> FailureView {
        match self {
            Failure::Unreachable { detail } => FailureView::Unreachable { detail: detail@ },
            Failure::Status { line } => FailureView::Status { line: line@ },
            Failure::Unread { detail } => FailureView::Unread { detail: detail@ },
            Failure::Malformed { detail, raw } => FailureView::Malformed {
                detail: detail@,
                raw: raw@,
            },
            Failure::Rejected { code, message } => FailureView::Rejected {
                code: code@,
                message: message@,
            },
        }
    }
}

/// Whether an HTTP status code reports success.
pub open spec fn is_success_status(status: u16) -> bool {
    200 <= status < 300
}

/// Whether two results agree: the same data, or failures that read the same.
pub open spec fn same_verdict<T>(got: Result<T, Failure>, expected: Result<T, FailureView>) -> bool
{
    match (got, expected) {
        (Ok(data), Ok(wanted)) => data == wanted,
        (Err(failure), Err(wanted)) => failure@ == wanted,
        _ => false,
    }
}

impl<T> Reply<T> {
    /// What an answer means. The transport is judged first, then the HTTP
    /// status, then the body; a decoded wrapper yields its data exactly when
    /// its `success` flag is set, whatever the HTTP status said before.
    pub open spec fn verdict(self) -> Result<T, FailureView> {
        match self {
            Reply::Unreachable { detail } => Err(FailureView::Unreachable { detail: detail@ }),
            Reply::Answer { status, line, body } => if !is_success_status(status) {
                Err(FailureView::Status { line: line@ })
            } else {
                match body {
                    Body::Unread { detail } => Err(FailureView::Unread { detail: detail@ }),
                    Body::Malformed { detail, raw } => Err(
                        FailureView::Malformed { detail: detail@, raw: raw@ },
                    ),
                    Body::Envelope(envelope) => if envelope.success {
                        Ok(envelope.data)
                    } else {
                        Err(
                            FailureView::Rejected {
                                code: envelope.code@,
                                message: envelope.errorMsg@,
                            },
                        )
                    },
                }
            },
        }
    }

    /// The code with which the service rejected the call, if the answer holds
    /// a wrapper whose `success` flag is not set. The HTTP status plays no part.
    pub open spec fn rejection_code(self) -> Option<Seq<char>> {
        match self {
            Reply::Answer { body: Body::Envelope(envelope), .. } => if envelope.success {
                None
            } else {
                Some(envelope.code@)
            },
            _ => None,
        }
    }

    /// The HTTP status code of the answer, if one arrived.
    pub open spec fn status_code(self) -> Option<u16> {
        match self {
            Reply::Answer { status, .. } => Some(status),
            Reply::Unreachable { .. } => None,
        }
    }

    /// Whether the service rejected the call with the given code.
    pub fn rejected_with(&self, code: &str) -> (rejected: bool)
        ensures
            rejected == (self.rejection_code() == Some(code@)),
    {
        match self {
            Reply::Answer { body: Body::Envelope(envelope), .. } => !envelope.success && str_eq(
                envelope.code.as_str(),
                code,
            ),
            _ => false,
        }
    }

    /// Whether the answer arrived with the given HTTP status code.
    pub fn has_status(&self, code: u16) -> (matches: bool)
        ensures
            matches == (self.status_code() == Some(code)),
    {
        match self {
            Reply::Answer { status, .. } => *status == code,
            Reply::Unreachable { .. } => false,
        }
    }

    /// Judges an answer: its data, or the reason why there is none.
    pub fn accept(self) -> (result: Result<T, Failure>)
        ensures
            same_verdict(result, self.verdict()),
    {
        match self {
            Reply::Unreachable { detail } => Err(Failure::Unreachable { detail }),
            Reply::Answer { status, line, body } => {
                if !(200 <= status && status < 300) {
                    Err(Failure::Status { line })
                } else {
                    match body {
                        Body::Unread { detail } => Err(Failure::Unread { detail }),
                        Body::Malformed { detail, raw } => Err(Failure::Malformed { detail, raw }),
                        Body::Envelope(envelope) => {
                            if envelope.success {
                                Ok(envelope.data)
                            } else {
                                Err(
                                    Failure::Rejected {
                                        code: envelope.code,
                                        message: envelope.errorMsg,
                                    },
                                )
                            }
                        },
                    }
                }
            },
        }
    }
}

impl FailureView {
    /// The error that a failed call of the session manager reports. A failing
    /// HTTP status is reported with `label` before the status line.
    pub open spec fn as_error(self, label: Seq<char>) -> ErrorView {
        match self {
            FailureView::Unreachable { detail } => ErrorView::Reqwest(detail),
            FailureView::Status { line } => ErrorView::ApiError(label + line),
            FailureView::Unread { detail } => ErrorView::Reqwest(detail),
            FailureView::Malformed { detail, raw } => ErrorView::Json(detail),
            FailureView::Rejected { code, message } => ErrorView::ApiError(message),
        }
    }
}

impl Failure {
    /// The error that a failed call of the session manager reports.
    pub fn into_error(self, label: &str) -> (error: AccountError)
        ensures
            error@ == self@.as_error(label@),
    {
        match self {
            Failure::Unreachable { detail } => AccountError::Reqwest(detail),
            Failure::Status { line } => AccountError::ApiError(join(label, line.as_str())),
            Failure::Unread { detail } => AccountError::Reqwest(detail),
            Failure::Malformed { detail, raw } => AccountError::Json(detail),
            Failure::Rejected { code, message } => AccountError::ApiError(message),
        }
    }
}

/// Whether two results agree: the same data, or errors that read the same.
pub open spec fn same_result<T>(got: Result<T, AccountError>, expected: Result<T, ErrorView>) -> bool
{
    match (got, expected) {
        (Ok(data), Ok(wanted)) => data == wanted,
        (Err(error), Err(wanted)) => error@ == wanted,
        _ => false,
    }
}

/// What a judged answer means to the session manager.
pub open spec fn as_result<T>(verdict: Result<T, FailureView>, label: Seq<char>) -> Result<
    T,
    ErrorView,
> {
    match verdict {
        Ok(data) => Ok(data),
        Err(failure) => Err(failure.as_error(label)),
    }
}

/// What the answer to a device login means.
pub open spec fn device_login_verdict(reply: Reply<Account>) -> Result<Account, ErrorView> {
    as_result(reply.verdict(), "设备登录失败: "@)
}

/// What the answer to a status request means: HTTP status 401, or a
/// rejection with the code `invalid_token`, says that the access token has
/// expired; anything else is judged as usual.
pub open spec fn status_verdict(reply: Reply<Account>) -> Result<Account, ErrorView> {
    if reply.status_code() == Some(401u16) || reply.rejection_code() == Some("invalid_token"@) {
        Err(ErrorView::TokenExpired)
    } else {
        as_result(reply.verdict(), "刷新状态失败: "@)
    }
}

/// What the answer to a token refresh means: a rejection with the code
/// `invalid_token` or `token_expired` says that the refresh token is no
/// longer good; anything else is judged as usual, and success yields the new
/// access token.
pub open spec fn refresh_verdict(reply: Reply<String>) -> Result<String, ErrorView> {
    if reply.rejection_code() == Some("invalid_token"@) || reply.rejection_code() == Some(
        "token_expired"@,
    ) {
        Err(ErrorView::RefreshExpired)
    } else {
        as_result(reply.verdict(), "刷新令牌失败: "@)
    }
}

fn settle<T>(reply: Reply<T>, label: &str) -> (result: Result<T, AccountError>)
    ensures
        same_result(result, as_result(reply.verdict(), label@)),
{
    match reply.accept() {
        Ok(data) => Ok(data),
        Err(failure) => Err(failure.into_error(label)),
    }
}

/// Judges the answer to a device login.
pub fn device_login_result(reply: Reply<Account>) -> (result: Result<Account, AccountError>)
    ensures
        same_result(result, device_login_verdict(reply)),
{
    settle(reply, "设备登录失败: ")
}

/// Judges the answer to a status request.
pub fn status_result(reply: Reply<Account>) -> (result: Result<Account, AccountError>)
    ensures
        same_result(result, status_verdict(reply)),
{
    if reply.has_status(401) || reply.rejected_with("invalid_token") {
        Err(AccountError::TokenExpired)
    } else {
        settle(reply, "刷新状态失败: ")
    }
}

/// Judges the answer to a token refresh.
pub fn refresh_result(reply: Reply<String>) -> (result: Result<String, AccountError>)
    ensures
        same_result(result, refresh_verdict(reply)),
{
    if reply.rejected_with("invalid_token") || reply.rejected_with("token_expired") {
        Err(AccountError::RefreshExpired)
    } else {
        settle(reply, "刷新令牌失败: ")
    }
}

} // verus!
