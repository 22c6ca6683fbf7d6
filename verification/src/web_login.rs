//! The local endpoint through which a browser hands over a token.
//!
//! The endpoint itself is served elsewhere. Decided here is which requests
//! are turned away at once, what is asked of the account service for the
//! others, and what the browser is told in the end.

use vstd::prelude::*;
use vstd::string::StringExecFns;
use crate::account::{opt_text, Account, AccountView, ApiResponse};
use crate::backend::{endpoint, login_by_token_request, token_login_body, ApiRequest, RequestView};

verus! {

/// The port on which the endpoint listens.
pub const SERVER_PORT: u16 = 34999;

/// What a browser posts to `/receive_login`.
#[derive(Debug)]
pub struct LoginRequest {
    pub access_token: String,
    pub device_user_id: Option<String>,
}

/// An answer of the endpoint, as mathematics sees it.
pub struct AnswerView {
    pub status: u16,
    pub code: Seq<char>,
    pub data: AccountView,
    pub error_msg: Seq<char>,
    pub fail: bool,
    pub success: bool,
}

/// An answer of the endpoint: the HTTP status and the wrapper to send.
#[derive(Debug)]
pub struct Answer {
    pub status: u16,
    pub body: ApiResponse<Account>,
}

impl View for Answer {
    type V = AnswerView;

    open spec fn view(&self) -> AnswerView {
        AnswerView {
            status: self.status,
            code: self.body.code@,
            data: self.body.data@,
            error_msg: self.body.errorMsg@,
            fail: self.body.fail,
            success: self.body.success,
        }
    }
}

/// The answer that reports a failure with the given status and code.
pub open spec fn refusal(status: u16, code: Seq<char>, message: Seq<char>) -> AnswerView {
    AnswerView {
        status,
        code,
        data: AccountView::initial(),
        error_msg: message,
        fail: true,
        success: false,
    }
}

/// The answer that reports the record of the session that was opened.
pub open spec fn welcome(record: AccountView) -> AnswerView {
    AnswerView {
        status: 200,
        code: "success"@,
        data: record,
        error_msg: Seq::empty(),
        fail: false,
        success: true,
    }
}

fn refuse(status: u16, code: &str, message: String) -> (answer: Answer)
    ensures
        answer@ == refusal(status, code@, message@),
{
    Answer {
        status,
        body: ApiResponse {
            code: String::from_str(code),
            data: Account::default(),
            errorMsg: message,
            fail: true,
            success: false,
        },
    }
}

/// Looks at a posted request. One without an access token is turned away
/// with status 400; for any other the result is the request to make to the
/// account service.
pub fn handle_login(request: &LoginRequest) -> (result: Result<ApiRequest, Answer>)
    ensures
        match result {
            Ok(call) => request.access_token@.len() > 0 && call@ == (RequestView {
                url: endpoint("/api/account/loginByToken"@),
                authorization: None,
                body: token_login_body(request.access_token@, opt_text(request.device_user_id)),
            }),
            Err(answer) => request.access_token@.len() == 0 && answer@ == refusal(
                400,
                "invalid_params"@,
                "访问令牌不能为空"@,
            ),
        },
{
    if request.access_token.as_str().is_empty() {
        Err(refuse(400, "invalid_params", String::from_str("访问令牌不能为空")))
    } else {
        let device_user_id = match &request.device_user_id {
            Some(id) => Some(id.clone()),
            None => None,
        };
        Ok(login_by_token_request(request.access_token.as_str(), device_user_id))
    }
}

/// What the browser is told once the login has been tried: the record with
/// status 200, or the reason of the failure with status 500.
pub fn login_answer(outcome: Result<Account, String>) -> (answer: Answer)
    ensures
        answer@ == match outcome {
            Ok(account) => welcome(account@),
            Err(message) => refusal(500, "login_failed"@, message@),
        },
{
    match outcome {
        Ok(account) => Answer {
            status: 200,
            body: ApiResponse {
                code: String::from_str("success"),
                data: account,
                errorMsg: String::new(),
                fail: false,
                success: true,
            },
        },
        Err(message) => refuse(500, "login_failed", message),
    }
}

} // verus!
