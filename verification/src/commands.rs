//! The operations that a user starts: log in, log out, unbind a device, log
//! in with a token handed over by a browser.
//!
//! Each operation is a request to send and a judgement of the answer. What
//! is judged here is what the user gets to read when an operation fails, and
//! what becomes of the session when it succeeds.

use vstd::prelude::*;
use vstd::string::StringExecFns;
use crate::account::{devices_of, opt_text, Account, AccountView};
use crate::backend::{
    bearer, device_login_verdict, endpoint, logout_request, unbind_device_request, unbind_url,
    ApiRequest, Failure, FailureView, Reply, RequestView,
};
use crate::common::AccountStatus;
use crate::manager::{commits, none_current, AccountManager, Commit};
use crate::text::join;

verus! {

/// An operation that a user starts.
#[derive(Debug, Clone, Copy, PartialEq, Eq, Structural)]
pub enum Operation {
    Login,
    Logout,
    UnbindDevice,
    TokenLogin,
}

impl Operation {
    /// What is said before the status line of an answer that failed.
    pub open spec fn status_label(self) -> Seq<char> {
        match self {
            Operation::Login => "登录失败，HTTP状态码: "@,
            Operation::Logout => "退出登录失败，HTTP状态码: "@,
            Operation::UnbindDevice => "解绑设备失败，HTTP状态码: "@,
            Operation::TokenLogin => "登录失败，HTTP状态码: "@,
        }
    }

    /// What is said before the reason why a body could not be read.
    pub open spec fn unread_label(self) -> Seq<char> {
        match self {
            Operation::Login => "读取响应失败: "@,
            Operation::Logout => "读取响应内容失败: "@,
            Operation::UnbindDevice => "读取响应内容失败: "@,
            Operation::TokenLogin => "读取响应内容失败: "@,
        }
    }

    /// What is said before the message of the service that rejected the call.
    pub open spec fn rejected_label(self) -> Seq<char> {
        match self {
            Operation::Login => "登录失败: "@,
            Operation::Logout => "退出登录失败: "@,
            Operation::UnbindDevice => "解绑设备失败: "@,
            Operation::TokenLogin => "登录失败: "@,
        }
    }

    /// Whether a body that could not be decoded is quoted to the user.
    pub open spec fn quotes_body(self) -> bool {
        self != Operation::TokenLogin
    }

    /// What the user reads when the operation fails.
    pub open spec fn explanation(self, failure: FailureView) -> Seq<char> {
        match failure {
            FailureView::Unreachable { detail } => "网络请求失败: "@ + detail,
            FailureView::Status { line } => self.status_label() + line,
            FailureView::Unread { detail } => self.unread_label() + detail,
            FailureView::Malformed { detail, raw } => if self.quotes_body() {
                "解析响应失败: "@ + detail + "，原始响应: "@ + raw
            } else {
                "解析响应失败: "@ + detail
            },
            FailureView::Rejected { code, message } => self.rejected_label() + message,
        }
    }

    fn status_text(self) -> (label: &'static str)
        ensures
            label@ == self.status_label(),
    {
        match self {
            Operation::Login => "登录失败，HTTP状态码: ",
            Operation::Logout => "退出登录失败，HTTP状态码: ",
            Operation::UnbindDevice => "解绑设备失败，HTTP状态码: ",
            Operation::TokenLogin => "登录失败，HTTP状态码: ",
        }
    }

    fn unread_text(self) -> (label: &'static str)
        ensures
            label@ == self.unread_label(),
    {
        match self {
            Operation::Login => "读取响应失败: ",
            Operation::Logout => "读取响应内容失败: ",
            Operation::UnbindDevice => "读取响应内容失败: ",
            Operation::TokenLogin => "读取响应内容失败: ",
        }
    }

    fn rejected_text(self) -> (label: &'static str)
        ensures
            label@ == self.rejected_label(),
    {
        match self {
            Operation::Login => "登录失败: ",
            Operation::Logout => "退出登录失败: ",
            Operation::UnbindDevice => "解绑设备失败: ",
            Operation::TokenLogin => "登录失败: ",
        }
    }

    /// Writes what the user reads when the operation fails.
    pub fn explain(self, failure: &Failure) -> (text: String)
        ensures
            text@ == self.explanation(failure@),
    {
        match failure {
            Failure::Unreachable { detail } => join("网络请求失败: ", detail.as_str()),
            Failure::Status { line } => join(self.status_text(), line.as_str()),
            Failure::Unread { detail } => join(self.unread_text(), detail.as_str()),
            Failure::Malformed { detail, raw } => {
                let mut text = join("解析响应失败: ", detail.as_str());
                match self {
                    Operation::TokenLogin => {},
                    _ => {
                        text.append("，原始响应: ");
                        text.append(raw.as_str());
                    },
                }
                text
            },
            Failure::Rejected { code, message } => join(self.rejected_text(), message.as_str()),
        }
    }
}

/// What the answer to an operation means to the user: its data, or what
/// there is to read about the failure.
pub open spec fn told<T>(operation: Operation, reply: Reply<T>) -> Result<T, Seq<char>> {
    match reply.verdict() {
        Ok(data) => Ok(data),
        Err(failure) => Err(operation.explanation(failure)),
    }
}

/// Judges the answer to an operation for the user.
pub fn judge<T>(operation: Operation, reply: Reply<T>) -> (result: Result<T, String>)
    ensures
        match told(operation, reply) {
            Ok(data) => result == Ok::<T, String>(data),
            Err(text) => result matches Err(written) && written@ == text,
        },
{
    match reply.accept() {
        Ok(data) => Ok(data),
        Err(failure) => Err(operation.explain(&failure)),
    }
}

/// What a login leads to: the record to commit, or what the user reads. The
/// data of the answer is the record, or the reason why it could not be
/// decoded as one.
pub open spec fn login_verdict(reply: Reply<Result<Account, String>>) -> Result<
    Account,
    Seq<char>,
> {
    match told(Operation::Login, reply) {
        Ok(Ok(account)) => Ok(account),
        Ok(Err(detail)) => Err("解析账号数据失败: "@ + detail@),
        Err(text) => Err(text),
    }
}

/// Whether `result` is the commit of the judged record over the record
/// held, or the text of the judged failure with the record left as it was.
pub open spec fn settles(
    before: AccountView,
    judged: Result<Account, Seq<char>>,
    after: AccountView,
    result: Result<Commit, String>,
) -> bool {
    match judged {
        Ok(incoming) => {
            &&& result matches Ok(commit)
            &&& commits(before, incoming@, commit)
            &&& after == incoming@.inheriting(before)
        },
        Err(text) => {
            &&& result matches Err(written)
            &&& written@ == text
            &&& after == before
        },
    }
}

/// Completes a login: commits the record that the service sent, or tells the
/// user why there is none. A failed login leaves the session as it was.
pub fn login(manager: &mut AccountManager, reply: Reply<Result<Account, String>>) -> (result:
    Result<Commit, String>)
    ensures
        old(manager).same_but_record(*final(manager)),
        settles(old(manager).record(), login_verdict(reply), final(manager).record(), result),
{
    match judge(Operation::Login, reply) {
        Ok(Ok(account)) => Ok(manager.update_account(account)),
        Ok(Err(detail)) => Err(join("解析账号数据失败: ", detail.as_str())),
        Err(text) => Err(text),
    }
}

/// What a login with a handed-over token leads to.
pub open spec fn token_login_verdict(reply: Reply<Account>) -> Result<Account, Seq<char>> {
    told(Operation::TokenLogin, reply)
}

/// Completes a login with a token that a browser handed over: the same
/// commit as any other login.
pub fn login_by_token(manager: &mut AccountManager, reply: Reply<Account>) -> (result: Result<
    Commit,
    String,
>)
    ensures
        old(manager).same_but_record(*final(manager)),
        settles(old(manager).record(), token_login_verdict(reply), final(manager).record(), result),
{
    match judge(Operation::TokenLogin, reply) {
        Ok(account) => Ok(manager.update_account(account)),
        Err(text) => Err(text),
    }
}

/// What a device login leads to, with `label` before the error if it fails.
pub open spec fn device_login_told(reply: Reply<Account>, label: Seq<char>) -> Result<
    Account,
    Seq<char>,
> {
    match device_login_verdict(reply) {
        Ok(account) => Ok(account),
        Err(error) => Err(label + error.text()),
    }
}

fn device_login_for_user(
    manager: &mut AccountManager,
    reply: Reply<Account>,
    label: &str,
) -> (result: Result<Commit, String>)
    ensures
        old(manager).same_but_record(*final(manager)),
        settles(
            old(manager).record(),
            device_login_told(reply, label@),
            final(manager).record(),
            result,
        ),
{
    match manager.device_login(reply) {
        Ok(commit) => Ok(commit),
        Err(error) => Err(join(label, error.to_string().as_str())),
    }
}

/// Brings the record up to date from the answer to a device login and
/// returns the commit, whose record is the one now held.
pub fn update_and_get_account(manager: &mut AccountManager, reply: Reply<Account>) -> (result:
    Result<Commit, String>)
    ensures
        old(manager).same_but_record(*final(manager)),
        settles(
            old(manager).record(),
            device_login_told(reply, "更新账号状态失败: "@),
            final(manager).record(),
            result,
        ),
{
    device_login_for_user(manager, reply, "更新账号状态失败: ")
}

/// The device login that follows a logout.
pub fn login_again(manager: &mut AccountManager, reply: Reply<Account>) -> (result: Result<
    Commit,
    String,
>)
    ensures
        old(manager).same_but_record(*final(manager)),
        settles(
            old(manager).record(),
            device_login_told(reply, "设备重新登录失败: "@),
            final(manager).record(),
            result,
        ),
{
    device_login_for_user(manager, reply, "设备重新登录失败: ")
}

/// What the user reads after a logout that was followed by a device login.
pub fn logout_message() -> (text: &'static str)
    ensures
        text@ == "已成功退出登录并重新设备登录"@,
{
    "已成功退出登录并重新设备登录"
}

/// What the user reads after a device was unbound.
pub fn unbind_message() -> (text: &'static str)
    ensures
        text@ == "设备解绑成功"@,
{
    "设备解绑成功"
}

/// The request that logs this device out. It needs the device of the record
/// that is current for the identity, and fails where there is none.
pub fn logout_request_for(manager: &AccountManager, machine_id: &str) -> (result: Result<
    ApiRequest,
    String,
>)
    ensures
        match result {
            Ok(request) => {
                &&& !none_current(devices_of(manager.record()), machine_id@)
                &&& request@ == (RequestView {
                    url: endpoint("/api/account/logout?deviceUserId="@) + machine_id@
                        + "&refreshToken="@ + manager.record().refresh_token,
                    authorization: Some(bearer(manager.record().access_token)),
                    body: Seq::empty(),
                })
            },
            Err(text) => {
                &&& none_current(devices_of(manager.record()), machine_id@)
                &&& text@ == "未找到当前设备信息"@
            },
        },
{
    match manager.get_current_device(machine_id) {
        Ok(Some(device)) => Ok(
            logout_request(
                manager.access_token().as_str(),
                device.deviceUserId,
                manager.refresh_token().as_str(),
            ),
        ),
        _ => Err(String::from_str("未找到当前设备信息")),
    }
}

/// Completes a logout. When the service accepted it the session is
/// forgotten: the record goes back to the initial one, and the caller
/// deletes the stored record. A failed logout leaves the session as it was.
pub fn logout<T>(manager: &mut AccountManager, reply: Reply<T>) -> (result: Result<(), String>)
    ensures
        old(manager).same_but_record(*final(manager)),
        match told(Operation::Logout, reply) {
            Ok(_) => result.is_ok() && final(manager).record() == AccountView::initial(),
            Err(text) => {
                &&& result matches Err(written)
                &&& written@ == text
                &&& final(manager).record() == old(manager).record()
            },
        },
{
    match judge(Operation::Logout, reply) {
        Ok(_) => {
            manager.reset();
            Ok(())
        },
        Err(text) => Err(text),
    }
}

/// The request that unbinds a device. It needs a session: without an access
/// token it fails.
pub fn unbind_device_request_for(
    manager: &AccountManager,
    device_user_id: &str,
    current_device_user_id: Option<String>,
) -> (result: Result<ApiRequest, String>)
    ensures
        match result {
            Ok(request) => manager.record().access_token.len() > 0 && request@ == (RequestView {
                url: unbind_url(device_user_id@, opt_text(current_device_user_id)),
                authorization: Some(bearer(manager.record().access_token)),
                body: Seq::empty(),
            }),
            Err(text) => {
                &&& manager.record().access_token.len() == 0
                &&& text@ == "未登录状态，请先登录"@
            },
        },
{
    let access_token = manager.access_token();
    if access_token.as_str().is_empty() {
        Err(String::from_str("未登录状态，请先登录"))
    } else {
        Ok(unbind_device_request(access_token.as_str(), device_user_id, current_device_user_id))
    }
}

/// Judges the answer to an unbinding. The record is brought up to date by
/// the device login that follows.
pub fn unbind_device<T>(reply: Reply<T>) -> (result: Result<(), String>)
    ensures
        match told(Operation::UnbindDevice, reply) {
            Ok(_) => result.is_ok(),
            Err(text) => result matches Err(written) && written@ == text,
        },
{
    match judge(Operation::UnbindDevice, reply) {
        Ok(_) => Ok(()),
        Err(text) => Err(text),
    }
}

/// The text that describes a status to the user.
pub fn get_account_status_text(status: AccountStatus) -> (text: String)
    ensures
        text@ == status.message(),
{
    String::from_str(status.get_message())
}

} // verus!
