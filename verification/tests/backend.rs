use easyvpn::account::{Account, AccountError, ApiResponse, AuthRequest};
use easyvpn::backend::{
    device_login_request, device_login_result, login_by_token_request, login_request,
    logout_request, refresh_request, refresh_result, status_request, status_result,
    unbind_device_request, Body, Failure, Reply,
};

fn pair(key: &str, value: &str) -> (String, String) {
    (key.to_string(), value.to_string())
}

fn envelope<T>(code: &str, data: T, message: &str, success: bool) -> ApiResponse<T> {
    ApiResponse {
        code: code.to_string(),
        data,
        errorMsg: message.to_string(),
        fail: !success,
        success,
    }
}

fn answer<T>(status: u16, line: &str, body: Body<T>) -> Reply<T> {
    Reply::Answer { status, line: line.to_string(), body }
}

fn record(status: &str) -> Account {
    let mut account = Account::from_tokens("A9".to_string(), "R9".to_string());
    account.status = status.to_string();
    account
}

#[test]
fn device_login_request_names_the_device() {
    let request = device_login_request("hw-1", "my-laptop");
    assert_eq!(request.url, "http://localhost:8080/api/account/deviceLogin");
    assert_eq!(request.authorization, None);
    assert_eq!(request.body, vec![pair("deviceId", "hw-1"), pair("deviceName", "my-laptop")]);
}

#[test]
fn login_request_binds_the_chosen_device() {
    let auth = AuthRequest {
        username: "alice".to_string(),
        password: "s3cret".to_string(),
        deviceUserId: Some("17".to_string()),
    };
    let request = login_request(&auth, "hw-1", "my-laptop");
    assert_eq!(request.url, "http://localhost:8080/api/account/login");
    assert_eq!(request.authorization, None);
    assert_eq!(
        request.body,
        vec![
            pair("username", "alice"),
            pair("password", "s3cret"),
            pair("deviceId", "17"),
            pair("deviceName", "my-laptop"),
        ]
    );
}

#[test]
fn login_request_falls_back_on_this_device() {
    let auth = AuthRequest {
        username: "alice".to_string(),
        password: "s3cret".to_string(),
        deviceUserId: None,
    };
    let request = login_request(&auth, "hw-1", "my-laptop");
    assert_eq!(request.body[2], pair("deviceId", "hw-1"));
}

#[test]
fn status_request_carries_the_bearer_token() {
    let request = status_request("A1");
    assert_eq!(request.url, "http://localhost:8080/api/account/status");
    assert_eq!(request.authorization, Some("Bearer A1".to_string()));
    assert!(request.body.is_empty());
}

#[test]
fn refresh_request_carries_the_refresh_token() {
    let request = refresh_request("R1");
    assert_eq!(request.url, "http://localhost:8080/api/account/refresh");
    assert_eq!(request.authorization, None);
    assert_eq!(request.body, vec![pair("refreshToken", "R1")]);
}

#[test]
fn logout_request_names_device_and_refresh_token() {
    let request = logout_request("A1", 42, "R1");
    assert_eq!(
        request.url,
        "http://localhost:8080/api/account/logout?deviceUserId=42&refreshToken=R1"
    );
    assert_eq!(request.authorization, Some("Bearer A1".to_string()));
    assert!(request.body.is_empty());
    assert_eq!(
        logout_request("A1", -3, "").url,
        "http://localhost:8080/api/account/logout?deviceUserId=-3&refreshToken="
    );
}

#[test]
fn unbind_request_names_the_asking_device_if_known() {
    let request = unbind_device_request("A1", "42", Some("7".to_string()));
    assert_eq!(
        request.url,
        "http://localhost:8080/api/account/unbind-device?deviceUserId=42&currentDeviceUserId=7"
    );
    assert_eq!(request.authorization, Some("Bearer A1".to_string()));
    assert!(request.body.is_empty());
    let request = unbind_device_request("A1", "42", None);
    assert_eq!(request.url, "http://localhost:8080/api/account/unbind-device?deviceUserId=42");
}

#[test]
fn token_login_request_may_name_a_device() {
    let request = login_by_token_request("A1", Some("7".to_string()));
    assert_eq!(request.url, "http://localhost:8080/api/account/loginByToken");
    assert_eq!(request.authorization, None);
    assert_eq!(request.body, vec![pair("accessToken", "A1"), pair("deviceUserId", "7")]);
    let request = login_by_token_request("A1", None);
    assert_eq!(request.body, vec![pair("accessToken", "A1")]);
}

#[test]
fn accept_yields_the_data_of_a_successful_answer() {
    let reply = answer(200, "200 OK", Body::Envelope(envelope("success", 5u32, "", true)));
    assert!(matches!(reply.accept(), Ok(5)));
}

#[test]
fn accept_judges_transport_then_status_then_body() {
    let reply: Reply<u32> = Reply::Unreachable { detail: "connection refused".to_string() };
    assert!(matches!(reply.accept(), Err(Failure::Unreachable { detail }) if detail == "connection refused"));
    let reply = answer(500, "500 Internal Server Error", Body::Envelope(envelope("success", 5u32, "", true)));
    assert!(matches!(reply.accept(), Err(Failure::Status { line }) if line == "500 Internal Server Error"));
    let reply = answer(199, "199", Body::Envelope(envelope("success", 5u32, "", true)));
    assert!(matches!(reply.accept(), Err(Failure::Status { .. })));
    let reply = answer(300, "300", Body::Envelope(envelope("success", 5u32, "", true)));
    assert!(matches!(reply.accept(), Err(Failure::Status { .. })));
    let reply = answer(299, "299", Body::Envelope(envelope("success", 5u32, "", true)));
    assert!(matches!(reply.accept(), Ok(5)));
    let reply: Reply<u32> = answer(200, "200 OK", Body::Unread { detail: "reset".to_string() });
    assert!(matches!(reply.accept(), Err(Failure::Unread { detail }) if detail == "reset"));
    let reply: Reply<u32> = answer(
        200,
        "200 OK",
        Body::Malformed { detail: "expected value".to_string(), raw: "<html>".to_string() },
    );
    assert!(matches!(reply.accept(), Err(Failure::Malformed { detail, raw }) if detail == "expected value" && raw == "<html>"));
}

#[test]
fn success_flag_decides_even_with_status_ok() {
    let reply = answer(200, "200 OK", Body::Envelope(envelope("quota", 5u32, "quota exceeded", false)));
    assert!(matches!(reply.accept(), Err(Failure::Rejected { code, message }) if code == "quota" && message == "quota exceeded"));
}

#[test]
fn has_status_and_rejected_with() {
    let reply = answer(401, "401 Unauthorized", Body::Envelope(envelope("invalid_token", 0u32, "expired", false)));
    assert!(reply.has_status(401));
    assert!(!reply.has_status(200));
    assert!(reply.rejected_with("invalid_token"));
    assert!(!reply.rejected_with("invalid"));
    let accepted = answer(200, "200 OK", Body::Envelope(envelope("invalid_token", 0u32, "", true)));
    assert!(!accepted.rejected_with("invalid_token"));
    let silent: Reply<u32> = Reply::Unreachable { detail: String::new() };
    assert!(!silent.has_status(0));
    assert!(!silent.rejected_with(""));
}

#[test]
fn failures_become_errors_of_the_manager() {
    let error = Failure::Unreachable { detail: "down".to_string() }.into_error("x: ");
    assert!(matches!(error, AccountError::Reqwest(detail) if detail == "down"));
    let error = Failure::Status { line: "404 Not Found".to_string() }.into_error("设备登录失败: ");
    assert!(matches!(error, AccountError::ApiError(detail) if detail == "设备登录失败: 404 Not Found"));
    let error = Failure::Unread { detail: "reset".to_string() }.into_error("x: ");
    assert!(matches!(error, AccountError::Reqwest(detail) if detail == "reset"));
    let error = Failure::Malformed { detail: "eof".to_string(), raw: "{".to_string() }.into_error("x: ");
    assert!(matches!(error, AccountError::Json(detail) if detail == "eof"));
    let error = Failure::Rejected { code: "quota".to_string(), message: "quota exceeded".to_string() }
        .into_error("x: ");
    assert!(matches!(error, AccountError::ApiError(detail) if detail == "quota exceeded"));
}

#[test]
fn device_login_result_yields_the_record() {
    let reply = answer(200, "200 OK", Body::Envelope(envelope("success", record("TRIAL"), "", true)));
    match device_login_result(reply) {
        Ok(account) => {
            assert_eq!(account.status, "TRIAL");
            assert_eq!(account.accessToken, "A9");
        }
        Err(error) => panic!("unexpected {:?}", error),
    }
}

#[test]
fn device_login_rejection_carries_the_server_message() {
    let reply = answer(200, "200 OK", Body::Envelope(envelope("quota", record("TRIAL"), "quota exceeded", false)));
    assert!(matches!(device_login_result(reply), Err(AccountError::ApiError(m)) if m == "quota exceeded"));
    let reply: Reply<Account> = answer(503, "503 Service Unavailable", Body::Unread { detail: String::new() });
    assert!(matches!(device_login_result(reply), Err(AccountError::ApiError(m)) if m == "设备登录失败: 503 Service Unavailable"));
    let reply: Reply<Account> = answer(401, "401 Unauthorized", Body::Unread { detail: String::new() });
    assert!(matches!(device_login_result(reply), Err(AccountError::ApiError(_))));
}

#[test]
fn status_401_means_token_expired() {
    let reply: Reply<Account> = answer(401, "401 Unauthorized", Body::Unread { detail: "x".to_string() });
    assert!(matches!(status_result(reply), Err(AccountError::TokenExpired)));
    let reply = answer(401, "401 Unauthorized", Body::Envelope(envelope("success", record("TRIAL"), "", true)));
    assert!(matches!(status_result(reply), Err(AccountError::TokenExpired)));
}

#[test]
fn status_code_invalid_token_means_token_expired() {
    let reply = answer(200, "200 OK", Body::Envelope(envelope("invalid_token", record(""), "expired", false)));
    assert!(matches!(status_result(reply), Err(AccountError::TokenExpired)));
    let reply = answer(403, "403 Forbidden", Body::Envelope(envelope("invalid_token", record(""), "expired", false)));
    assert!(matches!(status_result(reply), Err(AccountError::TokenExpired)));
}

#[test]
fn status_other_failures_are_generic() {
    let reply = answer(200, "200 OK", Body::Envelope(envelope("server_busy", record(""), "try later", false)));
    assert!(matches!(status_result(reply), Err(AccountError::ApiError(m)) if m == "try later"));
    let reply: Reply<Account> = answer(500, "500 Internal Server Error", Body::Unread { detail: String::new() });
    assert!(matches!(status_result(reply), Err(AccountError::ApiError(m)) if m == "刷新状态失败: 500 Internal Server Error"));
    let reply: Reply<Account> = Reply::Unreachable { detail: "timeout".to_string() };
    assert!(matches!(status_result(reply), Err(AccountError::Reqwest(m)) if m == "timeout"));
    let reply: Reply<Account> = answer(200, "200 OK", Body::Malformed { detail: "eof".to_string(), raw: String::new() });
    assert!(matches!(status_result(reply), Err(AccountError::Json(m)) if m == "eof"));
    let reply = answer(200, "200 OK", Body::Envelope(envelope("invalid_token", record("TRIAL"), "", true)));
    assert!(matches!(status_result(reply), Ok(account) if account.status == "TRIAL"));
}

#[test]
fn refresh_yields_the_new_access_token() {
    let reply = answer(200, "200 OK", Body::Envelope(envelope("success", "A2".to_string(), "", true)));
    assert!(matches!(refresh_result(reply), Ok(token) if token == "A2"));
}

#[test]
fn refresh_rejections_that_end_the_session() {
    let reply = answer(200, "200 OK", Body::Envelope(envelope("invalid_token", String::new(), "bad", false)));
    assert!(matches!(refresh_result(reply), Err(AccountError::RefreshExpired)));
    let reply = answer(401, "401 Unauthorized", Body::Envelope(envelope("token_expired", String::new(), "old", false)));
    assert!(matches!(refresh_result(reply), Err(AccountError::RefreshExpired)));
}

#[test]
fn refresh_other_failures_are_generic() {
    let reply = answer(200, "200 OK", Body::Envelope(envelope("server_busy", String::new(), "try later", false)));
    assert!(matches!(refresh_result(reply), Err(AccountError::ApiError(m)) if m == "try later"));
    let reply: Reply<String> = answer(401, "401 Unauthorized", Body::Unread { detail: String::new() });
    assert!(matches!(refresh_result(reply), Err(AccountError::ApiError(m)) if m == "刷新令牌失败: 401 Unauthorized"));
    let reply: Reply<String> = Reply::Unreachable { detail: "dns".to_string() };
    assert!(matches!(refresh_result(reply), Err(AccountError::Reqwest(m)) if m == "dns"));
}
