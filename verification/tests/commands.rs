use easyvpn::account::{Account, ApiResponse, DeviceInfo};
use easyvpn::backend::{Body, Failure, Reply};
use easyvpn::commands::{
    judge, login, login_again, login_by_token, logout, logout_message, logout_request_for,
    unbind_device, unbind_device_request_for, unbind_message, update_and_get_account, Operation,
};
use easyvpn::manager::AccountManager;

fn with_status(access: &str, refresh: &str, status: &str) -> Account {
    let mut account = Account::from_tokens(access.to_string(), refresh.to_string());
    account.status = status.to_string();
    account
}

fn answer<T>(status: u16, line: &str, success: bool, message: &str, data: T) -> Reply<T> {
    Reply::Answer {
        status,
        line: line.to_string(),
        body: Body::Envelope(ApiResponse {
            code: if success { "success".to_string() } else { "error".to_string() },
            data,
            errorMsg: message.to_string(),
            fail: !success,
            success,
        }),
    }
}

fn failures() -> Vec<Failure> {
    vec![
        Failure::Unreachable { detail: "refused".to_string() },
        Failure::Status { line: "502 Bad Gateway".to_string() },
        Failure::Unread { detail: "reset".to_string() },
        Failure::Malformed { detail: "eof".to_string(), raw: "<html>".to_string() },
        Failure::Rejected { code: "bad".to_string(), message: "wrong password".to_string() },
    ]
}

fn explained(operation: Operation) -> Vec<String> {
    failures().iter().map(|failure| operation.explain(failure)).collect()
}

#[test]
fn login_failures_as_the_user_reads_them() {
    assert_eq!(
        explained(Operation::Login),
        vec![
            "网络请求失败: refused",
            "登录失败，HTTP状态码: 502 Bad Gateway",
            "读取响应失败: reset",
            "解析响应失败: eof，原始响应: <html>",
            "登录失败: wrong password",
        ]
    );
}

#[test]
fn logout_failures_as_the_user_reads_them() {
    assert_eq!(
        explained(Operation::Logout),
        vec![
            "网络请求失败: refused",
            "退出登录失败，HTTP状态码: 502 Bad Gateway",
            "读取响应内容失败: reset",
            "解析响应失败: eof，原始响应: <html>",
            "退出登录失败: wrong password",
        ]
    );
}

#[test]
fn unbind_failures_as_the_user_reads_them() {
    assert_eq!(
        explained(Operation::UnbindDevice),
        vec![
            "网络请求失败: refused",
            "解绑设备失败，HTTP状态码: 502 Bad Gateway",
            "读取响应内容失败: reset",
            "解析响应失败: eof，原始响应: <html>",
            "解绑设备失败: wrong password",
        ]
    );
}

#[test]
fn token_login_failures_as_the_user_reads_them() {
    assert_eq!(
        explained(Operation::TokenLogin),
        vec![
            "网络请求失败: refused",
            "登录失败，HTTP状态码: 502 Bad Gateway",
            "读取响应内容失败: reset",
            "解析响应失败: eof",
            "登录失败: wrong password",
        ]
    );
}

#[test]
fn judge_passes_the_data_on() {
    assert_eq!(judge(Operation::Logout, answer(200, "200 OK", true, "", 7u8)), Ok(7));
    assert_eq!(
        judge(Operation::Logout, answer(200, "200 OK", false, "no", 7u8)),
        Err("退出登录失败: no".to_string())
    );
}

#[test]
fn login_commits_the_record() {
    let mut manager = AccountManager::new();
    let reply = answer(200, "200 OK", true, "", Ok(with_status("A1", "R1", "ON_SERVICE")));
    let commit = login(&mut manager, reply).unwrap();
    assert!(commit.changed);
    assert_eq!(commit.account.accessToken, "A1");
    assert_eq!(manager.get_account().unwrap().status, "ON_SERVICE");
}

#[test]
fn login_with_undecodable_record_fails() {
    let mut manager = AccountManager::new();
    manager.update_account(with_status("A1", "R1", "TRIAL"));
    let reply: Reply<Result<Account, String>> =
        answer(200, "200 OK", true, "", Err("missing field".to_string()));
    assert_eq!(login(&mut manager, reply).unwrap_err(), "解析账号数据失败: missing field");
    assert_eq!(manager.get_account().unwrap().status, "TRIAL");
}

#[test]
fn rejected_login_leaves_the_session() {
    let mut manager = AccountManager::new();
    manager.update_account(with_status("A1", "R1", "TRIAL"));
    let reply = answer(200, "200 OK", false, "wrong password", Ok(with_status("A2", "R2", "ON_SERVICE")));
    assert_eq!(login(&mut manager, reply).unwrap_err(), "登录失败: wrong password");
    let held = manager.get_account().unwrap();
    assert_eq!(held.accessToken, "A1");
    assert_eq!(held.status, "TRIAL");
}

#[test]
fn token_login_commits_like_any_login() {
    let mut manager = AccountManager::new();
    manager.update_account(with_status("A1", "R1", "TRIAL"));
    let commit = login_by_token(&mut manager, answer(200, "200 OK", true, "", with_status("A7", "", "ON_SERVICE"))).unwrap();
    assert!(commit.changed);
    assert_eq!(commit.account.accessToken, "A7");
    assert_eq!(commit.account.refreshToken, "R1");
    let failed: Reply<Account> = Reply::Unreachable { detail: "down".to_string() };
    assert_eq!(login_by_token(&mut manager, failed).unwrap_err(), "网络请求失败: down");
    assert_eq!(manager.access_token(), "A7");
}

#[test]
fn logout_needs_the_current_device() {
    let mut manager = AccountManager::new();
    let mut account = with_status("A1", "R1", "ON_SERVICE");
    account.devices = Some(vec![DeviceInfo {
        deviceId: "hw-1".to_string(),
        deviceName: None,
        deviceUserId: 42,
        lastOnlineTime: String::new(),
        trialExpiryDate: None,
    }]);
    manager.update_account(account);
    let request = logout_request_for(&manager, "42").ok().unwrap();
    assert_eq!(request.url, "http://localhost:8080/api/account/logout?deviceUserId=42&refreshToken=R1");
    assert_eq!(request.authorization, Some("Bearer A1".to_string()));
    assert!(request.body.is_empty());
    assert_eq!(logout_request_for(&manager, "hw-1").err().unwrap(), "未找到当前设备信息");
    assert_eq!(logout_request_for(&manager, "43").err().unwrap(), "未找到当前设备信息");
    assert_eq!(logout_request_for(&AccountManager::new(), "42").err().unwrap(), "未找到当前设备信息");
}

#[test]
fn logout_forgets_the_session() {
    let mut manager = AccountManager::new();
    manager.update_account(with_status("A1", "R1", "ON_SERVICE"));
    assert_eq!(logout(&mut manager, answer(200, "200 OK", true, "", ())), Ok(()));
    assert_eq!(format!("{:?}", manager.get_account().unwrap()), format!("{:?}", Account::default()));
    assert_eq!(logout_message(), "已成功退出登录并重新设备登录");
}

#[test]
fn failed_logout_keeps_the_session() {
    let mut manager = AccountManager::new();
    manager.update_account(with_status("A1", "R1", "ON_SERVICE"));
    let result = logout(&mut manager, answer(200, "200 OK", false, "not allowed", ()));
    assert_eq!(result, Err("退出登录失败: not allowed".to_string()));
    let result = logout(&mut manager, answer(500, "500 Internal Server Error", true, "", ()));
    assert_eq!(result, Err("退出登录失败，HTTP状态码: 500 Internal Server Error".to_string()));
    assert_eq!(manager.access_token(), "A1");
    assert_eq!(manager.get_account().unwrap().status, "ON_SERVICE");
}

#[test]
fn login_again_reports_a_failure_with_its_cause() {
    let mut manager = AccountManager::new();
    let failed = answer(200, "200 OK", false, "quota exceeded", Account::default());
    assert_eq!(login_again(&mut manager, failed).unwrap_err(), "设备重新登录失败: API错误: quota exceeded");
    let commit = login_again(&mut manager, answer(200, "200 OK", true, "", with_status("A1", "R1", "TRIAL"))).unwrap();
    assert_eq!(commit.account.status, "TRIAL");
}

#[test]
fn unbind_needs_a_session() {
    let mut manager = AccountManager::new();
    assert_eq!(
        unbind_device_request_for(&manager, "42", None).err().unwrap(),
        "未登录状态，请先登录"
    );
    manager.update_account(with_status("A1", "R1", "ON_SERVICE"));
    let request = unbind_device_request_for(&manager, "42", Some("7".to_string())).ok().unwrap();
    assert_eq!(
        request.url,
        "http://localhost:8080/api/account/unbind-device?deviceUserId=42&currentDeviceUserId=7"
    );
    assert_eq!(request.authorization, Some("Bearer A1".to_string()));
}

#[test]
fn unbind_is_judged_and_followed_by_an_update() {
    assert_eq!(unbind_device(answer(200, "200 OK", true, "", ())), Ok(()));
    assert_eq!(
        unbind_device(answer(200, "200 OK", false, "no such device", ())),
        Err("解绑设备失败: no such device".to_string())
    );
    assert_eq!(unbind_message(), "设备解绑成功");
    let mut manager = AccountManager::new();
    let failed: Reply<Account> = Reply::Unreachable { detail: "down".to_string() };
    assert_eq!(
        update_and_get_account(&mut manager, failed).unwrap_err(),
        "更新账号状态失败: 网络请求错误: down"
    );
    let commit = update_and_get_account(&mut manager, answer(200, "200 OK", true, "", with_status("A1", "R1", "TRIAL"))).unwrap();
    assert_eq!(commit.account.status, "TRIAL");
    assert_eq!(manager.get_account().unwrap().status, "TRIAL");
}
