use easyvpn::account::Account;
use easyvpn::web_login::{handle_login, login_answer, LoginRequest, SERVER_PORT};

#[test]
fn endpoint_port() {
    assert_eq!(SERVER_PORT, 34999);
}

#[test]
fn request_without_token_is_turned_away() {
    let request = LoginRequest { access_token: String::new(), device_user_id: Some("7".to_string()) };
    let answer = handle_login(&request).err().unwrap();
    assert_eq!(answer.status, 400);
    assert_eq!(answer.body.code, "invalid_params");
    assert_eq!(answer.body.errorMsg, "访问令牌不能为空");
    assert!(answer.body.fail);
    assert!(!answer.body.success);
    assert_eq!(format!("{:?}", answer.body.data), format!("{:?}", Account::default()));
}

#[test]
fn request_with_token_is_passed_on() {
    let request = LoginRequest { access_token: "A1".to_string(), device_user_id: Some("7".to_string()) };
    let call = handle_login(&request).unwrap();
    assert_eq!(call.url, "http://localhost:8080/api/account/loginByToken");
    assert_eq!(
        call.body,
        vec![
            ("accessToken".to_string(), "A1".to_string()),
            ("deviceUserId".to_string(), "7".to_string()),
        ]
    );
    let request = LoginRequest { access_token: "A1".to_string(), device_user_id: None };
    assert_eq!(handle_login(&request).unwrap().body.len(), 1);
}

#[test]
fn browser_is_told_how_the_login_went() {
    let account = Account::from_tokens("A1".to_string(), "R1".to_string());
    let answer = login_answer(Ok(account));
    assert_eq!(answer.status, 200);
    assert_eq!(answer.body.code, "success");
    assert_eq!(answer.body.errorMsg, "");
    assert!(answer.body.success);
    assert!(!answer.body.fail);
    assert_eq!(answer.body.data.accessToken, "A1");
    let answer = login_answer(Err("登录失败: bad token".to_string()));
    assert_eq!(answer.status, 500);
    assert_eq!(answer.body.code, "login_failed");
    assert_eq!(answer.body.errorMsg, "登录失败: bad token");
    assert!(answer.body.fail);
    assert!(!answer.body.success);
    assert_eq!(format!("{:?}", answer.body.data), format!("{:?}", Account::default()));
}
