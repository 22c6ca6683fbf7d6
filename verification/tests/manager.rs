use easyvpn::account::{Account, AccountError, ApiResponse, DeviceInfo};
use easyvpn::backend::{Body, Reply};
use easyvpn::identity::device_id_document_text;
use easyvpn::manager::AccountManager;

fn with_status(access: &str, refresh: &str, status: &str) -> Account {
    let mut account = Account::from_tokens(access.to_string(), refresh.to_string());
    account.status = status.to_string();
    account
}

fn device(id: &str, user_id: i64) -> DeviceInfo {
    DeviceInfo {
        deviceId: id.to_string(),
        deviceName: None,
        deviceUserId: user_id,
        lastOnlineTime: String::new(),
        trialExpiryDate: None,
    }
}

fn login_reply(account: Account, success: bool, message: &str) -> Reply<Account> {
    Reply::Answer {
        status: 200,
        line: "200 OK".to_string(),
        body: Body::Envelope(ApiResponse {
            code: if success { "success".to_string() } else { "rejected".to_string() },
            data: account,
            errorMsg: message.to_string(),
            fail: !success,
            success,
        }),
    }
}

#[test]
fn new_manager_holds_the_initial_record() {
    let manager = AccountManager::new();
    let account = manager.get_account().unwrap();
    assert_eq!(format!("{:?}", account), format!("{:?}", Account::default()));
    assert_eq!(manager.cached_machine_id(), None);
    assert_eq!(manager.access_token(), "");
    assert_eq!(manager.refresh_token(), "");
}

#[test]
fn replace_inherits_tokens_from_the_held_record() {
    let mut manager = AccountManager::new();
    manager.update_account(with_status("A1", "R1", "TRIAL"));
    let commit = manager.update_account(with_status("", "", "ON_SERVICE"));
    assert_eq!(commit.account.accessToken, "A1");
    assert_eq!(commit.account.refreshToken, "R1");
    assert_eq!(commit.account.status, "ON_SERVICE");
    let held = manager.get_account().unwrap();
    assert_eq!(held.accessToken, "A1");
    assert_eq!(held.refreshToken, "R1");
    assert_eq!(held.status, "ON_SERVICE");
}

#[test]
fn replace_takes_every_other_field_from_the_incoming_record() {
    let mut manager = AccountManager::new();
    let mut first = with_status("A1", "R1", "TRIAL");
    first.username = Some("alice".to_string());
    first.devices = Some(vec![device("hw-1", 1)]);
    manager.update_account(first);
    let mut second = with_status("", "R2", "TRIAL");
    second.maxDevicesAllowed = 9;
    let commit = manager.update_account(second);
    assert_eq!(commit.account.accessToken, "A1");
    assert_eq!(commit.account.refreshToken, "R2");
    assert_eq!(commit.account.username, None);
    assert!(commit.account.devices.is_none());
    assert_eq!(commit.account.maxDevicesAllowed, 9);
}

#[test]
fn replace_reports_a_change_of_status_only() {
    let mut manager = AccountManager::new();
    assert!(manager.update_account(with_status("A1", "R1", "TRIAL")).changed);
    assert!(!manager.update_account(with_status("A2", "R2", "TRIAL")).changed);
    assert!(!manager.update_account(with_status("", "", "TRIAL")).changed);
    assert!(manager.update_account(with_status("A2", "R2", "TRIAL_END")).changed);
    assert!(manager.update_account(with_status("A2", "R2", "TRIAL")).changed);
    assert!(!manager.update_account(with_status("A3", "R3", "TRIAL")).changed);
}

#[test]
fn replace_with_the_initial_status_on_a_new_manager_is_no_change() {
    let mut manager = AccountManager::new();
    assert!(!manager.update_account(with_status("A1", "R1", "NO_INIT")).changed);
}

#[test]
fn commit_carries_the_document_to_store() {
    let mut manager = AccountManager::new();
    let commit = manager.update_account(with_status("A1", "R1", "TRIAL"));
    assert_eq!(
        commit.document.as_deref(),
        Some("{\n  \"accessToken\": \"A1\",\n  \"refreshToken\": \"R1\"\n}")
    );
    let commit = manager.update_account(with_status("", "R2", "TRIAL"));
    assert_eq!(
        commit.document.as_deref(),
        Some("{\n  \"accessToken\": \"A1\",\n  \"refreshToken\": \"R2\"\n}")
    );
}

#[test]
fn new_access_token_leaves_the_rest() {
    let mut manager = AccountManager::new();
    let mut first = with_status("A1", "R1", "ON_SERVICE");
    first.username = Some("alice".to_string());
    manager.update_account(first);
    let commit = manager.update_access_token("A2".to_string());
    assert!(!commit.changed);
    assert_eq!(commit.account.accessToken, "A2");
    assert_eq!(commit.account.refreshToken, "R1");
    assert_eq!(commit.account.status, "ON_SERVICE");
    assert_eq!(commit.account.username.as_deref(), Some("alice"));
    let commit = manager.update_access_token(String::new());
    assert_eq!(commit.account.accessToken, "A2");
    assert_eq!(manager.access_token(), "A2");
}

#[test]
fn reset_forgets_the_session_but_not_the_identity() {
    let mut manager = AccountManager::new();
    manager.get_machine_id(None, Some("hw-1".to_string())).unwrap();
    manager.update_account(with_status("A1", "R1", "ON_SERVICE"));
    manager.reset();
    let account = manager.get_account().unwrap();
    assert_eq!(format!("{:?}", account), format!("{:?}", Account::default()));
    assert_eq!(manager.cached_machine_id(), Some("hw-1".to_string()));
}

#[test]
fn device_login_commits_the_record() {
    let mut manager = AccountManager::new();
    let commit = manager.device_login(login_reply(with_status("A1", "R1", "TRIAL"), true, "")).unwrap();
    assert!(commit.changed);
    assert_eq!(commit.account.status, "TRIAL");
    assert_eq!(manager.get_account().unwrap().accessToken, "A1");
}

#[test]
fn rejected_device_login_leaves_the_session_unchanged() {
    let mut manager = AccountManager::new();
    manager.update_account(with_status("A1", "R1", "TRIAL"));
    let before = format!("{:?}", manager.get_account().unwrap());
    let result = manager.device_login(login_reply(with_status("A2", "R2", "ON_SERVICE"), false, "quota exceeded"));
    match result {
        Err(AccountError::ApiError(message)) => assert_eq!(message, "quota exceeded"),
        other => panic!("unexpected {:?}", other),
    }
    assert_eq!(format!("{:?}", manager.get_account().unwrap()), before);
}

#[test]
fn current_device_is_the_first_whose_number_is_the_identity() {
    let mut manager = AccountManager::new();
    assert!(manager.get_current_device("42").unwrap().is_none());
    let mut account = with_status("A1", "R1", "TRIAL");
    account.devices = Some(vec![device("abc", 42)]);
    manager.update_account(account);
    assert_eq!(manager.get_current_device("42").unwrap().unwrap().deviceId, "abc");
    assert!(manager.get_current_device("abc").unwrap().is_none());
    let mut account = with_status("A1", "R1", "TRIAL");
    account.devices = Some(vec![device("hw-1", 1), device("hw-2", 2), device("hw-3", 2)]);
    manager.update_account(account);
    assert_eq!(manager.get_current_device("2").unwrap().unwrap().deviceId, "hw-2");
    assert_eq!(manager.get_current_device("1").unwrap().unwrap().deviceId, "hw-1");
    assert!(manager.get_current_device("3").unwrap().is_none());
    assert!(manager.get_current_device("hw-2").unwrap().is_none());
    assert!(manager.get_current_device("02").unwrap().is_none());
    assert!(manager.get_current_device("").unwrap().is_none());
    let mut account = with_status("A1", "R1", "TRIAL");
    account.devices = Some(Vec::new());
    manager.update_account(account);
    assert!(manager.get_current_device("1").unwrap().is_none());
}

#[test]
fn looking_for_the_current_device_leaves_the_record() {
    let mut manager = AccountManager::new();
    let mut account = with_status("A1", "R1", "TRIAL");
    account.devices = Some(vec![device("abc", 42)]);
    manager.update_account(account);
    let before = format!("{:?}", manager.get_account().unwrap());
    manager.get_current_device("42").unwrap();
    manager.get_current_device("7").unwrap();
    assert_eq!(format!("{:?}", manager.get_account().unwrap()), before);
}

#[test]
fn identity_is_read_from_the_document() {
    let mut manager = AccountManager::new();
    let resolved = manager.get_machine_id(Some("{\"deviceId\":\"doc-1\"}".to_string()), Some("hw-1".to_string())).unwrap();
    assert_eq!(resolved.device_id, "doc-1");
    assert_eq!(resolved.document, None);
    assert_eq!(manager.cached_machine_id(), Some("doc-1".to_string()));
}

#[test]
fn identity_in_memory_wins() {
    let mut manager = AccountManager::new();
    manager.get_machine_id(Some("{\"deviceId\":\"doc-1\"}".to_string()), None).unwrap();
    let resolved = manager.get_machine_id(Some("{\"deviceId\":\"doc-2\"}".to_string()), Some("hw-1".to_string())).unwrap();
    assert_eq!(resolved.device_id, "doc-1");
    assert_eq!(resolved.document, None);
    let resolved = manager.get_machine_id(None, None).unwrap();
    assert_eq!(resolved.device_id, "doc-1");
    assert_eq!(resolved.document, None);
}

#[test]
fn identity_is_made_from_the_hardware_and_written_once() {
    let mut manager = AccountManager::new();
    let resolved = manager.get_machine_id(None, Some("hw-1".to_string())).unwrap();
    assert_eq!(resolved.device_id, "hw-1");
    assert_eq!(resolved.document, Some(device_id_document_text("hw-1")));
    let again = manager.get_machine_id(None, Some("hw-2".to_string())).unwrap();
    assert_eq!(again.device_id, "hw-1");
    assert_eq!(again.document, None);
}

#[test]
fn unreadable_document_falls_through_to_the_hardware() {
    for stored in ["", "garbage", "{\"deviceId\": 5}", "{\"other\": \"x\"}"] {
        let mut manager = AccountManager::new();
        let resolved = manager.get_machine_id(Some(stored.to_string()), Some("hw-1".to_string())).unwrap();
        assert_eq!(resolved.device_id, "hw-1");
        assert!(resolved.document.is_some());
    }
}

#[test]
fn identity_without_hardware_is_random() {
    let mut manager = AccountManager::new();
    let resolved = manager.get_machine_id(None, None).unwrap();
    let digits = resolved.device_id.strip_prefix("random-").expect("a random identity");
    assert!(!digits.is_empty());
    let number: u64 = digits.parse().expect("a number");
    assert_eq!(number.to_string(), digits);
    assert_eq!(resolved.document, Some(device_id_document_text(&resolved.device_id)));
    assert_eq!(manager.cached_machine_id(), Some(resolved.device_id.clone()));
}

#[test]
fn two_runs_on_the_same_document_resolve_the_same_identity() {
    let mut first_run = AccountManager::new();
    let made = first_run.get_machine_id(None, None).unwrap();
    let document = made.document.expect("a document to write");
    let mut second_run = AccountManager::new();
    let read = second_run.get_machine_id(Some(document.clone()), Some("other-hardware".to_string())).unwrap();
    assert_eq!(read.device_id, made.device_id);
    assert_eq!(read.document, None);
    let mut third_run = AccountManager::new();
    let read = third_run.get_machine_id(Some(document), None).unwrap();
    assert_eq!(read.device_id, made.device_id);
}

#[test]
fn hardware_is_needed_only_for_a_fresh_identity() {
    let mut manager = AccountManager::new();
    assert!(manager.needs_fresh_identity(&None));
    assert!(manager.needs_fresh_identity(&Some("garbage".to_string())));
    assert!(manager.needs_fresh_identity(&Some("{\"deviceId\": 1}".to_string())));
    assert!(!manager.needs_fresh_identity(&Some("{\"deviceId\": \"doc-1\"}".to_string())));
    manager.get_machine_id(None, Some("hw-1".to_string())).unwrap();
    assert!(!manager.needs_fresh_identity(&None));
    assert!(!manager.needs_fresh_identity(&Some("garbage".to_string())));
}

#[test]
fn a_written_identity_document_reads_back() {
    for hardware in ["hw-1", "", "with \"quotes\" and \\", "设备"] {
        let mut manager = AccountManager::new();
        let resolved = manager.get_machine_id(None, Some(hardware.to_string())).unwrap();
        let document = resolved.document.expect("a document to write");
        let mut next_run = AccountManager::new();
        let read = next_run.get_machine_id(Some(document), None).unwrap();
        assert_eq!(read.device_id, hardware);
        assert_eq!(read.document, None);
    }
}
