//! The session record and the other values exchanged with the account service.

use vstd::prelude::*;
use vstd::string::StringExecFns;
use crate::common::AccountStatus;
use crate::text::{decimal, i64_to_string, join, lemma_decimal_is_injective, str_eq};

verus! {

/// Address of the account service.
pub const API_BASE_URL: &'static str = "http://localhost:8080";

/// What an optional string holds, as characters.
pub open spec fn opt_text(value: Option<String>) -> Option<Seq<char>> {
    match value {
        Some(text) => Some(text@),
        None => None,
    }
}

/// Copies an optional string.
pub fn clone_opt_text(value: &Option<String>) -> (copy: Option<String>)
    ensures
        opt_text(copy) == opt_text(*value),
{
    match value {
        Some(text) => Some(text.clone()),
        None => None,
    }
}

/// Turns a missing string into the empty string.
pub fn empty_string_as_none(value: Option<String>) -> (text: String)
    ensures
        text@ == match value {
            Some(given) => given@,
            None => Seq::<char>::empty(),
        },
{
    match value {
        Some(given) => given,
        None => String::new(),
    }
}

/// A device bound to the account, as mathematics sees it.
pub struct DeviceView {
    pub device_id: Seq<char>,
    pub device_name: Option<Seq<char>>,
    pub device_user_id: int,
    pub last_online_time: Seq<char>,
    pub trial_expiry_date: Option<Seq<char>>,
}

/// A device bound to the account.
#[allow(non_snake_case)]
#[derive(Debug)]
pub struct DeviceInfo {
    pub deviceId: String,
    pub deviceName: Option<String>,
    pub deviceUserId: i64,
    pub lastOnlineTime: String,
    pub trialExpiryDate: Option<String>,
}

impl View for DeviceInfo {
    type V = DeviceView;

    open spec fn view(&self) -> DeviceView {
        DeviceView {
            device_id: self.deviceId@,
            device_name: opt_text(self.deviceName),
            device_user_id: self.deviceUserId as int,
            last_online_time: self.lastOnlineTime@,
            trial_expiry_date: opt_text(self.trialExpiryDate),
        }
    }
}

impl DeviceView {
    /// The device record with nothing filled in.
    pub open spec fn blank() -> DeviceView {
        DeviceView {
            device_id: Seq::empty(),
            device_name: None,
            device_user_id: 0,
            last_online_time: Seq::empty(),
            trial_expiry_date: None,
        }
    }
}

impl Clone for DeviceInfo {
    fn clone(&self) -> (copy: DeviceInfo)
        ensures
            copy@ == self@,
    {
        DeviceInfo {
            deviceId: self.deviceId.clone(),
            deviceName: clone_opt_text(&self.deviceName),
            deviceUserId: self.deviceUserId,
            lastOnlineTime: self.lastOnlineTime.clone(),
            trialExpiryDate: clone_opt_text(&self.trialExpiryDate),
        }
    }
}

impl Default for DeviceInfo {
    fn default() -> (device: DeviceInfo)
        ensures
            device@ == DeviceView::blank(),
    {
        DeviceInfo {
            deviceId: String::new(),
            deviceName: None,
            deviceUserId: 0,
            lastOnlineTime: String::new(),
            trialExpiryDate: None,
        }
    }
}

impl DeviceInfo {
    /// Whether this record describes the device with the given identity: its
    /// account-scoped number, written in base ten, is that identity.
    pub fn is_current_device(&self, current_device_id: &str) -> (current: bool)
        ensures
            current == (decimal(self.deviceUserId as int) == current_device_id@),
    {
        let written = i64_to_string(self.deviceUserId);
        str_eq(written.as_str(), current_device_id)
    }
}

/// An identity names at most one account-scoped number: two devices that
/// are both current for it carry the same number.
pub proof fn lemma_current_devices_share_their_number(
    first: DeviceView,
    second: DeviceView,
    current_device_id: Seq<char>,
)
    requires
        decimal(first.device_user_id) == current_device_id,
        decimal(second.device_user_id) == current_device_id,
    ensures
        first.device_user_id == second.device_user_id,
{
    lemma_decimal_is_injective(first.device_user_id, second.device_user_id);
}

/// The devices of a list, each as mathematics sees it.
pub open spec fn device_views(devices: Seq<DeviceInfo>) -> Seq<DeviceView> {
    devices.map_values(|device: DeviceInfo| device@)
}

/// Copies a list of devices.
pub fn clone_devices(devices: &Vec<DeviceInfo>) -> (copy: Vec<DeviceInfo>)
    ensures
        device_views(copy@) == device_views(devices@),
{
    let mut copy: Vec<DeviceInfo> = Vec::new();
    let mut i: usize = 0;
    while i < devices.len()
        invariant
            i <= devices.len(),
            copy.len() == i,
            forall|j: int| 0 <= j < i ==> copy@[j]@ == devices@[j]@,
        decreases devices.len() - i,
    {
        copy.push(devices[i].clone());
        i += 1;
    }
    assert(device_views(copy@) =~= device_views(devices@));
    copy
}

/// What an optional list of devices holds.
pub open spec fn opt_devices(devices: Option<Vec<DeviceInfo>>) -> Option<Seq<DeviceView>> {
    match devices {
        Some(list) => Some(device_views(list@)),
        None => None,
    }
}

/// What an optional number holds.
pub open spec fn opt_int(value: Option<i32>) -> Option<int> {
    match value {
        Some(number) => Some(number as int),
        None => None,
    }
}

/// The session record, as mathematics sees it.
pub struct AccountView {
    pub access_token: Seq<char>,
    pub refresh_token: Seq<char>,
    pub status: Seq<char>,
    pub service_expiry_date: Option<Seq<char>>,
    pub username: Option<Seq<char>>,
    pub devices: Option<Seq<DeviceView>>,
    pub login_type: Option<Seq<char>>,
    pub max_devices_allowed: int,
    pub current_package_type: Option<Seq<char>>,
    pub remaining_days: Option<int>,
}

impl AccountView {
    /// The record of a session that has not been established yet: no tokens,
    /// status `NO_INIT`, a device login on the free tier with three devices.
    pub open spec fn initial() -> AccountView {
        AccountView {
            access_token: Seq::empty(),
            refresh_token: Seq::empty(),
            status: "NO_INIT"@,
            service_expiry_date: None,
            username: None,
            devices: None,
            login_type: Some("Device"@),
            max_devices_allowed: 3,
            current_package_type: Some("免费版"@),
            remaining_days: Some(0int),
        }
    }

    /// The initial record carrying the two given tokens.
    pub open spec fn with_tokens(access_token: Seq<char>, refresh_token: Seq<char>) -> AccountView {
        AccountView { access_token, refresh_token, ..AccountView::initial() }
    }

    /// The incoming record as it is committed over the held one: an empty
    /// token in the incoming record stands for "no news" and the held token
    /// stays; every other field is the incoming one.
    pub open spec fn inheriting(self, held: AccountView) -> AccountView {
        AccountView {
            access_token: if self.access_token.len() == 0 {
                held.access_token
            } else {
                self.access_token
            },
            refresh_token: if self.refresh_token.len() == 0 {
                held.refresh_token
            } else {
                self.refresh_token
            },
            ..self
        }
    }
}

/// The devices of a record; none where the record has no list.
pub open spec fn devices_of(record: AccountView) -> Seq<DeviceView> {
    match record.devices {
        Some(list) => list,
        None => Seq::empty(),
    }
}

/// Whether no two devices of a list share an identity.
pub open spec fn unique_by_id(devices: Seq<DeviceView>) -> bool {
    forall|a: int, b: int|
        0 <= a < b < devices.len() ==> devices[a].device_id != devices[b].device_id
}

/// The session record: the tokens, the authorisation status and what the
/// service reports about the account.
#[allow(non_snake_case)]
#[derive(Debug)]
pub struct Account {
    pub accessToken: String,
    pub refreshToken: String,
    pub status: String,
    pub serviceExpiryDate: Option<String>,
    pub username: Option<String>,
    pub devices: Option<Vec<DeviceInfo>>,
    pub loginType: Option<String>,
    pub maxDevicesAllowed: i32,
    pub currentPackageType: Option<String>,
    pub remainingDays: Option<i32>,
}

impl View for Account {
    type V = AccountView;

    open spec fn view(&self) -> AccountView {
        AccountView {
            access_token: self.accessToken@,
            refresh_token: self.refreshToken@,
            status: self.status@,
            service_expiry_date: opt_text(self.serviceExpiryDate),
            username: opt_text(self.username),
            devices: opt_devices(self.devices),
            login_type: opt_text(self.loginType),
            max_devices_allowed: self.maxDevicesAllowed as int,
            current_package_type: opt_text(self.currentPackageType),
            remaining_days: opt_int(self.remainingDays),
        }
    }
}

impl Default for Account {
    fn default() -> (account: Account)
        ensures
            account@ == AccountView::initial(),
    {
        Account {
            accessToken: String::new(),
            refreshToken: String::new(),
            status: String::from_str("NO_INIT"),
            serviceExpiryDate: None,
            username: None,
            devices: None,
            loginType: Some(String::from_str("Device")),
            maxDevicesAllowed: 3,
            currentPackageType: Some(String::from_str("免费版")),
            remainingDays: Some(0),
        }
    }
}

impl Clone for Account {
    fn clone(&self) -> (copy: Account)
        ensures
            copy@ == self@,
    {
        let devices = match &self.devices {
            Some(list) => Some(clone_devices(list)),
            None => None,
        };
        Account {
            accessToken: self.accessToken.clone(),
            refreshToken: self.refreshToken.clone(),
            status: self.status.clone(),
            serviceExpiryDate: clone_opt_text(&self.serviceExpiryDate),
            username: clone_opt_text(&self.username),
            devices,
            loginType: clone_opt_text(&self.loginType),
            maxDevicesAllowed: self.maxDevicesAllowed,
            currentPackageType: clone_opt_text(&self.currentPackageType),
            remainingDays: self.remainingDays,
        }
    }
}

impl Account {
    /// The initial record carrying the two given tokens: what a stored
    /// document that holds nothing but tokens stands for.
    pub fn from_tokens(access_token: String, refresh_token: String) -> (account: Account)
        ensures
            account@ == AccountView::with_tokens(access_token@, refresh_token@),
    {
        let mut account = Account::default();
        account.accessToken = access_token;
        account.refreshToken = refresh_token;
        account
    }

    /// Fills the empty tokens of this record from the held one.
    pub fn inherit_tokens(self, held: &Account) -> (merged: Account)
        ensures
            merged@ == self@.inheriting(held@),
    {
        let mut merged = self;
        if merged.accessToken.as_str().is_empty() {
            merged.accessToken = held.accessToken.clone();
        }
        if merged.refreshToken.as_str().is_empty() {
            merged.refreshToken = held.refreshToken.clone();
        }
        merged
    }

    /// Whether no two devices of the record share an identity, as the
    /// service promises of the list it sends.
    pub fn has_unique_devices(&self) -> (unique: bool)
        ensures
            unique == unique_by_id(devices_of(self@)),
    {
        match &self.devices {
            None => true,
            Some(devices) => {
                let mut j: usize = 0;
                while j < devices.len()
                    invariant
                        j <= devices.len(),
                        self.devices == Some(*devices),
                        forall|a: int, b: int|
                            0 <= a < b < j ==> devices@[a]@.device_id != devices@[b]@.device_id,
                    decreases devices.len() - j,
                {
                    let mut i: usize = 0;
                    while i < j
                        invariant
                            i <= j < devices.len(),
                            self.devices == Some(*devices),
                            forall|a: int|
                                0 <= a < i ==> devices@[a]@.device_id
                                    != devices@[j as int]@.device_id,
                        decreases j - i,
                    {
                        if str_eq(devices[i].deviceId.as_str(), devices[j].deviceId.as_str()) {
                            assert(devices_of(self@)[i as int].device_id == devices_of(
                                self@,
                            )[j as int].device_id);
                            return false;
                        }
                        i += 1;
                    }
                    j += 1;
                }
                true
            },
        }
    }

    /// The status of the record, read as one of the known statuses; a
    /// status that is not known reads as `NO_INIT`.
    pub fn known_status(&self) -> (status: AccountStatus)
        ensures
            status == AccountStatus::parse(self@.status),
    {
        AccountStatus::from_str(self.status.as_str())
    }

    /// Whether the record carries an access token.
    pub fn has_access_token(&self) -> (present: bool)
        ensures
            present == (self@.access_token.len() > 0),
    {
        !self.accessToken.as_str().is_empty()
    }
}

/// The wrapper that every answer of the account service comes in. `success`
/// is the authoritative signal; `data` is meaningful only when it is set.
#[allow(non_snake_case)]
#[derive(Debug)]
pub struct ApiResponse<T> {
    pub code: String,
    pub data: T,
    pub errorMsg: String,
    pub fail: bool,
    pub success: bool,
}

/// What a user enters to log in, with the device to bind if one is chosen.
/// It cannot be printed, so that the password does not end up in a log.
#[allow(non_snake_case)]
pub struct AuthRequest {
    pub username: String,
    pub password: String,
    pub deviceUserId: Option<String>,
}

/// Why an operation of the session manager failed, as mathematics sees it.
pub enum ErrorView {
    Io(Seq<char>),
    Reqwest(Seq<char>),
    Json(Seq<char>),
    ApiError(Seq<char>),
    TokenExpired,
    RefreshExpired,
    Other(Seq<char>),
}

impl ErrorView {
    /// The text shown for an error: a label for its kind, then its detail.
    pub open spec fn text(self) -> Seq<char> {
        match self {
            ErrorView::Io(detail) => "IO错误: "@ + detail,
            ErrorView::Reqwest(detail) => "网络请求错误: "@ + detail,
            ErrorView::Json(detail) => "JSON解析错误: "@ + detail,
            ErrorView::ApiError(detail) => "API错误: "@ + detail,
            ErrorView::TokenExpired => "API错误: 访问令牌已过期"@,
            ErrorView::RefreshExpired => "API错误: 刷新令牌已失效"@,
            ErrorView::Other(detail) => "其他错误: "@ + detail,
        }
    }
}

/// Why an operation of the session manager failed.
///
/// `Io` is a failure of the local store, `Reqwest` one of the transport,
/// `Json` a malformed answer, `ApiError` a rejection by the service with its
/// message. `TokenExpired` and `RefreshExpired` are the two rejections that
/// the synchronisation loop recovers from.
#[derive(Debug)]
pub enum AccountError {
    Io(String),
    Reqwest(String),
    Json(String),
    ApiError(String),
    TokenExpired,
    RefreshExpired,
    Other(String),
}

impl View for AccountError {
    type V = ErrorView;

    open spec fn view(&self) -> ErrorView {
        match self {
            AccountError::Io(detail) => ErrorView::Io(detail@),
            AccountError::Reqwest(detail) => ErrorView::Reqwest(detail@),
            AccountError::Json(detail) => ErrorView::Json(detail@),
            AccountError::ApiError(detail) => ErrorView::ApiError(detail@),
            AccountError::TokenExpired => ErrorView::TokenExpired,
            AccountError::RefreshExpired => ErrorView::RefreshExpired,
            AccountError::Other(detail) => ErrorView::Other(detail@),
        }
    }
}

impl Clone for AccountError {
    fn clone(&self) -> (copy: AccountError)
        ensures
            copy@ == self@,
    {
        match self {
            AccountError::Io(detail) => AccountError::Io(detail.clone()),
            AccountError::Reqwest(detail) => AccountError::Reqwest(detail.clone()),
            AccountError::Json(detail) => AccountError::Json(detail.clone()),
            AccountError::ApiError(detail) => AccountError::ApiError(detail.clone()),
            AccountError::TokenExpired => AccountError::TokenExpired,
            AccountError::RefreshExpired => AccountError::RefreshExpired,
            AccountError::Other(detail) => AccountError::Other(detail.clone()),
        }
    }
}

impl AccountError {
    /// The text shown for this error.
    pub fn to_string(&self) -> (text: String)
        ensures
            text@ == self@.text(),
    {
        match self {
            AccountError::Io(detail) => join("IO错误: ", detail.as_str()),
            AccountError::Reqwest(detail) => join("网络请求错误: ", detail.as_str()),
            AccountError::Json(detail) => join("JSON解析错误: ", detail.as_str()),
            AccountError::ApiError(detail) => join("API错误: ", detail.as_str()),
            AccountError::TokenExpired => String::from_str("API错误: 访问令牌已过期"),
            AccountError::RefreshExpired => String::from_str("API错误: 刷新令牌已失效"),
            AccountError::Other(detail) => join("其他错误: ", detail.as_str()),
        }
    }
}

} // verus!
