//! Status codes shared by the account and proxy parts of the client.

use vstd::prelude::*;
use crate::text::str_eq;

verus! {

/// Authorisation state of the account bound to this device.
#[allow(non_camel_case_types)]
#[derive(Debug, Clone, Copy, PartialEq, Eq, Structural)]
pub enum AccountStatus {
    NO_SERVICE,
    ON_SERVICE,
    SERVICE_END,
    TRIAL,
    TRIAL_END,
    NO_INIT,
}

impl AccountStatus {
    /// The wire name of a status.
    pub open spec fn name(self) -> Seq<char> {
        match self {
            AccountStatus::NO_SERVICE => "NO_SERVICE"@,
            AccountStatus::ON_SERVICE => "ON_SERVICE"@,
            AccountStatus::SERVICE_END => "SERVICE_END"@,
            AccountStatus::TRIAL => "TRIAL"@,
            AccountStatus::TRIAL_END => "TRIAL_END"@,
            AccountStatus::NO_INIT => "NO_INIT"@,
        }
    }

    /// The status that a wire name stands for; an unknown name stands for
    /// `NO_INIT`.
    pub open spec fn parse(text: Seq<char>) -> AccountStatus {
        if text == "NO_SERVICE"@ {
            AccountStatus::NO_SERVICE
        } else if text == "ON_SERVICE"@ {
            AccountStatus::ON_SERVICE
        } else if text == "SERVICE_END"@ {
            AccountStatus::SERVICE_END
        } else if text == "TRIAL"@ {
            AccountStatus::TRIAL
        } else if text == "TRIAL_END"@ {
            AccountStatus::TRIAL_END
        } else {
            AccountStatus::NO_INIT
        }
    }

    pub fn from_str(status: &str) -> (parsed: AccountStatus)
        ensures
            parsed == AccountStatus::parse(status@),
    {
        if str_eq(status, "NO_SERVICE") {
            AccountStatus::NO_SERVICE
        } else if str_eq(status, "ON_SERVICE") {
            AccountStatus::ON_SERVICE
        } else if str_eq(status, "SERVICE_END") {
            AccountStatus::SERVICE_END
        } else if str_eq(status, "TRIAL") {
            AccountStatus::TRIAL
        } else if str_eq(status, "TRIAL_END") {
            AccountStatus::TRIAL_END
        } else {
            AccountStatus::NO_INIT
        }
    }

    pub fn as_str(&self) -> (text: &'static str)
        ensures
            text@ == self.name(),
    {
        match self {
            AccountStatus::NO_SERVICE => "NO_SERVICE",
            AccountStatus::ON_SERVICE => "ON_SERVICE",
            AccountStatus::SERVICE_END => "SERVICE_END",
            AccountStatus::TRIAL => "TRIAL",
            AccountStatus::TRIAL_END => "TRIAL_END",
            AccountStatus::NO_INIT => "NO_INIT",
        }
    }

    /// The text that describes a status to the user.
    pub open spec fn message(self) -> Seq<char> {
        match self {
            AccountStatus::NO_SERVICE => "未购买服务"@,
            AccountStatus::ON_SERVICE => "服务中"@,
            AccountStatus::SERVICE_END => "服务已到期"@,
            AccountStatus::TRIAL => "试用期中"@,
            AccountStatus::TRIAL_END => "试用期已结束"@,
            AccountStatus::NO_INIT => "未初始化"@,
        }
    }

    pub fn get_message(&self) -> (text: &'static str)
        ensures
            text@ == self.message(),
    {
        match self {
            AccountStatus::NO_SERVICE => "未购买服务",
            AccountStatus::ON_SERVICE => "服务中",
            AccountStatus::SERVICE_END => "服务已到期",
            AccountStatus::TRIAL => "试用期中",
            AccountStatus::TRIAL_END => "试用期已结束",
            AccountStatus::NO_INIT => "未初始化",
        }
    }
}

/// Result of a check of the system proxy.
#[derive(Debug, Clone, Copy, PartialEq, Eq, Structural)]
pub enum ProxyCheckCode {
    Normal,
    ClashProcessNotRunning,
    ProxyNotEnabled,
    ProxyServerIncorrect,
    CheckError,
}

impl ProxyCheckCode {
    /// The text that describes a result to the user.
    pub open spec fn message(self) -> Seq<char> {
        match self {
            ProxyCheckCode::Normal => "系统代理运行正常"@,
            ProxyCheckCode::ClashProcessNotRunning => "Clash进程未运行，请重新启动应用"@,
            ProxyCheckCode::ProxyNotEnabled => "系统代理未启用，请重新连接"@,
            ProxyCheckCode::ProxyServerIncorrect => "系统代理配置错误，请重新连接"@,
            ProxyCheckCode::CheckError => "系统代理检查失败，请检查网络连接"@,
        }
    }

    /// The number that stands for a result.
    pub fn code(&self) -> (number: u8)
        ensures
            number == match *self {
                ProxyCheckCode::Normal => 0u8,
                ProxyCheckCode::ClashProcessNotRunning => 1u8,
                ProxyCheckCode::ProxyNotEnabled => 2u8,
                ProxyCheckCode::ProxyServerIncorrect => 3u8,
                ProxyCheckCode::CheckError => 4u8,
            },
    {
        match self {
            ProxyCheckCode::Normal => 0,
            ProxyCheckCode::ClashProcessNotRunning => 1,
            ProxyCheckCode::ProxyNotEnabled => 2,
            ProxyCheckCode::ProxyServerIncorrect => 3,
            ProxyCheckCode::CheckError => 4,
        }
    }

    pub fn get_message(&self) -> (text: &'static str)
        ensures
            text@ == self.message(),
    {
        match self {
            ProxyCheckCode::Normal => "系统代理运行正常",
            ProxyCheckCode::ClashProcessNotRunning => "Clash进程未运行，请重新启动应用",
            ProxyCheckCode::ProxyNotEnabled => "系统代理未启用，请重新连接",
            ProxyCheckCode::ProxyServerIncorrect => "系统代理配置错误，请重新连接",
            ProxyCheckCode::CheckError => "系统代理检查失败，请检查网络连接",
        }
    }
}

/// Every status is found again from its wire name.
pub proof fn lemma_status_names_round_trip(status: AccountStatus)
    ensures
        AccountStatus::parse(status.name()) == status,
{
    reveal_strlit("NO_SERVICE");
    reveal_strlit("ON_SERVICE");
    reveal_strlit("SERVICE_END");
    reveal_strlit("TRIAL");
    reveal_strlit("TRIAL_END");
    reveal_strlit("NO_INIT");
    assert("NO_SERVICE"@.len() == 10 && "ON_SERVICE"@.len() == 10);
    assert("SERVICE_END"@.len() == 11 && "TRIAL"@.len() == 5);
    assert("TRIAL_END"@.len() == 9 && "NO_INIT"@.len() == 7);
    assert("NO_SERVICE"@[0] != "ON_SERVICE"@[0]);
}

} // verus!
