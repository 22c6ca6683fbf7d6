//! What the client knows about the proxy engine: its modes, its ports, and
//! how the state of the system proxy is judged.

use vstd::prelude::*;
use vstd::string::StringExecFns;
use crate::common::ProxyCheckCode;
use vstd::utf8::encode_utf8;
use crate::text::{contains, digits, join, occurs_in, trimmed, trimmed_eq, u64_to_string};

verus! {

/// Port of the engine's control interface.
pub const CLASH_API_PORT: u16 = 9090;

/// Port of the engine's HTTP proxy.
pub const CLASH_PROXY_PORT: u16 = 7890;

/// Port of the engine's SOCKS proxy.
pub const CLASH_SOCKS_PORT: u16 = 7891;

/// How the engine routes traffic.
#[derive(Debug, Clone, Copy, PartialEq, Eq, Structural)]
pub enum ClashMode {
    Rule,
    Global,
    Direct,
}

impl ClashMode {
    /// The name of a mode in the engine's configuration.
    pub open spec fn name(self) -> Seq<char> {
        match self {
            ClashMode::Rule => "rule"@,
            ClashMode::Global => "global"@,
            ClashMode::Direct => "direct"@,
        }
    }

    /// The name under which the engine is told to switch to this mode.
    pub fn as_str(&self) -> (text: &'static str)
        ensures
            text@ == self.name(),
    {
        match self {
            ClashMode::Rule => "rule",
            ClashMode::Global => "global",
            ClashMode::Direct => "direct",
        }
    }
}

/// The address of the engine's configuration on its control interface.
pub open spec fn config_address() -> Seq<char> {
    "http://127.0.0.1:"@ + digits(CLASH_API_PORT as nat) + "/configs"@
}

/// Writes the address of the engine's configuration.
pub fn config_url() -> (url: String)
    ensures
        url@ == config_address(),
{
    let mut url = join("http://127.0.0.1:", u64_to_string(CLASH_API_PORT as u64).as_str());
    url.append("/configs");
    url
}

/// The mode that carries traffic through the tunnel, and the one that does
/// not.
pub fn mode_for(connected: bool) -> (mode: ClashMode)
    ensures
        mode == if connected {
            ClashMode::Rule
        } else {
            ClashMode::Direct
        },
{
    if connected {
        ClashMode::Rule
    } else {
        ClashMode::Direct
    }
}

/// The verdict on the system proxy. The first thing that is wrong decides:
/// the engine does not run, the proxy is switched off, it points elsewhere.
pub open spec fn proxy_verdict(
    process_running: bool,
    enabled: bool,
    correct_server: bool,
) -> ProxyCheckCode {
    if !process_running {
        ProxyCheckCode::ClashProcessNotRunning
    } else if !enabled {
        ProxyCheckCode::ProxyNotEnabled
    } else if !correct_server {
        ProxyCheckCode::ProxyServerIncorrect
    } else {
        ProxyCheckCode::Normal
    }
}

/// Judges the system proxy from what was observed: whether the engine runs,
/// whether the proxy is switched on, and whether it points at the engine.
pub fn check_system_proxy(process_running: bool, enabled: bool, correct_server: bool) -> (code:
    ProxyCheckCode)
    ensures
        code == proxy_verdict(process_running, enabled, correct_server),
{
    if !process_running {
        ProxyCheckCode::ClashProcessNotRunning
    } else if !enabled {
        ProxyCheckCode::ProxyNotEnabled
    } else if !correct_server {
        ProxyCheckCode::ProxyServerIncorrect
    } else {
        ProxyCheckCode::Normal
    }
}

/// Whether a phrase occurs in what a command printed.
pub open spec fn says(output: Seq<char>, phrase: Seq<char>) -> bool {
    occurs_in(encode_utf8(phrase), encode_utf8(output))
}

/// The port of the HTTP proxy, written in base ten.
pub open spec fn proxy_port_text() -> Seq<char> {
    digits(CLASH_PROXY_PORT as nat)
}

fn proxy_port() -> (text: String)
    ensures
        text@ == proxy_port_text(),
{
    u64_to_string(CLASH_PROXY_PORT as u64)
}

/// The verdict on what `networksetup -getwebproxy` printed while the engine
/// runs: the proxy is on where it says `Enabled: Yes`, and points at the
/// engine where it names the local address and the proxy port.
pub open spec fn macos_verdict(output: Seq<char>) -> ProxyCheckCode {
    proxy_verdict(
        true,
        says(output, "Enabled: Yes"@),
        says(output, "Server: 127.0.0.1"@) && says(output, "Port: "@ + proxy_port_text()),
    )
}

/// Judges what `networksetup -getwebproxy` printed while the engine runs.
pub fn check_macos_proxy(output: &str) -> (code: ProxyCheckCode)
    ensures
        code == macos_verdict(output@),
{
    let port = join("Port: ", proxy_port().as_str());
    let enabled = contains(output, "Enabled: Yes");
    let correct_server = contains(output, "Server: 127.0.0.1") && contains(output, port.as_str());
    check_system_proxy(true, enabled, correct_server)
}

/// The verdict on what the registry query for the internet settings printed
/// while the engine runs.
pub open spec fn windows_verdict(output: Seq<char>) -> ProxyCheckCode {
    proxy_verdict(
        true,
        says(output, "ProxyEnable    REG_DWORD    0x1"@),
        says(output, "ProxyServer    REG_SZ    127.0.0.1:"@ + proxy_port_text()),
    )
}

/// Judges what the registry query for the internet settings printed while
/// the engine runs.
pub fn check_windows_proxy(output: &str) -> (code: ProxyCheckCode)
    ensures
        code == windows_verdict(output@),
{
    let server = join("ProxyServer    REG_SZ    127.0.0.1:", proxy_port().as_str());
    let enabled = contains(output, "ProxyEnable    REG_DWORD    0x1");
    let correct_server = contains(output, server.as_str());
    check_system_proxy(true, enabled, correct_server)
}

/// The verdict on the three settings that `gsettings` printed while the
/// engine runs: the mode, the host and the port of the HTTP proxy.
pub open spec fn linux_verdict(
    mode: Seq<char>,
    host: Seq<char>,
    port: Seq<char>,
) -> ProxyCheckCode {
    proxy_verdict(
        true,
        trimmed(mode) == "'manual'"@,
        trimmed(host) == "'127.0.0.1'"@ && trimmed(port) == proxy_port_text(),
    )
}

/// Judges the three settings that `gsettings` printed while the engine runs.
pub fn check_linux_proxy(mode: &str, host: &str, port: &str) -> (code: ProxyCheckCode)
    ensures
        code == linux_verdict(mode@, host@, port@),
{
    let enabled = trimmed_eq(mode, "'manual'");
    let correct_server = trimmed_eq(host, "'127.0.0.1'") && trimmed_eq(
        port,
        proxy_port().as_str(),
    );
    check_system_proxy(true, enabled, correct_server)
}

} // verus!
