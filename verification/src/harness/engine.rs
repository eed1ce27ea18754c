//! Whether the server is there, by the processes that are.

use vstd::prelude::*;

use super::text::trim;
#[allow(unused_imports)]
use super::text::trimmed;
use crate::strings::{bracketed_text, decimal_text, decode_utf8_lossy};
#[allow(unused_imports)]
use crate::strings::{bracketed, decimal, lossy_utf8};

verus! {

/// The server's program.
pub const SERVER_IMAGE: &'static str = "azookey-server.exe";

/// The program that starts the server, and starts it again.
pub const LAUNCHER_IMAGE: &'static str = "launcher.exe";

/// Whether a program runs, by the processes that run it.
pub fn is_running(pids: &[u32]) -> (running: bool)
    ensures
        running == (pids@.len() > 0),
{
    pids.len() > 0
}

/// The process that runs the server, by the processes that do.
pub fn server_pid(pids: &[u32]) -> (pid: Option<u32>)
    ensures
        pid == if pids@.len() > 0 {
            Some(pids@[0])
        } else {
            None
        },
{
    if pids.len() > 0 {
        Some(pids[0])
    } else {
        None
    }
}

/// What is said before a run: which processes there are, or what is wrong with
/// them.
pub open spec fn preflight_line(launchers: Seq<u32>, servers: Seq<u32>) -> Seq<char> {
    if launchers.len() == 0 {
        LAUNCHER_IMAGE@
            + " が動いていません。先に管理者で起動してください:\n    Start-Process C:\\azookey-e2e\\payload-<timestamp>\\launcher.exe\n(payload ディレクトリは実行ごとに作られます。scripts/e2e-vm-run.ps1 参照)"@
    } else if launchers.len() > 1 {
        LAUNCHER_IMAGE@ + " が "@ + decimal(launchers.len()) + " 個動いています (pids "@ + bracketed(
            launchers,
        )
            + ")。\nパイプは first-instance なので余分な supervisor は server を上げられず、\n失敗し続ける server を再生成してセッション資源を食い潰します。\n\"clean\" チェックポイントから復元してやり直してください。"@
    } else if servers.len() > 1 {
        SERVER_IMAGE@ + " が "@ + decimal(servers.len()) + " 個動いています (pids "@ + bracketed(
            servers,
        ) + ")。同上。"@
    } else if servers.len() == 0 {
        SERVER_IMAGE@
            + " が動いていません。launcher が起動しきるまで待つか、\nログ (%LOCALAPPDATA%\\Azookey\\logs) を確認してください。"@
    } else {
        "engine ok: launcher "@ + bracketed(launchers) + ", server "@ + bracketed(servers)
    }
}

/// Fails unless exactly one process starts the server and exactly one runs it.
pub fn preflight(launchers: &[u32], servers: &[u32]) -> (result: Result<String, String>)
    ensures
        match result {
            Ok(line) => launchers@.len() == 1 && servers@.len() == 1 && line@ == preflight_line(
                launchers@,
                servers@,
            ),
            Err(reason) => (launchers@.len() != 1 || servers@.len() != 1) && reason@
                == preflight_line(launchers@, servers@),
        },
{
    if launchers.len() == 0 {
        let mut reason = LAUNCHER_IMAGE.to_string();
        reason.push_str(
            " が動いていません。先に管理者で起動してください:\n    Start-Process C:\\azookey-e2e\\payload-<timestamp>\\launcher.exe\n(payload ディレクトリは実行ごとに作られます。scripts/e2e-vm-run.ps1 参照)",
        );
        return Err(reason);
    }
    if launchers.len() > 1 {
        let mut reason = LAUNCHER_IMAGE.to_string();
        reason.push_str(" が ");
        reason.push_str(&decimal_text(launchers.len() as u64));
        reason.push_str(" 個動いています (pids ");
        reason.push_str(&bracketed_text(launchers));
        reason.push_str(
            ")。\nパイプは first-instance なので余分な supervisor は server を上げられず、\n失敗し続ける server を再生成してセッション資源を食い潰します。\n\"clean\" チェックポイントから復元してやり直してください。",
        );
        return Err(reason);
    }
    if servers.len() > 1 {
        let mut reason = SERVER_IMAGE.to_string();
        reason.push_str(" が ");
        reason.push_str(&decimal_text(servers.len() as u64));
        reason.push_str(" 個動いています (pids ");
        reason.push_str(&bracketed_text(servers));
        reason.push_str(")。同上。");
        return Err(reason);
    }
    if servers.len() == 0 {
        let mut reason = SERVER_IMAGE.to_string();
        reason.push_str(
            " が動いていません。launcher が起動しきるまで待つか、\nログ (%LOCALAPPDATA%\\Azookey\\logs) を確認してください。",
        );
        return Err(reason);
    }
    let mut line = "engine ok: launcher ".to_string();
    line.push_str(&bracketed_text(launchers));
    line.push_str(", server ");
    line.push_str(&bracketed_text(servers));
    Ok(line)
}

/// What is said where a process could not be ended.
pub open spec fn kill_refusal(pid: u32, said: Seq<char>) -> Seq<char> {
    "taskkill /PID "@ + decimal(pid as nat) + " failed: "@ + trimmed(said)
}

/// What ending a process came to, by what the tool said.
pub fn kill_outcome_of(pid: u32, success: bool, said: &str) -> (result: Result<(), String>)
    ensures
        match result {
            Ok(_) => success,
            Err(reason) => !success && reason@ == kill_refusal(pid, said@),
        },
{
    if success {
        return Ok(());
    }
    let mut reason = "taskkill /PID ".to_string();
    reason.push_str(&decimal_text(pid as u64));
    reason.push_str(" failed: ");
    reason.push_str(&trim(said));
    Err(reason)
}

/// What ending a process came to, by the bytes that the tool wrote.
pub fn kill_outcome(pid: u32, success: bool, stderr: &[u8]) -> (result: Result<(), String>)
    ensures
        match result {
            Ok(_) => success,
            Err(reason) => !success && reason@ == kill_refusal(pid, lossy_utf8(stderr@)),
        },
{
    let said = decode_utf8_lossy(stderr);
    kill_outcome_of(pid, success, &said)
}

/// The process that the server runs in once it was started again: any but the
/// one it ran in.
pub fn restarted(previous: u32, now: Option<u32>) -> (pid: Option<u32>)
    ensures
        pid == if now == Some(previous) {
            None
        } else {
            now
        },
{
    match now {
        Some(pid) => if pid != previous {
            Some(pid)
        } else {
            None
        },
        None => None,
    }
}

} // verus!
