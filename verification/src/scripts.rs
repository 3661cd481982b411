//! The scripts that are run: PowerShell for the network and the user's environment, and
//! the batch file that puts a new executable in place.

use crate::command::{powershell_file, powershell_file_command};
use crate::protocol::{
    ignored, just, none, one, turn_failed, turn_finished, turn_ignored, turn_just_ask, Effect,
    EffectView, NextView, Reply, ReplyView, Request, RequestView, Turn, TurnView,
};
use crate::state::result_text;
use crate::text::{decimal, decimal_of, join2, join3, parse_unsigned, trim, trimmed, unsigned};
use vstd::prelude::*;

verus! {

/// The search path that a new process gets: the machine's, then the user's.
pub const PATH_QUERY: &'static str = "[Environment]::GetEnvironmentVariable('Path','Machine') + ';' + [Environment]::GetEnvironmentVariable('Path','User')";

/// Prints the newest long-term version of Node.js out of the official index.
pub const NODE_QUERY: &'static str = "$ProgressPreference='SilentlyContinue'\r\ntry {\r\n  $r = Invoke-RestMethod -UseBasicParsing -Headers @{ 'User-Agent'='deepseek-harness-desktop' } 'https://nodejs.org/dist/index.json'\r\n  ($r | Where-Object { $_.lts } | Select-Object -First 1).version\r\n} catch { }";

/// Prints what is known of the newest release as one JSON object: `ok`, `tag`, `body` and
/// `asset` where there is one; else `code`, 404 where nothing is published, and `message`.
pub const RELEASE_QUERY: &'static str = "$ProgressPreference='SilentlyContinue'\r\ntry {\r\n  $r = Invoke-RestMethod -UseBasicParsing -Headers @{ 'User-Agent'='deepseek-harness-desktop (wq3333/deepseek-harness-desktop)' } 'https://api.github.com/repos/wq3333/deepseek-harness-desktop/releases/latest'\r\n  $a = $r.assets | Where-Object { $_.name -ieq 'deepseek-harness.exe' } | Select-Object -First 1\r\n  if (-not $a) { $a = $r.assets | Where-Object { $_.name -like '*.exe' } | Select-Object -First 1 }\r\n  [pscustomobject]@{ ok=$true; tag=$r.tag_name; body=$r.body; asset=$a.browser_download_url } | ConvertTo-Json -Compress\r\n} catch {\r\n  $code = 0\r\n  try { $code = $_.Exception.Response.StatusCode.value__ } catch {}\r\n  if ($code -eq 404) { [pscustomobject]@{ ok=$false; code=404 } | ConvertTo-Json -Compress }\r\n  else { [pscustomobject]@{ ok=$false; code=0; message=($_.Exception.Message -replace '\\r?\\n',' ') } | ConvertTo-Json -Compress }\r\n}";

/// The start of the script that prints the length of what stands at an address.
pub const HEAD_START: &'static str = "$ProgressPreference='SilentlyContinue'\r\ntry {\r\n  $r = Invoke-WebRequest -UseBasicParsing -Method Head -MaximumRedirection 10 -Headers @{ 'User-Agent'='deepseek-harness-desktop (wq3333/deepseek-harness-desktop)' } '";

/// The end of that script, behind the address.
pub const HEAD_END: &'static str = "'\r\n  $r.Headers['Content-Length']\r\n} catch {}";

/// The start of the script that downloads a file.
pub const DOWNLOAD_START: &'static str = "$ProgressPreference='SilentlyContinue'\r\ntry {\r\n  Invoke-WebRequest -UseBasicParsing -Headers @{ 'User-Agent'='deepseek-harness-desktop (wq3333/deepseek-harness-desktop)' } -OutFile '";

/// The part of that script between the address and the file for the error.
pub const DOWNLOAD_CATCH: &'static str = "'\r\n  exit 0\r\n} catch {\r\n  $_.Exception.Message | Out-File -FilePath '";

/// The end of that script, behind the file for the error.
pub const DOWNLOAD_END: &'static str = "' -Encoding utf8\r\n  exit 1\r\n}";

/// Appends a directory to the user's search path unless it is there already.
pub open spec fn add_path_script(dir: Seq<char>) -> Seq<char> {
    "$p = [Environment]::GetEnvironmentVariable('Path','User')\r\nif ($p -split ';' -contains '"@
        + dir + "') { exit 0 }\r\n[Environment]::SetEnvironmentVariable('Path', ($p + ';' + '"@ + dir
        + "'), 'User')"@
}

/// The script that appends a directory to the user's search path unless it is there
/// already.
pub fn add_user_path(dir: &str) -> (r: String)
    ensures
        r@ == add_path_script(dir@),
{
    "$p = [Environment]::GetEnvironmentVariable('Path','User')\r\nif ($p -split ';' -contains '".to_owned().concat(
        dir,
    ).concat(
        "') { exit 0 }\r\n[Environment]::SetEnvironmentVariable('Path', ($p + ';' + '",
    ).concat(dir).concat("'), 'User')")
}

/// Prints the length that the server gives for an address.
pub open spec fn head_script(url: Seq<char>) -> Seq<char> {
    HEAD_START@ + url + HEAD_END@
}

/// The script that prints the length that the server gives for an address.
pub fn content_length_script(url: &str) -> (r: String)
    ensures
        r@ == head_script(url@),
{
    join3(HEAD_START, url, HEAD_END)
}

/// The length that the script has printed, if it has printed one.
pub open spec fn printed_length(output: Result<Seq<char>, Seq<char>>) -> Option<nat> {
    match output {
        Ok(out) => unsigned(trim(out), 0xffff_ffff_ffff_ffff),
        Err(_) => None,
    }
}

/// The length that the server gives for an address, out of what the script has printed;
/// `None` where it gives none.
pub fn head_content_length(output: &Result<String, String>) -> (r: Option<u64>)
    ensures
        match r {
            Some(n) => printed_length(result_text(*output)) == Some(n as nat),
            None => printed_length(result_text(*output)) is None,
        },
{
    match output {
        Ok(out) => parse_unsigned(trimmed(out.as_str()).as_str(), 0xffff_ffff_ffff_ffff),
        Err(_) => None,
    }
}

/// Downloads an address into a file; where that fails, the reason goes into a second file.
pub open spec fn download_text(url: Seq<char>, dest: Seq<char>, log: Seq<char>) -> Seq<char> {
    DOWNLOAD_START@ + dest + "' '"@ + url + DOWNLOAD_CATCH@ + log + DOWNLOAD_END@
}

/// The script that downloads an address into a file; where that fails, the reason goes
/// into a second file.
pub fn download_script(url: &str, dest: &str, log: &str) -> (r: String)
    ensures
        r@ == download_text(url@, dest@, log@),
{
    DOWNLOAD_START.to_owned().concat(dest).concat("' '").concat(url).concat(DOWNLOAD_CATCH).concat(
        log,
    ).concat(DOWNLOAD_END)
}

/// The name of a script file that this process runs and waits for.
pub fn script_name(pid: u32) -> (r: String)
    ensures
        r@ == "dsh-update-"@ + decimal(pid as nat) + ".ps1"@,
{
    join3("dsh-update-", decimal_of(pid as u64).as_str(), ".ps1")
}

/// The name of the script file that downloads for this process.
pub fn download_script_name(pid: u32) -> (r: String)
    ensures
        r@ == "dsh-download-"@ + decimal(pid as nat) + ".ps1"@,
{
    join3("dsh-download-", decimal_of(pid as u64).as_str(), ".ps1")
}

/// The name of the file for the reason why a download of this process failed.
pub fn download_log_name(pid: u32) -> (r: String)
    ensures
        r@ == "dsh-download-"@ + decimal(pid as nat) + ".error.log"@,
{
    join3("dsh-download-", decimal_of(pid as u64).as_str(), ".error.log")
}

/// Waits until no process of the name `exe` is left, puts the file `tmp` in the place of
/// `target`, starts it and removes `tmp`; where the copy fails, a note goes into `log`.
pub open spec fn swap_text(
    exe: Seq<char>,
    tmp: Seq<char>,
    target: Seq<char>,
    log: Seq<char>,
) -> Seq<char> {
    "@echo off\r\nsetlocal\r\n:wait\r\ntasklist /FI \"IMAGENAME eq "@ + exe
        + "\" 2>nul | find /I \""@ + exe
        + "\" >nul\r\nif not errorlevel 1 (timeout /t 1 /nobreak >nul & goto wait)\r\ncopy /y \""@
        + tmp + "\" \""@ + target
        + "\" >nul\r\nif errorlevel 1 (echo update-copy-failed > \""@ + log
        + "\" & exit /b 1)\r\nstart \"\" \""@ + target + "\"\r\ndel /q \""@ + tmp
        + "\" >nul 2>nul\r\nexit /b 0"@
}

/// The batch file that puts a new executable in the place of the running one and starts it.
pub fn swap_script(exe: &str, tmp: &str, target: &str, log: &str) -> (r: String)
    ensures
        r@ == swap_text(exe@, tmp@, target@, log@),
{
    "@echo off\r\nsetlocal\r\n:wait\r\ntasklist /FI \"IMAGENAME eq ".to_owned().concat(exe).concat(
        "\" 2>nul | find /I \"",
    ).concat(exe).concat(
        "\" >nul\r\nif not errorlevel 1 (timeout /t 1 /nobreak >nul & goto wait)\r\ncopy /y \"",
    ).concat(tmp).concat("\" \"").concat(target).concat(
        "\" >nul\r\nif errorlevel 1 (echo update-copy-failed > \"",
    ).concat(log).concat("\" & exit /b 1)\r\nstart \"\" \"").concat(target).concat(
        "\"\r\ndel /q \"",
    ).concat(tmp).concat("\" >nul 2>nul\r\nexit /b 0")
}

// ---- the run of a script ----

/// What the run of a script waits for.
#[derive(Clone, Copy, Debug, PartialEq, Eq, Structural)]
pub enum ScriptStage {
    /// The script to be written.
    Write,
    /// The end of the script.
    Run,
    Over,
}

/// The run of a PowerShell script, by way of a file that is removed afterwards.
#[derive(Debug)]
pub struct RunPs {
    /// The file of the script.
    pub path: String,
    pub stage: ScriptStage,
}

/// What the run of a script holds.
pub struct RunPsView {
    pub path: Seq<char>,
    pub stage: ScriptStage,
}

impl View for RunPs {
    type V = RunPsView;

    open spec fn view(&self) -> RunPsView {
        RunPsView { path: self.path@, stage: self.stage }
    }
}

/// The start of the run of a script.
pub open spec fn run_ps_start(script: Seq<char>, path: Seq<char>) -> (RunPsView, TurnView) {
    (
        RunPsView { path, stage: ScriptStage::Write },
        just(NextView::Ask(RequestView::WriteFile { path, text: script })),
    )
}

/// One step of the run of a script. What it ends with is what the script has printed, or
/// the reason why it failed.
pub open spec fn run_ps_step(p: RunPsView, reply: ReplyView) -> (RunPsView, TurnView) {
    match (p.stage, reply) {
        (ScriptStage::Write, ReplyView::Done(Ok(_))) => (
            RunPsView { stage: ScriptStage::Run, ..p },
            just(NextView::Ask(RequestView::Capture(powershell_file(p.path)))),
        ),
        (ScriptStage::Write, ReplyView::Done(Err(e))) => (
            RunPsView { stage: ScriptStage::Over, ..p },
            just(NextView::Failed("写入临时脚本失败:"@ + e)),
        ),
        (ScriptStage::Run, ReplyView::Captured(out)) => (
            RunPsView { stage: ScriptStage::Over, ..p },
            TurnView {
                effects: seq![EffectView::RemoveFile(p.path)],
                next: match out {
                    Ok(text) => NextView::Finished(text),
                    Err(e) => NextView::Failed(e),
                },
            },
        ),
        _ => (p, ignored()),
    }
}

impl RunPs {
    /// Begins the run of `script` by way of the file `path`.
    pub fn start(script: String, path: String) -> (r: (RunPs, Turn))
        ensures
            (r.0@, r.1@) == run_ps_start(script@, path@),
    {
        let turn = turn_just_ask(Request::WriteFile { path: path.clone(), text: script });
        (RunPs { path, stage: ScriptStage::Write }, turn)
    }

    /// Takes the reply to what was asked last and goes on.
    pub fn step(&mut self, reply: Reply) -> (r: Turn)
        ensures
            (final(self)@, r@) == run_ps_step(old(self)@, reply@),
    {
        match (self.stage, reply) {
            (ScriptStage::Write, Reply::Done(Ok(_))) => {
                self.stage = ScriptStage::Run;
                turn_just_ask(Request::Capture(powershell_file_command(self.path.as_str())))
            },
            (ScriptStage::Write, Reply::Done(Err(e))) => {
                self.stage = ScriptStage::Over;
                turn_failed(none(), join2("写入临时脚本失败:", e.as_str()))
            },
            (ScriptStage::Run, Reply::Captured(out)) => {
                self.stage = ScriptStage::Over;
                let list = one(Effect::RemoveFile(self.path.clone()));
                match out {
                    Ok(text) => turn_finished(list, text),
                    Err(e) => turn_failed(list, e),
                }
            },
            _ => turn_ignored(),
        }
    }
}

} // verus!
