//! What the waits, the scripts and the preparation ask for, reply by reply, and how they end.

use crate::command::{powershell_file, program};
use crate::environment::{
    find_start, find_step, prepare_step, webview2_probes, webview2_start, webview2_step, FindView,
    Prepare, PrepareStage,
};
use crate::laws_runs::{asks, code_words, ends, fails};
use crate::protocol::{
    AmendmentView, CommandView, EffectView, Exit, KindView, NextView, ReplyView, RequestView,
};
use crate::scripts::{run_ps_start, run_ps_step};
use crate::text::decimal;
use crate::wait::{port_step, ready_start, ready_step, PortStage, ReadyStage, WaitPort, WaitReady};
use vstd::prelude::*;

verus! {

// ---- waiting ----

/// A note, with the end of a log under it where there is any.
pub open spec fn with_log(note: Seq<char>, tail: Seq<char>) -> Seq<char> {
    if tail.len() == 0 {
        note
    } else {
        note + "，最近输出：\n"@ + tail
    }
}

/// The wait for the server looks at its port, then at the server process, then at the clock,
/// and so on. It ends well when the port is open, and fails when the process has ended or
/// the seconds are over, with the end of the log of that port.
pub proof fn law_wait_for_the_server(
    port: u16,
    secs: u32,
    reported: u64,
    exit: Exit,
    now: u64,
    tail: Seq<char>,
)
    ensures
        ({
            let start = ready_start(port, secs);
            let timeout = (secs * 1_000_000_000) as u64;
            let a = WaitReady { port, timeout, reported, stage: ReadyStage::Port };
            let (_, open) = ready_step(a, ReplyView::Flag(true));
            let (b, closed) = ready_step(a, ReplyView::Flag(false));
            let (c, ended) = ready_step(b, ReplyView::Ended(Some(exit)));
            let (_, dead) = ready_step(c, ReplyView::Text(tail));
            let (d, alive) = ready_step(b, ReplyView::Ended(None));
            let (e, told) = ready_step(d, ReplyView::Nanos(now));
            let (_, late) = ready_step(e, ReplyView::Text(tail));
            let why = with_log(
                "dsh 服务进程提前退出(退出码 "@ + code_words(exit) + ")"@,
                tail,
            );
            let slow = with_log(
                "等待 dsh 服务启动超时(端口 "@ + decimal(port as nat) + ")"@,
                tail,
            );
            let log = asks(Seq::empty(), RequestView::LogTail { port, count: 10 });
            let pause = EffectView::Sleep(500);
            &&& start.0 == (WaitReady { port, timeout, reported: 0, stage: ReadyStage::Port })
            &&& start.1 == asks(Seq::empty(), RequestView::PortOpen(port))
            &&& open == ends(Seq::empty(), Seq::empty())
            &&& closed == asks(Seq::empty(), RequestView::ChildExit)
            &&& ended == log
            &&& dead == fails(
                seq![
                    EffectView::Log("  "@ + why),
                    EffectView::Amend(
                        AmendmentView {
                            phase: Some("error"@),
                            message: "dsh 服务启动失败:"@ + why,
                            progress: Some(None),
                        },
                    ),
                ],
                why,
            )
            &&& alive == asks(Seq::empty(), RequestView::Elapsed)
            &&& if now >= timeout {
                &&& told == log
                &&& late == fails(seq![EffectView::Log("  "@ + slow)], slow)
            } else if now - reported >= 5_000_000_000 {
                &&& told == asks(
                    seq![
                        EffectView::Amend(
                            AmendmentView {
                                phase: None,
                                message: "正在启动 dsh 服务…（已等待 "@ + decimal(
                                    (now / 1_000_000_000) as nat,
                                ) + "s）"@,
                                progress: None,
                            },
                        ),
                        pause,
                    ],
                    RequestView::PortOpen(port),
                )
                &&& e == (WaitReady { reported: now, ..a })
            } else {
                &&& told == asks(seq![pause], RequestView::PortOpen(port))
                &&& e == a
            }
        }),
{
}

/// The plain wait looks at its port as long as there is time, with a short pause after each
/// look in vain.
pub proof fn law_wait_for_a_port(port: u16, timeout: u64, now: u64)
    ensures
        ({
            let a = WaitPort { port, timeout, stage: PortStage::Clock };
            let (b, told) = port_step(a, ReplyView::Nanos(now));
            let (_, open) = port_step(b, ReplyView::Flag(true));
            let (c, closed) = port_step(b, ReplyView::Flag(false));
            if now < timeout {
                &&& told == asks(Seq::empty(), RequestView::PortOpen(port))
                &&& open == ends(Seq::empty(), Seq::empty())
                &&& closed == asks(seq![EffectView::Sleep(300)], RequestView::Elapsed)
                &&& c == a
            } else {
                told == fails(Seq::empty(), Seq::empty())
            }
        }),
{
}

// ---- scripts ----

/// A script is written to its file and run from there. What it has printed, or why it
/// failed, is handed on as it is, and the file is removed either way.
pub proof fn law_script_is_run_and_removed(
    script: Seq<char>,
    path: Seq<char>,
    e: Seq<char>,
    out: Seq<char>,
)
    ensures
        ({
            let (a, start) = run_ps_start(script, path);
            let (b, run) = run_ps_step(a, ReplyView::Done(Ok(())));
            let (_, unwritten) = run_ps_step(a, ReplyView::Done(Err(e)));
            let (_, well) = run_ps_step(b, ReplyView::Captured(Ok(out)));
            let (_, badly) = run_ps_step(b, ReplyView::Captured(Err(e)));
            let gone = seq![EffectView::RemoveFile(path)];
            &&& start == asks(Seq::empty(), RequestView::WriteFile { path, text: script })
            &&& run == asks(Seq::empty(), RequestView::Capture(powershell_file(path)))
            &&& unwritten == fails(Seq::empty(), "写入临时脚本失败:"@ + e)
            &&& well == ends(gone, out)
            &&& badly == fails(gone, e)
        }),
{
}

// ---- WebView2 ----

/// The question for the version that a hive of the registry gives of the WebView2 runtime.
pub open spec fn hive_query(hive: Seq<char>) -> RequestView {
    RequestView::Capture(
        CommandView {
            program: "reg"@,
            args: seq![
                "query"@,
                hive + "\\{F3017226-FE2A-4295-8BDF-00C3A9A7E4C5}"@,
                "/v"@,
                "pv"@,
            ],
        },
    )
}

/// The places that the WebView2 runtime is looked for in, in their order.
pub open spec fn places(local: Option<Seq<char>>) -> Seq<RequestView> {
    let always = seq![
        hive_query("HKLM\\SOFTWARE\\WOW6432Node\\Microsoft\\EdgeUpdate\\Clients"@),
        hive_query("HKLM\\SOFTWARE\\Microsoft\\EdgeUpdate\\Clients"@),
        hive_query("HKCU\\SOFTWARE\\Microsoft\\EdgeUpdate\\Clients"@),
        RequestView::HasEntries(
            seq!["C:\\Program Files (x86)\\Microsoft\\EdgeWebView\\Application"@],
        ),
        RequestView::HasEntries(seq!["C:\\Program Files\\Microsoft\\EdgeWebView\\Application"@]),
    ];
    if local is Some {
        always.push(
            RequestView::HasEntries(
                seq![local->0, "Microsoft"@, "EdgeWebView"@, "Application"@],
            ),
        )
    } else {
        always
    }
}

proof fn lemma_hive(hive: Seq<char>)
    ensures
        hive_query(hive) == RequestView::Capture(
            program("reg"@).with("query"@).with(
                hive + "\\{F3017226-FE2A-4295-8BDF-00C3A9A7E4C5}"@,
            ).with("/v"@).with("pv"@),
        ),
{
    assert(program("reg"@).with("query"@).with(
        hive + "\\{F3017226-FE2A-4295-8BDF-00C3A9A7E4C5}"@,
    ).with("/v"@).with("pv"@).args =~= seq![
        "query"@,
        hive + "\\{F3017226-FE2A-4295-8BDF-00C3A9A7E4C5}"@,
        "/v"@,
        "pv"@,
    ]);
}

/// The search for the WebView2 runtime looks at its places one after the other, ends well at
/// the first one that tells of it, and fails only when none does.
pub proof fn law_webview2_is_looked_for_everywhere(local: Option<Seq<char>>, i: int, out: Seq<char>)
    requires
        0 <= i < places(local).len(),
    ensures
        ({
            let all = places(local);
            let f = FindView { local, index: i as usize };
            let yes = if all[i] is Capture {
                ReplyView::Captured(Ok(out))
            } else {
                ReplyView::Flag(true)
            };
            let no = if all[i] is Capture {
                ReplyView::Captured(Err(out))
            } else {
                ReplyView::Flag(false)
            };
            let (_, found) = find_step(f, yes);
            let (g, missed) = find_step(f, no);
            &&& find_start(local).0 == (FindView { local, index: 0 })
            &&& find_start(local).1 == asks(Seq::empty(), all[0])
            &&& found == ends(Seq::empty(), Seq::empty())
            &&& i + 1 < all.len() ==> missed == asks(Seq::empty(), all[i + 1]) && g == (FindView {
                local,
                index: (i + 1) as usize,
            })
            &&& i + 1 == all.len() ==> missed == fails(Seq::empty(), Seq::empty())
        }),
{
    lemma_hive("HKLM\\SOFTWARE\\WOW6432Node\\Microsoft\\EdgeUpdate\\Clients"@);
    lemma_hive("HKLM\\SOFTWARE\\Microsoft\\EdgeUpdate\\Clients"@);
    lemma_hive("HKCU\\SOFTWARE\\Microsoft\\EdgeUpdate\\Clients"@);
    assert(webview2_probes(local) =~= places(local));
}

/// The WebView2 runtime is installed by its official installer, which is downloaded and run
/// in the open; it has done its work where it says so and the runtime is found then.
pub proof fn law_webview2_is_installed(path: Seq<char>, exit: Exit, e: Seq<char>)
    ensures
        ({
            let (a, start) = webview2_start();
            let (b, run) = webview2_step(a, ReplyView::Captured(Ok(path)));
            let (_, lost) = webview2_step(a, ReplyView::Captured(Err(e)));
            let (c, ran) = webview2_step(b, ReplyView::Exited(Ok(exit)));
            let (_, refused) = webview2_step(b, ReplyView::Exited(Err(e)));
            let (_, found) = webview2_step(c, ReplyView::Flag(true));
            let (_, missing) = webview2_step(c, ReplyView::Flag(false));
            &&& start == asks(
                Seq::empty(),
                RequestView::Download {
                    url: "https://go.microsoft.com/fwlink/p/?LinkId=2124703"@,
                    file: "MicrosoftEdgeWebview2Setup.exe"@,
                    log_name: None,
                    kind: KindView::Silent,
                },
            )
            &&& run == asks(
                Seq::empty(),
                RequestView::Status(CommandView { program: path, args: seq!["/install"@] }),
            )
            &&& lost == fails(Seq::empty(), e)
            &&& refused == fails(Seq::empty(), "启动 WebView2 安装程序失败:"@ + e)
            &&& if exit.success {
                &&& ran == asks(Seq::empty(), RequestView::Webview2Installed)
                &&& found == ends(Seq::empty(), Seq::empty())
                &&& missing == fails(
                    Seq::empty(),
                    "安装完成后仍未检测到 WebView2 运行时"@,
                )
            } else {
                ran == fails(Seq::empty(), "WebView2 安装程序退出码:"@ + code_words(exit))
            }
        }),
{
    assert(program(path).with("/install"@).args =~= seq!["/install"@]);
}

/// Where the WebView2 runtime is there, the pages are next. Where it is missing, the user is
/// told and it is installed; where that fails, the user is told why, and the application
/// ends.
pub proof fn law_preparation(e: Seq<char>)
    ensures
        ({
            let p = Prepare { stage: PrepareStage::Check };
            let (_, there) = prepare_step(p, ReplyView::Flag(true));
            let (q, missing) = prepare_step(p, ReplyView::Flag(false));
            let (_, done) = prepare_step(q, ReplyView::Done(Ok(())));
            let (_, failed) = prepare_step(q, ReplyView::Done(Err(e)));
            let go = ends(seq![EffectView::RefreshPath], Seq::empty());
            &&& there == go
            &&& missing.next == NextView::Ask(RequestView::InstallWebview2)
            &&& missing.effects.len() == 1
            &&& missing.effects[0] matches EffectView::Message { is_error, .. } && !is_error
            &&& done == go
            &&& failed.next == NextView::Failed(e)
            &&& failed.effects.len() == 2
            &&& failed.effects[0] matches EffectView::Message { title, is_error, text } && is_error
                && title == "WebView2 安装失败"@ && text == "自动安装 WebView2 运行时失败:"@ + e
                + "\n\n请手动下载并安装后重新运行本应用:\nhttps://developer.microsoft.com/microsoft-edge/webview2/"@
            &&& failed.effects[1] == EffectView::Exit(1)
        }),
{
}

} // verus!
