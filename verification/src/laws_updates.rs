//! What the updates and the downloads for them ask for, reply by reply, and how they end.

use crate::command::{npm_install, npm_list, npm_view};
use crate::download::{download_start, download_step, DownloadStage, DownloadView};
use crate::dsh::update_dsh_start;
use crate::laws_runs::{asks, ends, fails, on_show};
use crate::npm::listed_version;
use crate::protocol::{
    AmendmentView, Child, EffectView, ExeView, KindView, NextView, ReleaseErrorView, ReleaseView,
    ReplyView, RequestView,
};
use crate::release::{dsh_outdated, newer, plain_version};
use crate::scripts::{download_text, head_script, swap_text};
use crate::state::Progress;
use crate::text::{trim, unsigned};
use crate::update::{auto_start, auto_step, update_app_start, update_app_step, AutoStage, AutoView};
use vstd::prelude::*;

verus! {

// ---- after startup ----

/// Where the tag of the newest release stands for a newer version than the one that runs,
/// the application is updated, whatever the notes and the address of the release are. Else,
/// and where the release cannot be looked up, nothing is said. Either way dsh is next.
#[verifier::spinoff_prover]
#[verifier::rlimit(60)]
pub proof fn law_newer_release_is_taken(
    current: Seq<char>,
    port: u16,
    url: Seq<char>,
    release: ReleaseView,
    problem: ReleaseErrorView,
    e: Seq<char>,
)
    ensures
        ({
            let (a, start) = auto_start(current, port, url);
            let (b, told) = auto_step(a, ReplyView::Release(Ok(release)));
            let (_, offline) = auto_step(a, ReplyView::Release(Err(problem)));
            let (_, done) = auto_step(b, ReplyView::Done(Ok(())));
            let (_, failed) = auto_step(b, ReplyView::Done(Err(e)));
            let dsh = asks(Seq::empty(), RequestView::DshVersion);
            &&& start == asks(Seq::empty(), RequestView::FetchRelease)
            &&& offline == dsh
            &&& if newer(plain_version(release.tag_name), current) {
                &&& told == asks(
                    seq![EffectView::Toast("发现新版本，正在后台更新应用…"@)],
                    RequestView::UpdateApp,
                )
                &&& done == dsh
                &&& failed == asks(
                    seq![
                        on_show(
                            "error"@,
                            "自动更新应用失败"@ + ":"@ + e,
                            None,
                            Some(e),
                            None,
                        ),
                        EffectView::Toast("自动更新应用失败:"@ + e),
                    ],
                    RequestView::DshVersion,
                )
            } else {
                told == dsh
            }
        }),
{
}

/// dsh is updated where it is due by the version that is installed and the one that is
/// published, on the port and the address that the look for updates was started with.
#[verifier::spinoff_prover]
#[verifier::rlimit(60)]
pub proof fn law_due_update_of_dsh_begins(
    a: AutoView,
    installed: Option<Seq<char>>,
    published: Result<Seq<char>, Seq<char>>,
)
    requires
        a.stage == AutoStage::Installed,
    ensures
        ({
            let (b, ask) = auto_step(a, ReplyView::Maybe(installed));
            let (c, told) = auto_step(b, ReplyView::Captured(published));
            let latest = match published {
                Ok(out) => trim(out),
                Err(_) => Seq::empty(),
            };
            &&& ask == asks(Seq::empty(), RequestView::Capture(npm_view()))
            &&& if dsh_outdated(installed, latest) {
                &&& told == asks(Seq::empty(), RequestView::Capture(npm_list()))
                &&& c.stage == AutoStage::Dsh
                &&& c.update == update_dsh_start(a.update.port, a.update.url).0
            } else {
                told == ends(Seq::empty(), Seq::empty())
            }
        }),
{
}

/// The look for updates keeps the port and the address that it was started with.
#[verifier::spinoff_prover]
#[verifier::rlimit(60)]
pub proof fn law_look_for_updates_keeps_its_port(
    current: Seq<char>,
    port: u16,
    url: Seq<char>,
    a: AutoView,
    reply: ReplyView,
)
    ensures
        auto_start(current, port, url).0.update.port == port,
        auto_start(current, port, url).0.update.url == url,
        auto_start(current, port, url).0.current == current,
        auto_step(a, reply).0.update.port == a.update.port,
        auto_step(a, reply).0.update.url == a.update.url,
        auto_step(a, reply).0.current == a.current,
{
}

/// The view of the update of dsh within the look for updates.
pub open spec fn auto_at(a: AutoView, port: u16, url: Seq<char>) -> AutoView {
    AutoView { update: update_dsh_start(port, url).0, stage: AutoStage::Dsh, ..a }
}

/// An automatic update of dsh does what an update of dsh does, and ends the look for
/// updates. What has happened is put on show and told; a failure is put on show only where
/// the update was on show before it.
#[verifier::spinoff_prover]
#[verifier::rlimit(60)]
pub proof fn law_dsh_is_brought_up_to_date_by_itself(
    any: AutoView,
    port: u16,
    url: Seq<char>,
    listing: Result<Seq<char>, Seq<char>>,
    out: Seq<char>,
    e: Seq<char>,
    installed: Seq<char>,
    open: bool,
)
    ensures
        ({
            let a = auto_at(any, port, url);
            let (b, ask) = auto_step(a, ReplyView::Captured(listing));
            let (c, told) = auto_step(b, ReplyView::Captured(Ok(out)));
            let (_, offline) = auto_step(b, ReplyView::Captured(Err(e)));
            let (d, done) = auto_step(c, ReplyView::Captured(Ok(installed)));
            let (_, refused) = auto_step(c, ReplyView::Captured(Err(e)));
            let (f, started) = auto_step(d, ReplyView::Done(Ok(())));
            let (_, dead) = auto_step(d, ReplyView::Done(Err(e)));
            let (_, over) = auto_step(f, ReplyView::Flag(open));
            let latest = trim(out);
            let current = listed_version(listing);
            let toast = |reason: Seq<char>| EffectView::Toast("自动更新 dsh 失败:"@ + reason);
            let bad = |reason: Seq<char>|
                on_show(
                    "error"@,
                    "自动更新 dsh 失败"@ + ":"@ + reason,
                    None,
                    Some(reason),
                    None,
                );
            let good = |note: Seq<char>| on_show("done"@, note, None, None, None);
            &&& ask == asks(Seq::empty(), RequestView::Capture(npm_view()))
            &&& offline == ends(seq![toast(e)], Seq::empty())
            &&& if latest.len() == 0 {
                told == ends(seq![toast("无法获取最新版本"@)], Seq::empty())
            } else if current == Some(latest) {
                let note = "dsh 已是最新版本(v"@ + latest + ")"@;
                told == ends(seq![good(note), EffectView::Toast(note)], Seq::empty())
            } else {
                let note = if current is Some {
                    "dsh 已更新:v"@ + current->0 + " → v"@ + latest + "，服务已重启"@
                } else {
                    "dsh 已安装 v"@ + latest + "，服务已启动"@
                };
                &&& told == asks(
                    seq![
                        on_show(
                            "installing"@,
                            "正在安装 dsh v"@ + latest + "…"@,
                            None,
                            None,
                            Some(latest),
                        ),
                        EffectView::StopServer(port),
                    ],
                    RequestView::Capture(npm_install()),
                )
                &&& refused == ends(
                    seq![bad("安装失败:"@ + e), toast("安装失败:"@ + e)],
                    Seq::empty(),
                )
                &&& done == asks(
                    seq![
                        on_show(
                            "restarting"@,
                            "正在重启 dsh 服务…"@,
                            None,
                            None,
                            Some(latest),
                        ),
                    ],
                    RequestView::SpawnServer(port),
                )
                &&& dead == ends(
                    seq![
                        bad("更新完成但 dsh 启动失败:"@ + e),
                        toast("更新完成但 dsh 启动失败:"@ + e),
                    ],
                    Seq::empty(),
                )
                &&& started == asks(Seq::empty(), RequestView::WaitPort { port, secs: 60 })
                &&& over == ends(
                    if open {
                        seq![EffectView::Navigate(url), good(note), EffectView::Toast(note)]
                    } else {
                        seq![good(note), EffectView::Toast(note)]
                    },
                    Seq::empty(),
                )
            }
        }),
{
    let a = auto_at(any, port, url);
    let b = auto_step(a, ReplyView::Captured(listing)).0;
    let (c, told) = auto_step(b, ReplyView::Captured(Ok(out)));
    let offline = auto_step(b, ReplyView::Captured(Err(e))).1;
    let toast = |reason: Seq<char>| EffectView::Toast("自动更新 dsh 失败:"@ + reason);
    let bad = |reason: Seq<char>|
        on_show("error"@, "自动更新 dsh 失败"@ + ":"@ + reason, None, Some(reason), None);
    let good = |note: Seq<char>| on_show("done"@, note, None, None, None);
    assert(offline.effects =~= seq![toast(e)]);
    let latest = trim(out);
    let current = listed_version(listing);
    if latest.len() == 0 {
        assert(told.effects =~= seq![toast("无法获取最新版本"@)]);
    } else if current == Some(latest) {
        let note = "dsh 已是最新版本(v"@ + latest + ")"@;
        assert(told.effects =~= seq![good(note), EffectView::Toast(note)]);
    } else {
        let d = auto_step(c, ReplyView::Captured(Ok(installed))).0;
        let refused = auto_step(c, ReplyView::Captured(Err(e))).1;
        assert(refused.effects =~= seq![bad("安装失败:"@ + e), toast("安装失败:"@ + e)]);
        let f = auto_step(d, ReplyView::Done(Ok(()))).0;
        let dead = auto_step(d, ReplyView::Done(Err(e))).1;
        assert(dead.effects =~= seq![
            bad("更新完成但 dsh 启动失败:"@ + e),
            toast("更新完成但 dsh 启动失败:"@ + e),
        ]);
        let over = auto_step(f, ReplyView::Flag(open)).1;
        let note = if current is Some {
            "dsh 已更新:v"@ + current->0 + " → v"@ + latest + "，服务已重启"@
        } else {
            "dsh 已安装 v"@ + latest + "，服务已启动"@
        };
        if open {
            assert(over.effects =~= seq![
                EffectView::Navigate(url),
                good(note),
                EffectView::Toast(note),
            ]);
        } else {
            assert(over.effects =~= seq![good(note), EffectView::Toast(note)]);
        }
    }
}

// ---- the application ----

/// The application is updated from the address that the newest release gives: the executable
/// is downloaded under the name of the one that runs, and a helper that swaps the two is
/// written and started before the application ends.
#[verifier::spinoff_prover]
#[verifier::rlimit(60)]
pub proof fn law_application_is_replaced(
    release: ReleaseView,
    problem: ReleaseErrorView,
    exe: ExeView,
    e: Seq<char>,
    path: Seq<char>,
    log: Seq<char>,
    helper: Seq<char>,
)
    ensures
        ({
            let (a, start) = update_app_start();
            let (_, no_release) = update_app_step(a, ReplyView::Release(Err(problem)));
            let (b, told) = update_app_step(a, ReplyView::Release(Ok(release)));
            let (_, lost) = update_app_step(b, ReplyView::Exe(Err(e)));
            let (c, load) = update_app_step(b, ReplyView::Exe(Ok(exe)));
            let (_, failed) = update_app_step(c, ReplyView::Captured(Err(e)));
            let (d, loaded) = update_app_step(c, ReplyView::Captured(Ok(path)));
            let (f, logged) = update_app_step(d, ReplyView::Text(log));
            let (g, write) = update_app_step(f, ReplyView::Text(helper));
            let (_, unwritten) = update_app_step(g, ReplyView::Done(Err(e)));
            let (_, over) = update_app_step(g, ReplyView::Done(Ok(())));
            let name = if exe.name is Some {
                exe.name->0
            } else {
                "deepseek-harness.exe"@
            };
            &&& start == asks(
                seq![on_show("checking"@, "正在获取版本信息…"@, None, None, None)],
                RequestView::FetchRelease,
            )
            &&& no_release == fails(
                Seq::empty(),
                match problem {
                    ReleaseErrorView::NoRelease => "暂无已发布版本"@,
                    ReleaseErrorView::Failed(reason) => reason,
                },
            )
            &&& if release.asset_url.len() == 0 {
                told == fails(Seq::empty(), "该发布中没有可用的 exe 更新包"@)
            } else {
                &&& told == asks(Seq::empty(), RequestView::CurrentExe)
                &&& lost == fails(Seq::empty(), "无法定位当前程序路径:"@ + e)
                &&& load == asks(
                    Seq::empty(),
                    RequestView::Download {
                        url: release.asset_url,
                        file: name + ".update.exe"@,
                        log_name: Some(name + ".download-error.log"@),
                        kind: KindView::AppUpdate,
                    },
                )
                &&& failed == fails(Seq::empty(), e)
                &&& loaded == asks(
                    seq![
                        on_show(
                            "finalizing"@,
                            "正在替换程序并重启…"@,
                            Some(Progress::Complete),
                            None,
                            None,
                        ),
                    ],
                    RequestView::TempPath(name + ".update-helper.log"@),
                )
                &&& logged == asks(
                    Seq::empty(),
                    RequestView::TempPath(name + ".update-helper.bat"@),
                )
                &&& write == asks(
                    Seq::empty(),
                    RequestView::WriteFile {
                        path: helper,
                        text: swap_text(name, path, exe.path, log),
                    },
                )
                &&& unwritten == fails(Seq::empty(), "写入更新脚本失败:"@ + e)
                &&& over == ends(
                    seq![EffectView::LaunchHelper(helper), EffectView::Exit(0)],
                    Seq::empty(),
                )
            }
        }),
{
}

// ---- downloads ----

/// Whether a download is one of a new version of this application.
pub open spec fn is_app(kind: KindView) -> bool {
    kind == KindView::AppUpdate
}

/// The total that a share can be taken of.
pub open spec fn known_total(total: Option<u64>) -> bool {
    total is Some && total->0 > 0
}

/// A download begins with the question for the length of what the address gives, makes room
/// for the file, and starts a script that loads the address into the file.
pub proof fn law_download_begins(
    kind: KindView,
    url: Seq<char>,
    dest: Seq<char>,
    log: Seq<char>,
    script: Seq<char>,
    out: Result<Seq<char>, Seq<char>>,
    e: Seq<char>,
)
    ensures
        ({
            let (a, start) = download_start(kind, url, dest, log, script);
            let (b, write) = download_step(a, ReplyView::Captured(out));
            let (_, unwritten) = download_step(b, ReplyView::Done(Err(e)));
            let (c, spawn) = download_step(b, ReplyView::Done(Ok(())));
            let (_, refused) = download_step(c, ReplyView::Done(Err(e)));
            let (d, started) = download_step(c, ReplyView::Done(Ok(())));
            let length = match out {
                Ok(text) => unsigned(trim(text), 0xffff_ffff_ffff_ffff),
                Err(_) => None,
            };
            &&& start == asks(
                if kind == KindView::AppUpdate || kind == KindView::Silent {
                    seq![EffectView::RemoveFile(dest)]
                } else {
                    Seq::empty()
                },
                RequestView::PowerShell(head_script(url)),
            )
            &&& write == asks(
                if is_app(kind) {
                    Seq::empty()
                } else {
                    seq![EffectView::RemoveFile(dest)]
                },
                RequestView::WriteFile { path: script, text: download_text(url, dest, log) },
            )
            &&& b.total is Some <==> length is Some
            &&& b.total is Some ==> b.total->0 as nat == length->0
            &&& unwritten == fails(Seq::empty(), "写入下载脚本失败:"@ + e)
            &&& spawn == asks(Seq::empty(), RequestView::SpawnScript { script, log })
            &&& refused == fails(Seq::empty(), "启动下载失败:"@ + e)
            &&& started == asks(
                if is_app(kind) {
                    seq![
                        on_show(
                            "downloading"@,
                            "正在下载更新包…"@,
                            if known_total(b.total) {
                                Some(Progress::Start)
                            } else {
                                None
                            },
                            None,
                            None,
                        ),
                    ]
                } else {
                    Seq::empty()
                },
                RequestView::PollChild,
            )
            &&& d == (DownloadView {
                kind,
                url,
                dest,
                log,
                script,
                total: b.total,
                last: None,
                idle: 0,
                stage: DownloadStage::Poll,
            })
        }),
{
    let (a, _) = download_start(kind, url, dest, log, script);
    let b = download_step(a, ReplyView::Captured(out)).0;
    match out {
        Ok(text) => {
            if unsigned(trim(text), 0xffff_ffff_ffff_ffff) is Some {
                assert(unsigned(trim(text), 0xffff_ffff_ffff_ffff)->0 <= 0xffff_ffff_ffff_ffff);
            }
        },
        Err(_) => {},
    }
}

/// What is shown of a download of Node.js.
pub open spec fn node_progress(message: Seq<char>, progress: Option<Progress>) -> EffectView {
    EffectView::Amend(
        AmendmentView { phase: Some("installing"@), message, progress: Some(progress) },
    )
}

/// While its script runs, a download is measured again and again. A share is shown when it
/// has moved; where none can be taken, the download of Node.js gives a sign of life every
/// second. Nothing is shown of a silent download.
pub proof fn law_download_is_measured(
    d: DownloadView,
    len: u64,
    nanos: u64,
    moved: bool,
    percent: Seq<char>,
)
    requires
        d.stage == DownloadStage::Poll,
    ensures
        ({
            let (a, ask) = download_step(d, ReplyView::Child(Child::Running));
            let (b, shown) = download_step(a, ReplyView::Measured { len, nanos, moved, percent });
            let progress = if known_total(d.total) {
                Some(Progress::Bytes { done: len, total: d.total->0 })
            } else {
                None
            };
            let due = if known_total(d.total) {
                moved
            } else {
                nanos - d.idle >= 1_000_000_000
            };
            &&& ask == asks(
                Seq::empty(),
                RequestView::Measure { file: d.dest, total: d.total, last: d.last },
            )
            &&& shown.next == NextView::Ask(RequestView::PollChild)
            &&& shown.effects.last() == EffectView::Sleep(200)
            &&& !due || d.kind == KindView::Silent ==> shown.effects.len() == 1
            &&& due ==> match d.kind {
                KindView::Silent => true,
                KindView::NodeInstaller(v) => {
                    &&& shown.effects.len() == 2
                    &&& known_total(d.total) ==> shown.effects[0] == node_progress(
                        "正在下载 Node.js "@ + v + "… "@ + percent + "%"@,
                        progress,
                    )
                    &&& !known_total(d.total) ==> shown.effects[0] == node_progress(
                        "正在下载 Node.js "@ + v + "…"@,
                        None,
                    )
                },
                KindView::NodeArchive(v) => {
                    &&& shown.effects.len() == 2
                    &&& known_total(d.total) ==> shown.effects[0] == node_progress(
                        "正在下载 Node.js "@ + v + " 便携版… "@ + percent + "%"@,
                        progress,
                    )
                    &&& !known_total(d.total) ==> shown.effects[0] == node_progress(
                        "正在下载 Node.js "@ + v + " 便携版…"@,
                        None,
                    )
                },
                KindView::AppUpdate => if known_total(d.total) {
                    &&& shown.effects.len() == 2
                    &&& shown.effects[0] == on_show(
                        "downloading"@,
                        "正在下载更新包… "@ + percent + "%"@,
                        progress,
                        None,
                        None,
                    )
                } else {
                    shown.effects.len() == 1
                },
            }
            &&& b == (DownloadView {
                last: if due && known_total(d.total) {
                    Some(len)
                } else {
                    d.last
                },
                idle: if due && !known_total(d.total) && !is_app(d.kind) {
                    nanos
                } else {
                    d.idle
                },
                ..d
            })
        }),
{
}

/// A script that has succeeded is followed by a look at the file, which must not be empty;
/// one that has failed by a look at the reason that it has left. The script is removed
/// either way, and also where it can no longer be watched.
pub proof fn law_download_ends(d: DownloadView, text: Seq<char>, n: u64)
    requires
        d.stage == DownloadStage::Poll,
    ensures
        ({
            let (a, well) = download_step(d, ReplyView::Child(Child::Exited { success: true }));
            let (_, over) = download_step(a, ReplyView::Number(n));
            let (b, badly) = download_step(d, ReplyView::Child(Child::Exited { success: false }));
            let (_, told) = download_step(b, ReplyView::Text(text));
            let (_, lost) = download_step(d, ReplyView::Child(Child::Unreadable));
            let gone = seq![EffectView::RemoveFile(d.script)];
            &&& well == asks(gone, RequestView::FileLength(d.dest))
            &&& n > 0 ==> over == ends(Seq::empty(), d.dest)
            &&& n == 0 ==> over == fails(
                Seq::empty(),
                if is_app(d.kind) {
                    "下载结果为空，更新失败"@
                } else {
                    "下载结果为空"@
                },
            )
            &&& badly == asks(gone, RequestView::ReadFile(d.log))
            &&& told == fails(
                seq![EffectView::RemoveFile(d.log)],
                if trim(text).len() > 0 {
                    trim(text)
                } else if is_app(d.kind) {
                    "下载更新包失败"@
                } else {
                    "下载失败"@
                },
            )
            &&& lost == fails(gone, "无法读取下载进程状态"@)
        }),
{
}

} // verus!
