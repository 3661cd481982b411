//! What the runs ask for, reply by reply, and how they end.

use crate::command::{
    msi_install, npm_install, npm_install_prefix, npm_list, npm_view, unpack, winget_install,
};
use crate::download::{download_start, download_step, DownloadView};
use crate::dsh::{
    install_dsh_start, install_dsh_step, restart_start, restart_step, update_dsh_start,
    update_dsh_step, InstallDshView, RestartView, UpdateDshView,
};
use crate::environment::{
    find_start, find_step, prepare_step, webview2_start, webview2_step, FindView, InstallWebview2,
    Prepare,
};
use crate::node::{
    msi_start, msi_step, node_step, zip_start, zip_step, InstallNodeMsi, NodeStage, NodeView,
    ZipView,
};
use crate::npm::{listed_version, look_up_start, look_up_step, LookUpView};
use crate::protocol::{
    ignored, EffectView, Exit, KindView, NextView, ReplyView, RequestView, TurnView,
};
use crate::scripts::{add_path_script, run_ps_start, run_ps_step, RunPsView, NODE_QUERY};
use crate::setup::{setup_start, setup_step, RunView};
use crate::state::{Progress, UpdateView};
use crate::text::{signed_decimal, trim};
use crate::update::{
    auto_start, auto_step, update_app_start, update_app_step, AutoStage, AutoView, UpdateAppView,
};
use crate::wait::{port_step, ready_start, ready_step, WaitPort, WaitReady};
use vstd::prelude::*;

verus! {

// ---- questions and answers ----

/// Whether a reply is of the kind that a request is answered with.
pub open spec fn answers(request: RequestView, reply: ReplyView) -> bool {
    match request {
        RequestView::PortOpen(_) => reply is Flag,
        RequestView::WaitReady { .. } => reply is Flag,
        RequestView::WaitPort { .. } => reply is Flag,
        RequestView::HasEntries(_) => reply is Flag,
        RequestView::NodeAvailable => reply is Flag,
        RequestView::Webview2Installed => reply is Flag,
        RequestView::ChildExit => reply is Ended,
        RequestView::Elapsed => reply is Nanos,
        RequestView::LogTail { .. } => reply is Text,
        RequestView::TempPath(_) => reply is Text,
        RequestView::ReadFile(_) => reply is Text,
        RequestView::NodeVersion => reply is Text,
        RequestView::Capture(_) => reply is Captured,
        RequestView::PowerShell(_) => reply is Captured,
        RequestView::Download { .. } => reply is Captured,
        RequestView::InstallNode => reply is Captured,
        RequestView::InstallNodeMsi { .. } => reply is Captured,
        RequestView::InstallNodeZip { .. } => reply is Captured,
        RequestView::InstallDsh => reply is Captured,
        RequestView::Status(_) => reply is Exited,
        RequestView::SpawnServer(_) => reply is Done,
        RequestView::WriteFile { .. } => reply is Done,
        RequestView::CreateDir(_) => reply is Done,
        RequestView::SpawnScript { .. } => reply is Done,
        RequestView::UpdateApp => reply is Done,
        RequestView::InstallWebview2 => reply is Done,
        RequestView::FileLength(_) => reply is Number,
        RequestView::PollChild => reply is Child,
        RequestView::Measure { .. } => reply is Measured,
        RequestView::DshVersion => reply is Maybe,
        RequestView::FetchRelease => reply is Release,
        RequestView::CurrentExe => reply is Exe,
    }
}

/// Whether `second`, which follows the turn `first`, is what the two turns of a run owe each
/// other: a question is followed by something exactly where the reply answers it, and
/// nothing follows an end.
pub open spec fn follows(first: TurnView, reply: ReplyView, second: TurnView) -> bool {
    match first.next {
        NextView::Ask(q) => second.next is Ignored <==> !answers(q, reply),
        NextView::Ignored => true,
        _ => second == ignored(),
    }
}

/// The startup run and the installations take the replies that answer what they have asked,
/// and no others; and nothing once they have ended.
#[verifier::spinoff_prover]
#[verifier::rlimit(60)]
pub proof fn law_installations_take_answers(
    s: RunView,
    n: NodeView,
    m: InstallNodeMsi,
    z: ZipView,
    d: InstallDshView,
    w: InstallWebview2,
    p: Prepare,
    reply: ReplyView,
    next: ReplyView,
)
    ensures
        ({
            let (b, t) = setup_step(s, reply);
            follows(t, next, setup_step(b, next).1)
        }),
        ({
            let (b, t) = node_step(n, reply);
            follows(t, next, node_step(b, next).1)
        }),
        ({
            let (b, t) = msi_step(m, reply);
            follows(t, next, msi_step(b, next).1)
        }),
        ({
            let (b, t) = zip_step(z, reply);
            follows(t, next, zip_step(b, next).1)
        }),
        ({
            let (b, t) = install_dsh_step(d, reply);
            follows(t, next, install_dsh_step(b, next).1)
        }),
        ({
            let (b, t) = webview2_step(w, reply);
            follows(t, next, webview2_step(b, next).1)
        }),
        ({
            let (b, t) = prepare_step(p, reply);
            follows(t, next, prepare_step(b, next).1)
        }),
{
}

proof fn lemma_update_of_dsh_takes_answers(d: UpdateDshView, reply: ReplyView, next: ReplyView)
    ensures
        ({
            let (b, t) = update_dsh_step(d, reply);
            follows(t, next, update_dsh_step(b, next).1)
        }),
{
}

/// The updates and the restart take the replies that answer what they have asked, and no
/// others; and nothing once they have ended.
#[verifier::spinoff_prover]
#[verifier::rlimit(60)]
pub proof fn law_updates_take_answers(
    d: UpdateDshView,
    r: RestartView,
    u: UpdateAppView,
    reply: ReplyView,
    next: ReplyView,
)
    ensures
        ({
            let (b, t) = update_dsh_step(d, reply);
            follows(t, next, update_dsh_step(b, next).1)
        }),
        ({
            let (b, t) = restart_step(r, reply);
            follows(t, next, restart_step(b, next).1)
        }),
        ({
            let (b, t) = update_app_step(u, reply);
            follows(t, next, update_app_step(b, next).1)
        }),
{
}

#[verifier::spinoff_prover]
#[verifier::rlimit(60)]
proof fn lemma_auto_before_dsh(a: AutoView, reply: ReplyView, next: ReplyView)
    requires
        a.stage == AutoStage::Release || a.stage == AutoStage::App || a.stage
            == AutoStage::Installed,
    ensures
        ({
            let (b, t) = auto_step(a, reply);
            follows(t, next, auto_step(b, next).1)
        }),
{
}

#[verifier::spinoff_prover]
#[verifier::rlimit(60)]
proof fn lemma_auto_published(a: AutoView, reply: ReplyView, next: ReplyView)
    requires
        a.stage == AutoStage::Published,
    ensures
        ({
            let (b, t) = auto_step(a, reply);
            follows(t, next, auto_step(b, next).1)
        }),
{
    let (b, t) = auto_step(a, reply);
    if b.stage == AutoStage::Dsh {
        let (d, first) = update_dsh_start(a.update.port, a.update.url);
        assert(b.update == d && t == first);
        assert(update_dsh_step(d, next).1.next is Ignored <==> !(next is Captured));
    }
}

#[verifier::spinoff_prover]
#[verifier::rlimit(60)]
proof fn lemma_auto_turn(a: AutoView, reply: ReplyView)
    requires
        a.stage == AutoStage::Dsh,
    ensures
        ({
            let (d, inner) = update_dsh_step(a.update, reply);
            let (b, t) = auto_step(a, reply);
            &&& inner.next is Ask ==> b == (AutoView { update: d, ..a }) && t == inner
            &&& inner.next is Ignored ==> b == (AutoView { update: d, ..a }) && t == inner
            &&& inner.next is Finished || inner.next is Failed ==> b.stage == AutoStage::Over
                && t.next is Finished
        }),
{
}

/// The look for updates takes the replies that answer what it has asked, and no others; and
/// nothing once it has ended.
#[verifier::spinoff_prover]
#[verifier::rlimit(60)]
pub proof fn law_look_for_updates_takes_answers(a: AutoView, reply: ReplyView, next: ReplyView)
    ensures
        ({
            let (b, t) = auto_step(a, reply);
            follows(t, next, auto_step(b, next).1)
        }),
{
    if a.stage == AutoStage::Dsh {
        lemma_auto_turn(a, reply);
        let (d, inner) = update_dsh_step(a.update, reply);
        let b = auto_step(a, reply).0;
        if inner.next is Ask {
            lemma_auto_turn(b, next);
            lemma_update_of_dsh_takes_answers(a.update, reply, next);
        } else if !(inner.next is Ignored) {
            assert(auto_step(b, next).1 == ignored());
        }
    } else if a.stage == AutoStage::Published {
        lemma_auto_published(a, reply, next);
    } else if a.stage == AutoStage::Over {
        assert(auto_step(a, reply) == (a, ignored()));
    } else {
        lemma_auto_before_dsh(a, reply, next);
    }
}

/// The waits, the downloads and the lookups take the replies that answer what they have
/// asked, and no others; and nothing once they have ended.
#[verifier::spinoff_prover]
#[verifier::rlimit(60)]
pub proof fn law_lookups_take_answers(
    w: WaitReady,
    p: WaitPort,
    d: DownloadView,
    s: RunPsView,
    l: LookUpView,
    f: FindView,
    reply: ReplyView,
    next: ReplyView,
)
    ensures
        ({
            let (b, t) = ready_step(w, reply);
            follows(t, next, ready_step(b, next).1)
        }),
        ({
            let (b, t) = port_step(p, reply);
            follows(t, next, port_step(b, next).1)
        }),
        ({
            let (b, t) = download_step(d, reply);
            follows(t, next, download_step(b, next).1)
        }),
        ({
            let (b, t) = run_ps_step(s, reply);
            follows(t, next, run_ps_step(b, next).1)
        }),
        ({
            let (b, t) = look_up_step(l, reply);
            follows(t, next, look_up_step(b, next).1)
        }),
        ({
            let (b, t) = find_step(f, reply);
            follows(t, next, find_step(b, next).1)
        }),
{
}

/// Every run that begins with a question takes the replies that answer it, and no others.
#[verifier::spinoff_prover]
#[verifier::rlimit(60)]
pub proof fn law_first_questions_are_answered(
    port: u16,
    secs: u32,
    a: Seq<char>,
    b: Seq<char>,
    c: Seq<char>,
    local: Option<Seq<char>>,
    kind: KindView,
    reply: ReplyView,
)
    ensures
        ({
            let (r, t) = setup_start(port, a);
            follows(t, reply, setup_step(r, reply).1)
        }),
        ({
            let (r, t) = msi_start(a, b);
            follows(t, reply, msi_step(r, reply).1)
        }),
        ({
            let (r, t) = zip_start(a, b, c);
            follows(t, reply, zip_step(r, reply).1)
        }),
        ({
            let (r, t) = install_dsh_start(a);
            follows(t, reply, install_dsh_step(r, reply).1)
        }),
        ({
            let (r, t) = update_dsh_start(port, a);
            follows(t, reply, update_dsh_step(r, reply).1)
        }),
        ({
            let (r, t) = restart_start(port, a);
            follows(t, reply, restart_step(r, reply).1)
        }),
        ({
            let (r, t) = update_app_start();
            follows(t, reply, update_app_step(r, reply).1)
        }),
        ({
            let (r, t) = auto_start(a, port, b);
            follows(t, reply, auto_step(r, reply).1)
        }),
        ({
            let (r, t) = ready_start(port, secs);
            follows(t, reply, ready_step(r, reply).1)
        }),
        ({
            let (r, t) = download_start(kind, a, b, c, a);
            follows(t, reply, download_step(r, reply).1)
        }),
        ({
            let (r, t) = run_ps_start(a, b);
            follows(t, reply, run_ps_step(r, reply).1)
        }),
        ({
            let (r, t) = look_up_start(a);
            follows(t, reply, look_up_step(r, reply).1)
        }),
        ({
            let (r, t) = find_start(local);
            follows(t, reply, find_step(r, reply).1)
        }),
        ({
            let (r, t) = webview2_start();
            follows(t, reply, webview2_step(r, reply).1)
        }),
{
}

// ---- shapes ----

/// A turn that asks after some effects.
pub open spec fn asks(list: Seq<EffectView>, request: RequestView) -> TurnView {
    TurnView { effects: list, next: NextView::Ask(request) }
}

/// A turn that ends a run well after some effects.
pub open spec fn ends(list: Seq<EffectView>, text: Seq<char>) -> TurnView {
    TurnView { effects: list, next: NextView::Finished(text) }
}

/// A turn that ends a run in failure after some effects.
pub open spec fn fails(list: Seq<EffectView>, reason: Seq<char>) -> TurnView {
    TurnView { effects: list, next: NextView::Failed(reason) }
}

/// The state of an update, put on show.
pub open spec fn on_show(
    phase: Seq<char>,
    message: Seq<char>,
    progress: Option<Progress>,
    error: Option<Seq<char>>,
    latest: Option<Seq<char>>,
) -> EffectView {
    EffectView::PublishUpdate(
        UpdateView {
            phase,
            progress,
            message,
            error,
            latest,
            update_available: false,
            release_notes: Seq::empty(),
        },
    )
}

/// An exit code in words.
pub open spec fn code_words(exit: Exit) -> Seq<char> {
    signed_decimal(
        if exit.code is Some {
            exit.code->0 as int
        } else {
            -1
        },
    )
}

// ---- Node.js ----

/// winget is looked for first, and used where it is there. What it has installed is the end
/// of it if Node.js can be used then; else the newest version is looked up, as it is where
/// there is no winget.
pub proof fn law_winget_comes_first(
    version: Seq<char>,
    found: Seq<char>,
    exit: Exit,
    e: Seq<char>,
    v: Seq<char>,
)
    ensures
        ({
            let start = NodeView { version, stage: NodeStage::FindWinget };
            let (a, run) = node_step(start, ReplyView::Captured(Ok(found)));
            let (_, none) = node_step(start, ReplyView::Captured(Err(found)));
            let (b, ran) = node_step(a, ReplyView::Exited(Ok(exit)));
            let (_, refused) = node_step(a, ReplyView::Exited(Err(e)));
            let (c, usable) = node_step(b, ReplyView::Flag(true));
            let (_, unusable) = node_step(b, ReplyView::Flag(false));
            let (_, over) = node_step(c, ReplyView::Text(v));
            let look = |list: Seq<EffectView>| asks(list, RequestView::PowerShell(NODE_QUERY@));
            let note = seq![EffectView::Log("    winget 未成功，改用官方安装包…"@)];
            &&& run == asks(
                seq![EffectView::Log("    正在通过 winget 安装 Node.js LTS…"@)],
                RequestView::Status(winget_install()),
            )
            &&& none == look(Seq::empty())
            &&& refused == look(note)
            &&& !exit.success ==> ran == look(note)
            &&& exit.success ==> {
                &&& ran == asks(seq![EffectView::RefreshPath], RequestView::NodeAvailable)
                &&& usable == asks(Seq::empty(), RequestView::NodeVersion)
                &&& unusable == look(note)
                &&& over == ends(Seq::empty(), v)
            }
        }),
{
}

/// The newest version is installed from the installer, and where that fails from the
/// portable archive, out of the same place and in the same version. The installation ends as
/// the way that was tried last has ended, and it fails before any way is tried only where no
/// version was found.
pub proof fn law_node_ends_as_the_last_way(
    old: Seq<char>,
    out: Seq<char>,
    e: Seq<char>,
    v: Seq<char>,
    f: Seq<char>,
)
    ensures
        ({
            let start = NodeView { version: old, stage: NodeStage::Latest };
            let (a, first) = node_step(start, ReplyView::Captured(Ok(out)));
            let (_, offline) = node_step(start, ReplyView::Captured(Err(e)));
            let (_, installed) = node_step(a, ReplyView::Captured(Ok(v)));
            let (b, second) = node_step(a, ReplyView::Captured(Err(e)));
            let (_, unpacked) = node_step(b, ReplyView::Captured(Ok(v)));
            let (_, failed) = node_step(b, ReplyView::Captured(Err(f)));
            let version = trim(out);
            let base_url = "https://nodejs.org/dist/"@ + version;
            &&& offline == fails(Seq::empty(), e)
            &&& version.len() == 0 ==> first == fails(
                Seq::empty(),
                "无法获取 Node.js 最新版本(请检查网络)"@,
            )
            &&& version.len() > 0 ==> {
                &&& first == asks(Seq::empty(), RequestView::InstallNodeMsi { version, base_url })
                &&& installed == ends(Seq::empty(), v)
                &&& second == asks(
                    seq![
                        EffectView::Log(
                            "    官方安装包失败("@ + e + ")，改用便携版(免管理员)…"@,
                        ),
                    ],
                    RequestView::InstallNodeZip { version, base_url },
                )
                &&& unpacked == ends(Seq::empty(), v)
                &&& failed == fails(Seq::empty(), f)
            }
        }),
{
}

/// The installation of Node.js fails only where the lookup of its version or the last way
/// has failed, and what it fails with is the reason that was given.
pub proof fn law_node_fails_for_a_reason(n: NodeView, reply: ReplyView)
    requires
        node_step(n, reply).1.next is Failed,
    ensures
        n.stage == NodeStage::Latest || n.stage == NodeStage::Archive,
        reply is Captured,
        reply->Captured_0 matches Err(e) ==> node_step(n, reply).1.next == NextView::Failed(e),
        reply->Captured_0 matches Ok(out) ==> n.stage == NodeStage::Latest && trim(out).len() == 0,
{
}

/// From the installer: it is downloaded under its name from the place of the version, run
/// silently, and has done its work where it says so or asks for a restart and Node.js can be
/// used then.
pub proof fn law_node_from_the_installer(
    version: Seq<char>,
    base: Seq<char>,
    path: Seq<char>,
    exit: Exit,
    e: Seq<char>,
    v: Seq<char>,
)
    ensures
        ({
            let (a, start) = msi_start(version, base);
            let (b, run) = msi_step(a, ReplyView::Captured(Ok(path)));
            let (_, lost) = msi_step(a, ReplyView::Captured(Err(e)));
            let (c, ran) = msi_step(b, ReplyView::Exited(Ok(exit)));
            let (_, refused) = msi_step(b, ReplyView::Exited(Err(e)));
            let (d, usable) = msi_step(c, ReplyView::Flag(true));
            let (_, unusable) = msi_step(c, ReplyView::Flag(false));
            let (_, over) = msi_step(d, ReplyView::Text(v));
            &&& start == asks(
                seq![EffectView::Log("    正在下载 Node.js "@ + version + " 安装包…"@)],
                RequestView::Download {
                    url: base + "/node-"@ + version + "-x64.msi"@,
                    file: "node-"@ + version + "-x64.msi"@,
                    log_name: None,
                    kind: KindView::NodeInstaller(version),
                },
            )
            &&& run == asks(
                seq![EffectView::Log("    正在静默安装(msiexec /qn)，可能需要几分钟…"@)],
                RequestView::Status(msi_install(path)),
            )
            &&& lost == fails(Seq::empty(), e)
            &&& refused == fails(Seq::empty(), "启动 Node.js 安装失败:"@ + e)
            &&& if exit.success || exit.code == Some(3010i32) {
                &&& ran == asks(seq![EffectView::RefreshPath], RequestView::NodeAvailable)
                &&& usable == asks(Seq::empty(), RequestView::NodeVersion)
                &&& unusable == fails(
                    Seq::empty(),
                    "Node.js 安装完成但仍无法在 PATH 中找到 node/npm"@,
                )
                &&& over == ends(Seq::empty(), v)
            } else {
                ran == fails(
                    Seq::empty(),
                    "Node.js 安装失败(退出码 "@ + code_words(exit) + ")"@,
                )
            }
        }),
{
}

/// From the archive: it is downloaded under its name from the place of the version and
/// unpacked into the directory, which is put on the search path; it has done its work where
/// Node.js can be used then.
pub proof fn law_node_from_the_archive(
    version: Seq<char>,
    base: Seq<char>,
    dir: Seq<char>,
    path: Seq<char>,
    exit: Exit,
    e: Seq<char>,
    v: Seq<char>,
)
    ensures
        ({
            let (a, start) = zip_start(version, base, dir);
            let (b, create) = zip_step(a, ReplyView::Captured(Ok(path)));
            let (_, lost) = zip_step(a, ReplyView::Captured(Err(e)));
            let (c, unpacks) = zip_step(b, ReplyView::Done(Ok(())));
            let (_, no_dir) = zip_step(b, ReplyView::Done(Err(e)));
            let (d, ran) = zip_step(c, ReplyView::Exited(Ok(exit)));
            let (_, refused) = zip_step(c, ReplyView::Exited(Err(e)));
            let (f, usable) = zip_step(d, ReplyView::Flag(true));
            let (_, unusable) = zip_step(d, ReplyView::Flag(false));
            let (_, over) = zip_step(f, ReplyView::Text(v));
            &&& start == asks(
                seq![EffectView::Log("    正在下载便携版 Node.js "@ + version + "…"@)],
                RequestView::Download {
                    url: base + "/node-"@ + version + "-win-x64.zip"@,
                    file: "node-"@ + version + "-win-x64.zip"@,
                    log_name: None,
                    kind: KindView::NodeArchive(version),
                },
            )
            &&& create == asks(Seq::empty(), RequestView::CreateDir(dir))
            &&& lost == fails(Seq::empty(), e)
            &&& unpacks == asks(
                seq![EffectView::Log("    正在解压并配置…"@)],
                RequestView::Status(unpack(path, dir)),
            )
            &&& no_dir == fails(Seq::empty(), "创建安装目录失败:"@ + e)
            &&& refused == fails(Seq::empty(), "解压 Node.js 失败:"@ + e)
            &&& if exit.success {
                &&& ran == asks(
                    seq![EffectView::RunScript(add_path_script(dir)), EffectView::RefreshPath],
                    RequestView::NodeAvailable,
                )
                &&& usable == asks(Seq::empty(), RequestView::NodeVersion)
                &&& unusable == fails(Seq::empty(), "便携版 Node.js 未能生效"@)
                &&& over == ends(Seq::empty(), v)
            } else {
                ran == fails(Seq::empty(), "解压 Node.js 失败"@)
            }
        }),
{
}

// ---- dsh ----

/// dsh is installed globally, and where that fails into the prefix of the user, which is
/// then put on the search path. What was installed is told with its version, as far as it
/// can be found; where both ways fail, both reasons are told.
pub proof fn law_dsh_is_installed_somewhere(
    prefix: Seq<char>,
    out: Seq<char>,
    e: Seq<char>,
    f: Seq<char>,
    version: Option<Seq<char>>,
)
    ensures
        ({
            let (a, start) = install_dsh_start(prefix);
            let (b, global) = install_dsh_step(a, ReplyView::Captured(Ok(out)));
            let (_, done) = install_dsh_step(b, ReplyView::Maybe(version));
            let (c, fallback) = install_dsh_step(a, ReplyView::Captured(Err(e)));
            let (d, user) = install_dsh_step(c, ReplyView::Done(Ok(())));
            let (_, no_dir) = install_dsh_step(c, ReplyView::Done(Err(f)));
            let (g, installed) = install_dsh_step(d, ReplyView::Captured(Ok(out)));
            let (_, failed) = install_dsh_step(d, ReplyView::Captured(Err(f)));
            let (_, done_user) = install_dsh_step(g, ReplyView::Maybe(version));
            let known = if version is Some {
                version->0
            } else {
                "unknown"@
            };
            &&& start == asks(
                seq![
                    EffectView::Log(
                        "    正在运行 npm install -g @deepseek-ai/dsh@latest（可能需要几分钟）…"@,
                    ),
                ],
                RequestView::Capture(npm_install()),
            )
            &&& global == asks(Seq::empty(), RequestView::DshVersion)
            &&& done == ends(Seq::empty(), "v"@ + known)
            &&& fallback == asks(
                seq![EffectView::Log("    全局安装失败("@ + e + ")，改用用户目录安装…"@)],
                RequestView::CreateDir(prefix),
            )
            &&& user == asks(Seq::empty(), RequestView::Capture(npm_install_prefix(prefix)))
            &&& no_dir == fails(Seq::empty(), "无法创建用户目录 "@ + prefix)
            &&& installed == asks(
                seq![EffectView::RunScript(add_path_script(prefix)), EffectView::RefreshPath],
                RequestView::DshVersion,
            )
            &&& failed == fails(
                Seq::empty(),
                "全局安装失败("@ + e + ")，用户目录安装也失败("@ + f + ")"@,
            )
            &&& done_user == ends(Seq::empty(), "v"@ + known + "(用户目录)"@)
        }),
{
}

/// An update of dsh compares what is listed with what is published. Where they are the same,
/// nothing is touched. Else the server on its port is stopped, the newest dsh installed, and
/// the server started again on that port and waited for; the page goes to its address when
/// it listens. What has happened is told with both versions.
pub proof fn law_dsh_is_brought_up_to_date(
    port: u16,
    url: Seq<char>,
    listing: Result<Seq<char>, Seq<char>>,
    out: Seq<char>,
    e: Seq<char>,
    installed: Seq<char>,
    open: bool,
)
    ensures
        ({
            let (a, start) = update_dsh_start(port, url);
            let (b, ask) = update_dsh_step(a, ReplyView::Captured(listing));
            let (c, told) = update_dsh_step(b, ReplyView::Captured(Ok(out)));
            let (_, offline) = update_dsh_step(b, ReplyView::Captured(Err(e)));
            let (d, done) = update_dsh_step(c, ReplyView::Captured(Ok(installed)));
            let (_, refused) = update_dsh_step(c, ReplyView::Captured(Err(e)));
            let (f, started) = update_dsh_step(d, ReplyView::Done(Ok(())));
            let (_, dead) = update_dsh_step(d, ReplyView::Done(Err(e)));
            let (_, over) = update_dsh_step(f, ReplyView::Flag(open));
            let latest = trim(out);
            let current = listed_version(listing);
            &&& start == asks(Seq::empty(), RequestView::Capture(npm_list()))
            &&& ask == asks(Seq::empty(), RequestView::Capture(npm_view()))
            &&& offline == fails(Seq::empty(), e)
            &&& if latest.len() == 0 {
                told == fails(Seq::empty(), "无法获取最新版本"@)
            } else if current == Some(latest) {
                told == ends(Seq::empty(), "dsh 已是最新版本(v"@ + latest + ")"@)
            } else {
                &&& told == asks(
                    seq![
                        on_show(
                            "installing"@,
                            "正在安装 dsh v"@ + latest + "…"@,
                            None,
                            None,
                            Some(latest),
                        ),
                        EffectView::StopServer(port),
                    ],
                    RequestView::Capture(npm_install()),
                )
                &&& refused == fails(Seq::empty(), "安装失败:"@ + e)
                &&& done == asks(
                    seq![
                        on_show(
                            "restarting"@,
                            "正在重启 dsh 服务…"@,
                            None,
                            None,
                            Some(latest),
                        ),
                    ],
                    RequestView::SpawnServer(port),
                )
                &&& dead == fails(Seq::empty(), "更新完成但 dsh 启动失败:"@ + e)
                &&& started == asks(Seq::empty(), RequestView::WaitPort { port, secs: 60 })
                &&& over == ends(
                    if open {
                        seq![EffectView::Navigate(url)]
                    } else {
                        Seq::empty()
                    },
                    if current is Some {
                        "dsh 已更新:v"@ + current->0 + " → v"@ + latest + "，服务已重启"@
                    } else {
                        "dsh 已安装 v"@ + latest + "，服务已启动"@
                    },
                )
            }
        }),
{
}

/// A restart stops the server on its port, starts it there again, waits for it on that port,
/// and leads the page to its address when it listens; else the end of its log is told.
pub proof fn law_server_is_restarted(port: u16, url: Seq<char>, e: Seq<char>, tail: Seq<char>)
    ensures
        ({
            let (a, start) = restart_start(port, url);
            let (b, started) = restart_step(a, ReplyView::Done(Ok(())));
            let (_, refused) = restart_step(a, ReplyView::Done(Err(e)));
            let (_, up) = restart_step(b, ReplyView::Flag(true));
            let (c, down) = restart_step(b, ReplyView::Flag(false));
            let (_, over) = restart_step(c, ReplyView::Text(tail));
            let note = if tail.len() == 0 {
                "dsh 服务未能启动，请稍后重试"@
            } else {
                "dsh 服务未能启动，最近输出："@ + tail
            };
            &&& start == asks(
                seq![EffectView::Toast("正在重启dsh服务..."@), EffectView::StopServer(port)],
                RequestView::SpawnServer(port),
            )
            &&& started == asks(
                seq![EffectView::Toast("dsh服务已重启"@)],
                RequestView::WaitReady { port, secs: 60 },
            )
            &&& refused == fails(
                seq![EffectView::Toast("failed to respawn dsh web server: "@ + e)],
                e,
            )
            &&& up == ends(seq![EffectView::Navigate(url)], Seq::empty())
            &&& down == asks(Seq::empty(), RequestView::LogTail { port, count: 6 })
            &&& over == fails(seq![EffectView::Toast(note)], note)
        }),
{
}

} // verus!
