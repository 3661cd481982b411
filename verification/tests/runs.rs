use deepseek_harness::download::Download;
use deepseek_harness::dsh::{update_dsh, update_dsh_ended, InstallDsh, Restart, UpdateDsh};
use deepseek_harness::environment::{FindWebview2, InstallWebview2, Prepare};
use deepseek_harness::node::{InstallNode, InstallNodeMsi, InstallNodeZip};
use deepseek_harness::npm::LookUpDsh;
use deepseek_harness::protocol::{
    amend, Amendment, Child, DownloadKind, Effect, Exit, LatestRelease, Next, ReleaseError, Reply,
    Request, RunningExe, Turn,
};
use deepseek_harness::scripts::RunPs;
use deepseek_harness::setup::{retry_setup, setup_and_start, setup_ended, Setup};
use deepseek_harness::state::{
    default_setup_state, update_active, update_in, Progress, Settings, SetupState, UpdateState,
};
use deepseek_harness::update::{
    maybe_auto_update, update_app, update_app_failed, AutoUpdate, UpdateApp,
};
use deepseek_harness::wait::{WaitPort, WaitReady};
use deepseek_harness::window::{quit_app, quit_with_dsh, stop_dsh_cmd};

/// One effect in a few words.
fn show(e: &Effect) -> String {
    match e {
        Effect::Log(t) => format!("log {t}"),
        Effect::Publish(s) => format!("publish {} {}", s.phase, s.message),
        Effect::Amend(a) => format!("amend {:?} {} {:?}", a.phase, a.message, a.progress),
        Effect::PublishUpdate(s) => format!("update {} {}", s.phase, s.message),
        Effect::Toast(t) => format!("toast {t}"),
        Effect::Navigate(t) => format!("navigate {t}"),
        Effect::StopServer(p) => format!("stop {p}"),
        Effect::RemoveFile(t) => format!("remove {t}"),
        Effect::Sleep(n) => format!("sleep {n}"),
        Effect::RefreshPath => "refresh".to_string(),
        Effect::RunScript(t) => format!("script {}", t.len() > 0),
        Effect::Message { title, is_error, .. } => format!("message {title} {is_error}"),
        Effect::LaunchHelper(t) => format!("launch {t}"),
        Effect::Exit(n) => format!("exit {n}"),
    }
}

fn effects(t: &Turn) -> Vec<String> {
    t.effects.iter().map(show).collect()
}

fn next(t: &Turn) -> String {
    match &t.next {
        Next::Ask(Request::Capture(c)) => format!("capture {} {}", c.program, c.args.join(" ")),
        Next::Ask(Request::Status(c)) => format!("status {} {}", c.program, c.args.join(" ")),
        Next::Ask(r) => format!("{r:?}"),
        Next::Finished(t) => format!("finished {t}"),
        Next::Failed(t) => format!("failed {t}"),
        Next::Ignored => "ignored".to_string(),
    }
}

fn ok(s: &str) -> Reply {
    Reply::Captured(Ok(s.to_string()))
}

fn err(s: &str) -> Reply {
    Reply::Captured(Err(s.to_string()))
}

fn text(s: &str) -> Reply {
    Reply::Text(s.to_string())
}

fn done() -> Reply {
    Reply::Done(Ok(()))
}

fn undone(s: &str) -> Reply {
    Reply::Done(Err(s.to_string()))
}

fn exited(success: bool, code: i32) -> Reply {
    Reply::Exited(Ok(Exit { success, code: Some(code) }))
}

fn published(t: &Turn) -> &SetupState {
    t.effects
        .iter()
        .rev()
        .find_map(|e| match e {
            Effect::Publish(s) => Some(s),
            _ => None,
        })
        .unwrap()
}

fn release(tag: &str, asset: &str) -> Reply {
    Reply::Release(Ok(LatestRelease {
        tag_name: tag.to_string(),
        body: None,
        asset_url: asset.to_string(),
    }))
}

#[test]
fn startup_with_everything_missing() {
    let (mut s, t) = Setup::start(3080, "U".to_string());
    assert_eq!(next(&t), "PortOpen(3080)");
    let t = s.step(Reply::Flag(false));
    assert_eq!(
        effects(&t),
        vec![
            "publish detecting 正在检测运行环境…",
            "log 开始检查运行环境…",
            "publish detecting 正在检测运行环境…",
            "log [1/3] 检测 Node.js…",
            "publish detecting 正在检测运行环境…",
        ]
    );
    assert_eq!(published(&t).items[0].status, "ok");
    assert_eq!(published(&t).items[1].status, "checking");
    assert_eq!(next(&t), "NodeAvailable");
    assert_eq!(next(&s.step(text("?"))), "ignored");
    let t = s.step(Reply::Flag(false));
    assert_eq!(next(&t), "InstallNode");
    assert_eq!(
        effects(&t),
        vec!["log   未检测到 Node.js，开始自动安装…", "publish installing 正在安装 Node.js…"]
    );
    let t = s.step(ok("v22.14.0"));
    assert_eq!(next(&t), "DshVersion");
    assert_eq!(effects(&t)[0], "log   Node.js 安装完成(v22.14.0)");
    assert_eq!(published(&t).items[1].status, "installed");
    assert_eq!(published(&t).items[1].detail, "v22.14.0");
    assert_eq!(published(&t).items[2].status, "checking");
    let t = s.step(Reply::Maybe(None));
    assert_eq!(next(&t), "InstallDsh");
    let t = s.step(ok("v1.0.0"));
    assert_eq!(next(&t), "PortOpen(3080)");
    assert_eq!(published(&t).phase, "starting");
    assert_eq!(published(&t).items[2].detail, "v1.0.0");
    assert_eq!(published(&t).items[3].detail, "正在启动…");
    let t = s.step(Reply::Flag(false));
    assert_eq!(next(&t), "SpawnServer(3080)");
    let t = s.step(done());
    assert_eq!(next(&t), "WaitReady { port: 3080, secs: 180 }");
    let t = s.step(Reply::Flag(true));
    assert_eq!(
        effects(&t),
        vec![
            "log   服务已就绪(http://127.0.0.1:3080)",
            "publish ready 启动完成",
            "navigate U",
        ]
    );
    assert_eq!(published(&t).items[3].status, "installed");
    assert_eq!(published(&t).items[3].detail, "http://127.0.0.1:3080");
    assert_eq!(published(&t).items.len(), 4);
    assert_eq!(next(&t), "finished ");
    assert_eq!(next(&s.step(Reply::Flag(true))), "ignored");
}

#[test]
fn startup_with_everything_there() {
    let (mut s, _) = Setup::start(3080, "U".to_string());
    let t = s.step(Reply::Flag(true));
    assert_eq!(
        effects(&t),
        vec!["log 检测到 dsh 服务已在运行，直接连接…", "publish ready 启动完成", "navigate U"]
    );
    assert!(published(&t).items[..3].iter().all(|i| i.status == "ok" && i.detail == "已就绪"));
    assert_eq!(next(&t), "finished ");

    let (mut s, _) = Setup::start(3080, "U".to_string());
    s.step(Reply::Flag(false));
    assert_eq!(next(&s.step(Reply::Flag(true))), "NodeVersion");
    let t = s.step(text("v20"));
    assert_eq!(effects(&t)[0], "log   已就绪(v20)");
    let t = s.step(Reply::Maybe(Some("1.0.0".to_string())));
    assert_eq!(effects(&t)[0], "log   已就绪(v1.0.0)");
    assert_eq!(published(&t).items[2].detail, "v1.0.0");
    assert_eq!(next(&s.step(Reply::Flag(true))), "WaitReady { port: 3080, secs: 180 }");
}

#[test]
fn startup_that_fails() {
    let (mut s, _) = Setup::start(3080, "U".to_string());
    s.step(Reply::Flag(false));
    s.step(Reply::Flag(false));
    let t = s.step(err("why"));
    assert_eq!(effects(&t), vec!["publish error Node.js 安装失败:why"]);
    assert_eq!(published(&t).items[1].status, "failed");
    assert_eq!(published(&t).items[1].detail, "why");
    assert_eq!(next(&t), "failed why");

    let (mut s, _) = Setup::start(3080, "U".to_string());
    s.step(Reply::Flag(false));
    s.step(Reply::Flag(true));
    s.step(text("v20"));
    s.step(Reply::Maybe(None));
    assert_eq!(next(&s.step(err("why"))), "failed why");
    assert_eq!(s.state.message, "dsh 安装失败:why");

    let (mut s, _) = Setup::start(3080, "U".to_string());
    s.step(Reply::Flag(false));
    s.step(Reply::Flag(true));
    s.step(text("v20"));
    s.step(Reply::Maybe(Some("1".to_string())));
    s.step(Reply::Flag(false));
    let t = s.step(undone("why"));
    assert_eq!(
        effects(&t),
        vec![
            "log   启动 dsh 服务进程失败:why",
            "publish error dsh 服务启动失败:启动 dsh 服务进程失败:why",
        ]
    );
    assert_eq!(next(&t), "failed 启动 dsh 服务进程失败:why");

    for (tail, reason) in [
        ("", "dsh 服务启动失败(端口 3080 未就绪)"),
        ("last", "dsh 服务启动失败，最近输出：\nlast"),
    ] {
        let (mut s, _) = Setup::start(3080, "U".to_string());
        s.step(Reply::Flag(false));
        s.step(Reply::Flag(true));
        s.step(text("v20"));
        s.step(Reply::Maybe(Some("1".to_string())));
        s.step(Reply::Flag(true));
        assert_eq!(next(&s.step(Reply::Flag(false))), "LogTail { port: 3080, count: 10 }");
        let t = s.step(text(tail));
        assert_eq!(next(&t), format!("failed {reason}"));
        assert_eq!(effects(&t)[0], format!("log   {reason}"));
        assert_eq!(s.state.items[3].status, "failed");
    }
}

#[test]
fn one_startup_at_a_time() {
    let mut running = false;
    assert!(setup_and_start(&mut running));
    assert!(running);
    assert!(!setup_and_start(&mut running));
    assert!(setup_ended(&mut running, true));
    assert!(!running);
    assert!(!setup_ended(&mut running, false));
    let idle = UpdateState::default();
    let busy = update_in("installing", String::new());
    let g = retry_setup(false, &idle);
    assert!(g.go && g.effects.is_empty());
    let g = retry_setup(true, &idle);
    assert!(!g.go);
    assert_eq!(show(&g.effects[0]), "toast 环境检测/安装正在进行中");
    let g = retry_setup(true, &busy);
    assert!(!g.go);
    assert_eq!(show(&g.effects[0]), "toast 更新正在进行中，请稍后再试");
}

#[test]
fn changes_to_the_checklist() {
    let mut s = default_setup_state();
    amend(
        &mut s,
        Amendment {
            phase: None,
            message: "m".to_string(),
            progress: Some(Some(Progress::Bytes { done: 1, total: 2 })),
        },
    );
    assert_eq!(s.phase, "detecting");
    assert_eq!(s.message, "m");
    assert_eq!(s.progress, Some(Progress::Bytes { done: 1, total: 2 }));
    amend(&mut s, Amendment { phase: Some("error".to_string()), message: "n".to_string(), progress: None });
    assert_eq!(s.phase, "error");
    assert_eq!(s.progress, Some(Progress::Bytes { done: 1, total: 2 }));
    assert_eq!(s.items.len(), 4);
}

#[test]
fn waiting_for_the_server() {
    let (mut w, t) = WaitReady::start(3080, 180);
    assert_eq!(next(&t), "PortOpen(3080)");
    assert_eq!(next(&w.step(Reply::Flag(false))), "ChildExit");
    assert_eq!(next(&w.step(Reply::Ended(None))), "Elapsed");
    let t = w.step(Reply::Nanos(1_000_000_000));
    assert_eq!(effects(&t), vec!["sleep 500"]);
    w.step(Reply::Flag(false));
    w.step(Reply::Ended(None));
    let t = w.step(Reply::Nanos(5_200_000_000));
    assert_eq!(effects(&t), vec!["amend None 正在启动 dsh 服务…（已等待 5s） None", "sleep 500"]);
    w.step(Reply::Flag(false));
    w.step(Reply::Ended(None));
    let t = w.step(Reply::Nanos(10_100_000_000));
    assert_eq!(effects(&t), vec!["sleep 500"]);
    let t = w.step(Reply::Flag(true));
    assert_eq!(next(&t), "finished ");
}

#[test]
fn server_that_ends_is_noticed_at_once() {
    let (mut w, _) = WaitReady::start(3080, 180);
    w.step(Reply::Flag(false));
    assert_eq!(next(&w.step(Reply::Ended(Some(Exit { success: false, code: None })))), "LogTail { port: 3080, count: 10 }");
    let t = w.step(text("boom"));
    let reason = "dsh 服务进程提前退出(退出码 -1)，最近输出：\nboom";
    assert_eq!(
        effects(&t),
        vec![
            format!("log   {reason}"),
            format!("amend Some(\"error\") dsh 服务启动失败:{reason} Some(None)"),
        ]
    );
    assert_eq!(next(&t), format!("failed {reason}"));

    let (mut w, _) = WaitReady::start(3080, 180);
    w.step(Reply::Flag(false));
    w.step(Reply::Ended(Some(Exit { success: false, code: Some(3) })));
    assert_eq!(next(&w.step(text(""))), "failed dsh 服务进程提前退出(退出码 3)");
}

#[test]
fn waiting_comes_to_an_end() {
    for (tail, reason) in [
        ("", "等待 dsh 服务启动超时(端口 3080)"),
        ("x", "等待 dsh 服务启动超时(端口 3080)，最近输出：\nx"),
    ] {
        let (mut w, _) = WaitReady::start(3080, 60);
        w.step(Reply::Flag(false));
        w.step(Reply::Ended(None));
        assert_eq!(next(&w.step(Reply::Nanos(60_000_000_000))), "LogTail { port: 3080, count: 10 }");
        let t = w.step(text(tail));
        assert_eq!(effects(&t), vec![format!("log   {reason}")]);
        assert_eq!(next(&t), format!("failed {reason}"));
    }
    let (mut p, t) = WaitPort::start(80, 1);
    assert_eq!(next(&t), "Elapsed");
    assert_eq!(next(&p.step(Reply::Nanos(0))), "PortOpen(80)");
    let t = p.step(Reply::Flag(false));
    assert_eq!(effects(&t), vec!["sleep 300"]);
    assert_eq!(next(&p.step(Reply::Nanos(1_000_000_000))), "failed ");
    let (mut p, _) = WaitPort::start(80, 1);
    p.step(Reply::Nanos(999_999_999));
    assert_eq!(next(&p.step(Reply::Flag(true))), "finished ");
    assert_eq!(next(&p.step(Reply::Nanos(0))), "ignored");
}

fn download(kind: DownloadKind) -> (Download, Turn) {
    Download::start(kind, "U".to_string(), "D".to_string(), "L".to_string(), "S".to_string())
}

fn measured(len: u64, nanos: u64, moved: bool, percent: &str) -> Reply {
    Reply::Measured { len, nanos, moved, percent: percent.to_string() }
}

#[test]
fn download_with_a_known_length() {
    let (mut d, t) = download(DownloadKind::NodeInstaller("v22".to_string()));
    assert_eq!(effects(&t), Vec::<String>::new());
    assert!(matches!(&t.next, Next::Ask(Request::PowerShell(s)) if s.contains("'U'")));
    let t = d.step(ok("200\r\n"));
    assert_eq!(effects(&t), vec!["remove D"]);
    assert!(matches!(&t.next, Next::Ask(Request::WriteFile { path, text }) if path == "S"
        && text.contains("-OutFile 'D' 'U'")));
    assert_eq!(next(&d.step(done())), "SpawnScript { script: \"S\", log: \"L\" }");
    assert_eq!(next(&d.step(done())), "PollChild");
    assert_eq!(
        next(&d.step(Reply::Child(Child::Running))),
        "Measure { file: \"D\", total: Some(200), last: None }"
    );
    let t = d.step(measured(50, 0, true, "25"));
    assert_eq!(
        effects(&t),
        vec![
            "amend Some(\"installing\") 正在下载 Node.js v22… 25% Some(Some(Bytes { done: 50, total: 200 }))",
            "sleep 200",
        ]
    );
    assert_eq!(
        next(&d.step(Reply::Child(Child::Running))),
        "Measure { file: \"D\", total: Some(200), last: Some(50) }"
    );
    assert_eq!(effects(&d.step(measured(51, 0, false, "26"))), vec!["sleep 200"]);
    let t = d.step(Reply::Child(Child::Exited { success: true }));
    assert_eq!(effects(&t), vec!["remove S"]);
    assert_eq!(next(&t), "FileLength(\"D\")");
    assert_eq!(next(&d.step(Reply::Number(200))), "finished D");
}

#[test]
fn download_without_a_length() {
    let (mut d, _) = download(DownloadKind::NodeArchive("v22".to_string()));
    d.step(err("x"));
    d.step(done());
    d.step(done());
    d.step(Reply::Child(Child::Running));
    assert_eq!(effects(&d.step(measured(5, 999_999_999, true, ""))), vec!["sleep 200"]);
    d.step(Reply::Child(Child::Running));
    assert_eq!(
        effects(&d.step(measured(5, 1_000_000_000, true, ""))),
        vec!["amend Some(\"installing\") 正在下载 Node.js v22 便携版… Some(None)", "sleep 200"]
    );
    d.step(Reply::Child(Child::Running));
    assert_eq!(effects(&d.step(measured(5, 1_500_000_000, true, ""))), vec!["sleep 200"]);
    let t = d.step(Reply::Child(Child::Unreadable));
    assert_eq!(effects(&t), vec!["remove S"]);
    assert_eq!(next(&t), "failed 无法读取下载进程状态");
}

#[test]
fn update_download_shows_what_it_can_measure() {
    for (length, progress) in
        [("100", Some(Progress::Start)), ("0", None), ("", None), ("none", None)]
    {
        let (mut d, _) = download(DownloadKind::AppUpdate);
        d.step(ok(length));
        d.step(done());
        let t = d.step(done());
        assert_eq!(effects(&t), vec!["update downloading 正在下载更新包…"]);
        assert!(matches!(&t.effects[0], Effect::PublishUpdate(s) if s.progress == progress
            && update_active(s)));
        d.step(Reply::Child(Child::Running));
        let t = d.step(measured(50, 3_000_000_000, true, "50"));
        if progress.is_some() {
            assert_eq!(effects(&t), vec!["update downloading 正在下载更新包… 50%", "sleep 200"]);
            assert!(matches!(&t.effects[0], Effect::PublishUpdate(s)
                if s.progress == Some(Progress::Bytes { done: 50, total: 100 })));
        } else {
            assert_eq!(effects(&t), vec!["sleep 200"]);
        }
    }
}

#[test]
fn installed_dsh_is_looked_up() {
    let global = "capture cmd /c npm ls -g @deepseek-ai/dsh --depth=0";
    let user = "capture cmd /c npm ls -g --prefix P @deepseek-ai/dsh --depth=0";
    let (mut l, t) = LookUpDsh::start("P".to_string());
    assert_eq!(next(&t), global);
    assert_eq!(next(&l.step(Reply::Flag(true))), "ignored");
    assert_eq!(next(&l.step(ok("`-- @deepseek-ai/dsh@1.0.0\n"))), "finished 1.0.0");
    assert_eq!(next(&l.step(ok("`-- @deepseek-ai/dsh@1.0.0\n"))), "ignored");
    for first in [ok("`-- (empty)\n"), err("no npm")] {
        let (mut l, _) = LookUpDsh::start("P".to_string());
        assert_eq!(next(&l.step(first)), user);
        assert_eq!(next(&l.step(ok("`-- @deepseek-ai/dsh@0.9.0\n"))), "finished 0.9.0");
    }
    let (mut l, _) = LookUpDsh::start("P".to_string());
    l.step(err("no npm"));
    assert_eq!(next(&l.step(err("no npm"))), "failed ");
}

#[test]
fn ended_updates_let_others_begin() {
    for outcome in [Ok("done".to_string()), Err("why".to_string())] {
        let e = update_dsh_ended(outcome);
        assert!(matches!(&e[0], Effect::PublishUpdate(s) if !update_active(s)));
    }
    assert!(!update_active(&update_app_failed("why")));
}

#[test]
fn download_that_fails() {
    let (mut d, t) = download(DownloadKind::Silent);
    assert_eq!(effects(&t), vec!["remove D"]);
    d.step(ok("0"));
    assert_eq!(next(&d.step(undone("e"))), "failed 写入下载脚本失败:e");
    let (mut d, _) = download(DownloadKind::Silent);
    d.step(ok(""));
    d.step(done());
    assert_eq!(next(&d.step(undone("e"))), "failed 启动下载失败:e");
    for (kind, log, reason) in [
        (DownloadKind::Silent, " \r\n", "下载失败"),
        (DownloadKind::AppUpdate, "", "下载更新包失败"),
        (DownloadKind::Silent, " 404 \r\n", "404"),
    ] {
        let (mut d, _) = download(kind);
        d.step(ok(""));
        d.step(done());
        d.step(done());
        assert_eq!(next(&d.step(Reply::Child(Child::Exited { success: false }))), "ReadFile(\"L\")");
        let t = d.step(text(log));
        assert_eq!(effects(&t), vec!["remove L"]);
        assert_eq!(next(&t), format!("failed {reason}"));
    }
    for (kind, reason) in [
        (DownloadKind::Silent, "下载结果为空"),
        (DownloadKind::AppUpdate, "下载结果为空，更新失败"),
    ] {
        let (mut d, _) = download(kind);
        d.step(ok(""));
        d.step(done());
        d.step(done());
        d.step(Reply::Child(Child::Exited { success: true }));
        assert_eq!(next(&d.step(Reply::Number(0))), format!("failed {reason}"));
    }
}

#[test]
fn node_is_installed_in_three_ways() {
    let (mut n, t) = InstallNode::start();
    assert_eq!(next(&t), "capture cmd /c where winget");
    let t = n.step(ok(""));
    assert_eq!(
        next(&t),
        "status winget install --id OpenJS.NodeJS.LTS --silent --accept-package-agreements --accept-source-agreements --disable-interactivity"
    );
    let t = n.step(exited(true, 0));
    assert_eq!(effects(&t), vec!["refresh"]);
    assert_eq!(next(&n.step(Reply::Flag(true))), "NodeVersion");
    assert_eq!(next(&n.step(text("v22"))), "finished v22");

    let (mut n, _) = InstallNode::start();
    n.step(ok(""));
    let t = n.step(Reply::Exited(Err("e".to_string())));
    assert_eq!(effects(&t), vec!["log     winget 未成功，改用官方安装包…"]);
    assert!(matches!(&t.next, Next::Ask(Request::PowerShell(_))));
    assert_eq!(
        next(&n.step(ok("v22.14.0\r\n"))),
        "InstallNodeMsi { version: \"v22.14.0\", base_url: \"https://nodejs.org/dist/v22.14.0\" }"
    );
    let t = n.step(err("no"));
    assert_eq!(effects(&t), vec!["log     官方安装包失败(no)，改用便携版(免管理员)…"]);
    assert_eq!(
        next(&t),
        "InstallNodeZip { version: \"v22.14.0\", base_url: \"https://nodejs.org/dist/v22.14.0\" }"
    );
    assert_eq!(next(&n.step(err("never"))), "failed never");

    let (mut n, _) = InstallNode::start();
    assert!(matches!(n.step(err("none")).next, Next::Ask(Request::PowerShell(_))));
    assert_eq!(next(&n.step(ok("  "))), "failed 无法获取 Node.js 最新版本(请检查网络)");
}

#[test]
fn node_from_the_installer() {
    let start = || InstallNodeMsi::start("v22".to_string(), "B");
    let (mut m, t) = start();
    assert_eq!(effects(&t), vec!["log     正在下载 Node.js v22 安装包…"]);
    assert_eq!(
        next(&t),
        "Download { url: \"B/node-v22-x64.msi\", file: \"node-v22-x64.msi\", log_name: None, kind: NodeInstaller(\"v22\") }"
    );
    assert_eq!(next(&m.step(ok("P"))), "status msiexec /i P /qn /norestart");
    assert_eq!(effects(&m.step(exited(false, 3010))), vec!["refresh"]);
    assert_eq!(next(&m.step(Reply::Flag(true))), "NodeVersion");
    assert_eq!(next(&m.step(text("v22.1"))), "finished v22.1");
    let (mut m, _) = start();
    assert_eq!(next(&m.step(err("e"))), "failed e");
    let (mut m, _) = start();
    m.step(ok("P"));
    assert_eq!(next(&m.step(exited(false, 1603))), "failed Node.js 安装失败(退出码 1603)");
    let (mut m, _) = start();
    m.step(ok("P"));
    assert_eq!(
        next(&m.step(Reply::Exited(Ok(Exit { success: false, code: None })))),
        "failed Node.js 安装失败(退出码 -1)"
    );
    let (mut m, _) = start();
    m.step(ok("P"));
    assert_eq!(
        next(&m.step(Reply::Exited(Err("e".to_string())))),
        "failed 启动 Node.js 安装失败:e"
    );
    let (mut m, _) = start();
    m.step(ok("P"));
    m.step(exited(true, 0));
    assert_eq!(
        next(&m.step(Reply::Flag(false))),
        "failed Node.js 安装完成但仍无法在 PATH 中找到 node/npm"
    );
}

#[test]
fn node_from_the_archive() {
    let start = || InstallNodeZip::start("v22".to_string(), "B", "DIR".to_string());
    let (mut z, t) = start();
    assert_eq!(
        next(&t),
        "Download { url: \"B/node-v22-win-x64.zip\", file: \"node-v22-win-x64.zip\", log_name: None, kind: NodeArchive(\"v22\") }"
    );
    assert_eq!(next(&z.step(ok("Z"))), "CreateDir(\"DIR\")");
    assert_eq!(next(&z.step(done())), "status tar -xf Z -C DIR --strip-components=1");
    let t = z.step(exited(true, 0));
    assert_eq!(effects(&t), vec!["script true", "refresh"]);
    assert_eq!(next(&z.step(Reply::Flag(true))), "NodeVersion");
    assert_eq!(next(&z.step(text("v22"))), "finished v22");
    let (mut z, _) = start();
    assert_eq!(next(&z.step(err("e"))), "failed e");
    let (mut z, _) = start();
    z.step(ok("Z"));
    assert_eq!(next(&z.step(undone("e"))), "failed 创建安装目录失败:e");
    let (mut z, _) = start();
    z.step(ok("Z"));
    z.step(done());
    assert_eq!(next(&z.step(exited(false, 1))), "failed 解压 Node.js 失败");
    let (mut z, _) = start();
    z.step(ok("Z"));
    z.step(done());
    assert_eq!(next(&z.step(Reply::Exited(Err("e".to_string())))), "failed 解压 Node.js 失败:e");
    let (mut z, _) = start();
    z.step(ok("Z"));
    z.step(done());
    z.step(exited(true, 0));
    assert_eq!(next(&z.step(Reply::Flag(false))), "failed 便携版 Node.js 未能生效");
}

#[test]
fn dsh_is_installed() {
    let (mut d, t) = InstallDsh::start("P".to_string());
    assert_eq!(next(&t), "capture cmd /c npm install -g @deepseek-ai/dsh@latest");
    assert_eq!(next(&d.step(ok(""))), "DshVersion");
    assert_eq!(next(&d.step(Reply::Maybe(Some("1.0.0".to_string())))), "finished v1.0.0");
    let (mut d, _) = InstallDsh::start("P".to_string());
    d.step(ok(""));
    assert_eq!(next(&d.step(Reply::Maybe(None))), "finished vunknown");
    let (mut d, _) = InstallDsh::start("P".to_string());
    let t = d.step(err("no rights"));
    assert_eq!(effects(&t), vec!["log     全局安装失败(no rights)，改用用户目录安装…"]);
    assert_eq!(next(&t), "CreateDir(\"P\")");
    assert_eq!(
        next(&d.step(done())),
        "capture cmd /c npm install -g --prefix \"P\" @deepseek-ai/dsh@latest"
    );
    let t = d.step(ok(""));
    assert_eq!(effects(&t), vec!["script true", "refresh"]);
    assert_eq!(next(&d.step(Reply::Maybe(Some("1".to_string())))), "finished v1(用户目录)");
    let (mut d, _) = InstallDsh::start("P".to_string());
    d.step(err("a"));
    assert_eq!(next(&d.step(undone("b"))), "failed 无法创建用户目录 P");
    let (mut d, _) = InstallDsh::start("P".to_string());
    d.step(err("a"));
    d.step(done());
    assert_eq!(next(&d.step(err("b"))), "failed 全局安装失败(a)，用户目录安装也失败(b)");
}

#[test]
fn dsh_is_updated() {
    let start = || UpdateDsh::start(3080, "U".to_string());
    let (mut d, t) = start();
    assert_eq!(next(&t), "capture cmd /c npm ls -g @deepseek-ai/dsh --depth=0");
    assert_eq!(
        next(&d.step(ok("`-- @deepseek-ai/dsh@1.0.0\n"))),
        "capture cmd /c npm view @deepseek-ai/dsh version"
    );
    let t = d.step(ok("1.1.0\n"));
    assert_eq!(effects(&t), vec!["update installing 正在安装 dsh v1.1.0…", "stop 3080"]);
    assert_eq!(next(&t), "capture cmd /c npm install -g @deepseek-ai/dsh@latest");
    let t = d.step(ok(""));
    assert_eq!(effects(&t), vec!["update restarting 正在重启 dsh 服务…"]);
    assert_eq!(next(&t), "SpawnServer(3080)");
    assert_eq!(next(&d.step(done())), "WaitPort { port: 3080, secs: 60 }");
    let t = d.step(Reply::Flag(true));
    assert_eq!(effects(&t), vec!["navigate U"]);
    assert_eq!(next(&t), "finished dsh 已更新:v1.0.0 → v1.1.0，服务已重启");

    let (mut d, _) = start();
    d.step(ok("`-- @deepseek-ai/dsh@1.1.0\n"));
    let t = d.step(ok(" 1.1.0 "));
    assert!(t.effects.is_empty());
    assert_eq!(next(&t), "finished dsh 已是最新版本(v1.1.0)");

    let (mut d, _) = start();
    d.step(err("e"));
    d.step(ok("1.1.0"));
    d.step(ok(""));
    d.step(done());
    let t = d.step(Reply::Flag(false));
    assert!(t.effects.is_empty());
    assert_eq!(next(&t), "finished dsh 已安装 v1.1.0，服务已启动");

    let (mut d, _) = start();
    d.step(err("e"));
    assert_eq!(next(&d.step(err("offline"))), "failed offline");
    let (mut d, _) = start();
    d.step(err("e"));
    assert_eq!(next(&d.step(ok(" \n"))), "failed 无法获取最新版本");
    let (mut d, _) = start();
    d.step(err("e"));
    d.step(ok("1"));
    assert_eq!(next(&d.step(err("x"))), "failed 安装失败:x");
    let (mut d, _) = start();
    d.step(err("e"));
    d.step(ok("1"));
    d.step(ok(""));
    assert_eq!(next(&d.step(undone("x"))), "failed 更新完成但 dsh 启动失败:x");
}

#[test]
fn update_of_dsh_is_guarded() {
    let idle = UpdateState::default();
    let busy = update_in("downloading", String::new());
    let g = update_dsh(true, &busy);
    assert!(!g.go);
    assert_eq!(show(&g.effects[0]), "toast 环境检测/安装正在进行中，请稍后再试");
    let g = update_dsh(false, &busy);
    assert!(!g.go);
    assert_eq!(show(&g.effects[0]), "toast 已有更新正在进行");
    let g = update_dsh(false, &idle);
    assert!(g.go);
    assert_eq!(show(&g.effects[0]), "update checking 正在检查 dsh 版本…");
    let e = update_dsh_ended(Ok("done".to_string()));
    assert_eq!(e.iter().map(show).collect::<Vec<_>>(), vec!["update done done", "toast done"]);
    let e = update_dsh_ended(Err("why".to_string()));
    assert_eq!(
        e.iter().map(show).collect::<Vec<_>>(),
        vec!["update error dsh 更新失败:why", "toast dsh 更新失败:why"]
    );
}

#[test]
fn server_is_restarted() {
    let (mut r, t) = Restart::start(3080, "U".to_string());
    assert_eq!(effects(&t), vec!["toast 正在重启dsh服务...", "stop 3080"]);
    assert_eq!(next(&t), "SpawnServer(3080)");
    let t = r.step(done());
    assert_eq!(effects(&t), vec!["toast dsh服务已重启"]);
    assert_eq!(next(&t), "WaitReady { port: 3080, secs: 60 }");
    assert_eq!(effects(&r.step(Reply::Flag(true))), vec!["navigate U"]);
    let (mut r, _) = Restart::start(3080, "U".to_string());
    assert_eq!(
        effects(&r.step(undone("e"))),
        vec!["toast failed to respawn dsh web server: e"]
    );
    for (tail, note) in [
        ("", "toast dsh 服务未能启动，请稍后重试"),
        ("x", "toast dsh 服务未能启动，最近输出：x"),
    ] {
        let (mut r, _) = Restart::start(3080, "U".to_string());
        r.step(done());
        assert_eq!(next(&r.step(Reply::Flag(false))), "LogTail { port: 3080, count: 6 }");
        assert_eq!(effects(&r.step(text(tail))), vec![note]);
    }
}

#[test]
fn application_is_updated() {
    let (mut u, t) = UpdateApp::start();
    assert_eq!(effects(&t), vec!["update checking 正在获取版本信息…"]);
    assert_eq!(next(&t), "FetchRelease");
    assert_eq!(next(&u.step(release("v2", "A"))), "CurrentExe");
    let t = u.step(Reply::Exe(Ok(RunningExe {
        name: Some("app.exe".to_string()),
        path: "C:\\app.exe".to_string(),
    })));
    assert_eq!(
        next(&t),
        "Download { url: \"A\", file: \"app.exe.update.exe\", log_name: Some(\"app.exe.download-error.log\"), kind: AppUpdate }"
    );
    let t = u.step(ok("T\\app.exe.update.exe"));
    assert_eq!(effects(&t), vec!["update finalizing 正在替换程序并重启…"]);
    assert_eq!(next(&t), "TempPath(\"app.exe.update-helper.log\")");
    assert_eq!(next(&u.step(text("L"))), "TempPath(\"app.exe.update-helper.bat\")");
    let t = u.step(text("H"));
    assert!(matches!(&t.next, Next::Ask(Request::WriteFile { path, text }) if path == "H"
        && text.contains("copy /y \"T\\app.exe.update.exe\" \"C:\\app.exe\" >nul")
        && text.contains("IMAGENAME eq app.exe\"")));
    let t = u.step(done());
    assert_eq!(effects(&t), vec!["launch H", "exit 0"]);
    assert_eq!(next(&t), "finished ");

    let (mut u, _) = UpdateApp::start();
    assert_eq!(
        next(&u.step(Reply::Release(Err(ReleaseError::NoRelease)))),
        "failed 暂无已发布版本"
    );
    let (mut u, _) = UpdateApp::start();
    assert_eq!(next(&u.step(release("v2", ""))), "failed 该发布中没有可用的 exe 更新包");
    let (mut u, _) = UpdateApp::start();
    u.step(release("v2", "A"));
    assert_eq!(
        next(&u.step(Reply::Exe(Err("e".to_string())))),
        "failed 无法定位当前程序路径:e"
    );
    let (mut u, _) = UpdateApp::start();
    u.step(release("v2", "A"));
    let t = u.step(Reply::Exe(Ok(RunningExe { name: None, path: "P".to_string() })));
    assert!(next(&t).contains("deepseek-harness.exe.update.exe"));
    assert_eq!(next(&u.step(err("e"))), "failed e");
    let (mut u, _) = UpdateApp::start();
    u.step(release("v2", "A"));
    u.step(Reply::Exe(Ok(RunningExe { name: None, path: "P".to_string() })));
    u.step(ok("T"));
    u.step(text("L"));
    u.step(text("H"));
    assert_eq!(next(&u.step(undone("e"))), "failed 写入更新脚本失败:e");
    assert_eq!(update_app(&UpdateState::default()), Ok(()));
    assert_eq!(
        update_app(&update_in("finalizing", String::new())),
        Err("已有更新正在进行".to_string())
    );
    assert_eq!(update_app_failed("e").message, "更新失败:e");
}

#[test]
fn look_for_updates_after_startup() {
    let idle = UpdateState::default();
    let busy = update_in("checking", String::new());
    let on = Settings { close_stops_dsh: false, auto_update: true };
    let off = Settings { close_stops_dsh: false, auto_update: false };
    assert!(maybe_auto_update(&on, false, &idle));
    assert!(!maybe_auto_update(&off, false, &idle));
    assert!(!maybe_auto_update(&on, true, &idle));
    assert!(!maybe_auto_update(&on, false, &busy));

    let (mut a, t) = AutoUpdate::start("1.0.0".to_string(), 3080, "U".to_string());
    assert_eq!(next(&t), "FetchRelease");
    let t = a.step(release("v0.9.0", "A"));
    assert!(t.effects.is_empty());
    assert_eq!(next(&t), "DshVersion");
    let t = a.step(Reply::Maybe(Some("1.0.0".to_string())));
    assert_eq!(next(&t), "capture cmd /c npm view @deepseek-ai/dsh version");
    let t = a.step(ok("1.0.0\n"));
    assert!(t.effects.is_empty());
    assert_eq!(next(&t), "finished ");

    let (mut a, _) = AutoUpdate::start("1.0.0".to_string(), 3080, "U".to_string());
    let t = a.step(release("v1.1.0", "A"));
    assert_eq!(effects(&t), vec!["toast 发现新版本，正在后台更新应用…"]);
    assert_eq!(next(&t), "UpdateApp");
    let t = a.step(undone("e"));
    assert_eq!(
        effects(&t),
        vec!["update error 自动更新应用失败:e", "toast 自动更新应用失败:e"]
    );
    assert_eq!(next(&t), "DshVersion");
    a.step(Reply::Maybe(Some("1.0.0".to_string())));
    let t = a.step(ok("1.0.1"));
    assert_eq!(next(&t), "capture cmd /c npm ls -g @deepseek-ai/dsh --depth=0");
    assert_eq!(next(&a.step(Reply::Flag(true))), "ignored");
    let t = a.step(ok("`-- @deepseek-ai/dsh@1.0.0\n"));
    assert_eq!(next(&t), "capture cmd /c npm view @deepseek-ai/dsh version");
    let t = a.step(ok("1.0.1\n"));
    assert_eq!(effects(&t), vec!["update installing 正在安装 dsh v1.0.1…", "stop 3080"]);
    let t = a.step(ok(""));
    assert_eq!(effects(&t), vec!["update restarting 正在重启 dsh 服务…"]);
    assert_eq!(next(&t), "SpawnServer(3080)");
    assert_eq!(next(&a.step(done())), "WaitPort { port: 3080, secs: 60 }");
    let t = a.step(Reply::Flag(true));
    let note = "dsh 已更新:v1.0.0 → v1.0.1，服务已重启";
    assert_eq!(
        effects(&t),
        vec!["navigate U".to_string(), format!("update done {note}"), format!("toast {note}")]
    );
    assert_eq!(next(&t), "finished ");
    assert_eq!(next(&a.step(Reply::Flag(true))), "ignored");
}

fn update_of_missing_dsh() -> AutoUpdate {
    let (mut a, _) = AutoUpdate::start("1.0.0".to_string(), 3080, "U".to_string());
    let t = a.step(Reply::Release(Err(ReleaseError::Failed("offline".to_string()))));
    assert!(t.effects.is_empty());
    a.step(Reply::Maybe(None));
    a.step(ok("1.0.1"));
    a.step(err("none"));
    a
}

#[test]
fn automatic_update_of_dsh_that_fails() {
    for (reply, reason) in [(err("e"), "e"), (ok(" \n"), "无法获取最新版本")] {
        let mut a = update_of_missing_dsh();
        let t = a.step(reply);
        assert_eq!(effects(&t), vec![format!("toast 自动更新 dsh 失败:{reason}")]);
        assert_eq!(next(&t), "finished ");
    }
    let mut install = update_of_missing_dsh();
    install.step(ok("1.0.1"));
    let mut spawn = update_of_missing_dsh();
    spawn.step(ok("1.0.1"));
    spawn.step(ok(""));
    for (mut a, reply, reason) in [
        (install, err("e"), "安装失败:e"),
        (spawn, undone("e"), "更新完成但 dsh 启动失败:e"),
    ] {
        let t = a.step(reply);
        assert_eq!(
            effects(&t),
            vec![
                format!("update error 自动更新 dsh 失败:{reason}"),
                format!("toast 自动更新 dsh 失败:{reason}"),
            ]
        );
        assert!(matches!(&t.effects[0], Effect::PublishUpdate(s) if !update_active(s)
            && s.error.as_deref() == Some(reason)));
        assert_eq!(next(&t), "finished ");
    }
}

#[test]
fn webview2_is_looked_for() {
    let (mut f, t) = FindWebview2::start(Some("L".to_string()));
    assert_eq!(
        next(&t),
        "capture reg query HKLM\\SOFTWARE\\WOW6432Node\\Microsoft\\EdgeUpdate\\Clients\\{F3017226-FE2A-4295-8BDF-00C3A9A7E4C5} /v pv"
    );
    assert_eq!(next(&f.step(Reply::Flag(true))), "ignored");
    assert!(next(&f.step(err("e"))).contains("HKLM\\SOFTWARE\\Microsoft"));
    assert!(next(&f.step(err("e"))).contains("HKCU\\SOFTWARE\\Microsoft"));
    assert_eq!(
        next(&f.step(err("e"))),
        "HasEntries([\"C:\\\\Program Files (x86)\\\\Microsoft\\\\EdgeWebView\\\\Application\"])"
    );
    assert_eq!(
        next(&f.step(Reply::Flag(false))),
        "HasEntries([\"C:\\\\Program Files\\\\Microsoft\\\\EdgeWebView\\\\Application\"])"
    );
    assert_eq!(
        next(&f.step(Reply::Flag(false))),
        "HasEntries([\"L\", \"Microsoft\", \"EdgeWebView\", \"Application\"])"
    );
    assert_eq!(next(&f.step(Reply::Flag(false))), "failed ");
    assert_eq!(next(&f.step(Reply::Flag(true))), "ignored");
    let (mut f, _) = FindWebview2::start(None);
    assert_eq!(next(&f.step(ok("pv"))), "finished ");
    let (mut f, _) = FindWebview2::start(None);
    for _ in 0..3 {
        f.step(err("e"));
    }
    f.step(Reply::Flag(false));
    assert_eq!(next(&f.step(Reply::Flag(false))), "failed ");
}

#[test]
fn webview2_is_installed() {
    let (mut w, t) = InstallWebview2::start();
    assert!(next(&t).contains("MicrosoftEdgeWebview2Setup.exe"));
    assert_eq!(next(&w.step(ok("P"))), "status P /install");
    assert_eq!(next(&w.step(exited(true, 0))), "Webview2Installed");
    assert_eq!(next(&w.step(Reply::Flag(true))), "finished ");
    let (mut w, _) = InstallWebview2::start();
    assert_eq!(next(&w.step(err("e"))), "failed e");
    let (mut w, _) = InstallWebview2::start();
    w.step(ok("P"));
    assert_eq!(next(&w.step(exited(false, 5))), "failed WebView2 安装程序退出码:5");
    let (mut w, _) = InstallWebview2::start();
    w.step(ok("P"));
    assert_eq!(
        next(&w.step(Reply::Exited(Err("e".to_string())))),
        "failed 启动 WebView2 安装程序失败:e"
    );
    let (mut w, _) = InstallWebview2::start();
    w.step(ok("P"));
    w.step(exited(true, 0));
    assert_eq!(
        next(&w.step(Reply::Flag(false))),
        "failed 安装完成后仍未检测到 WebView2 运行时"
    );
}

#[test]
fn preparation_before_the_first_page() {
    let (mut p, t) = Prepare::start();
    assert_eq!(next(&t), "Webview2Installed");
    let t = p.step(Reply::Flag(true));
    assert_eq!(effects(&t), vec!["refresh"]);
    assert_eq!(next(&t), "finished ");
    let (mut p, _) = Prepare::start();
    let t = p.step(Reply::Flag(false));
    assert_eq!(effects(&t), vec!["message 需要 WebView2 运行时 false"]);
    assert_eq!(next(&t), "InstallWebview2");
    assert_eq!(effects(&p.step(done())), vec!["refresh"]);
    let (mut p, _) = Prepare::start();
    p.step(Reply::Flag(false));
    let t = p.step(undone("e"));
    assert_eq!(effects(&t), vec!["message WebView2 安装失败 true", "exit 1"]);
    assert_eq!(next(&t), "failed e");
}

#[test]
fn script_runs() {
    let (mut r, t) = RunPs::start("code".to_string(), "S".to_string());
    assert_eq!(next(&t), "WriteFile { path: \"S\", text: \"code\" }");
    assert_eq!(
        next(&r.step(done())),
        "capture powershell -NoProfile -NonInteractive -ExecutionPolicy Bypass -File S"
    );
    let t = r.step(ok("out"));
    assert_eq!(effects(&t), vec!["remove S"]);
    assert_eq!(next(&t), "finished out");
    let (mut r, _) = RunPs::start("code".to_string(), "S".to_string());
    assert_eq!(next(&r.step(undone("e"))), "failed 写入临时脚本失败:e");
    let (mut r, _) = RunPs::start("code".to_string(), "S".to_string());
    r.step(done());
    let t = r.step(err("e"));
    assert_eq!(effects(&t), vec!["remove S"]);
    assert_eq!(next(&t), "failed e");
}

#[test]
fn leaving() {
    let list = |v: Vec<Effect>| v.iter().map(show).collect::<Vec<_>>();
    let keep = Settings { close_stops_dsh: false, auto_update: true };
    let stop = Settings { close_stops_dsh: true, auto_update: true };
    assert_eq!(list(quit_app(&keep, 3080)), vec!["exit 0"]);
    assert_eq!(list(quit_app(&stop, 3080)), vec!["stop 3080", "exit 0"]);
    assert_eq!(list(quit_with_dsh(3080)), vec!["stop 3080", "exit 0"]);
    assert_eq!(
        list(stop_dsh_cmd(3080)),
        vec![
            "stop 3080",
            "navigate http://tauri.localhost/loading.html?mode=stopped",
            "toast dsh 服务已停止",
        ]
    );
}
