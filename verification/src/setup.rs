//! The startup run: it checks the environment, installs what is missing, starts the dsh
//! server and leads the harness page to it.

use crate::protocol::{
    asking, both, effects, ignored, just, none, one, three, turn_ask, turn_failed, turn_finished,
    turn_ignored, turn_just_ask, two, Effect, EffectView, Gate, NextView, Reply, ReplyView, Request,
    RequestView, Turn, TurnView,
};
use crate::server::{server_url, url_of};
use crate::state::{
    active_phase, default_setup_state, failed_setup, initial_setup, set_setup_item, setup_error,
    update_active, with_item, SetupState, SetupView, UpdateState,
};
use crate::text::{decimal, decimal_of, join2, join3};
use vstd::prelude::*;

verus! {

/// What the startup run waits for.
#[derive(Clone, Copy, Debug, PartialEq, Eq, Structural)]
pub enum SetupStage {
    /// Whether the server runs already.
    Running,
    /// Whether Node.js can be used.
    NodeCheck,
    /// The version of Node.js that is there.
    NodeVersion,
    /// The end of the installation of Node.js.
    NodeInstall,
    /// The version of dsh that is there.
    DshCheck,
    /// The end of the installation of dsh.
    DshInstall,
    /// Whether the server runs by now.
    Port,
    /// The server to be started.
    Spawn,
    /// The server to listen.
    Wait,
    /// The log of a server that does not listen.
    Tail,
    Over,
}

/// The startup run.
#[derive(Debug)]
pub struct Setup {
    pub port: u16,
    /// The address of the server.
    pub url: String,
    pub state: SetupState,
    pub stage: SetupStage,
}

/// What the startup run holds.
pub struct RunView {
    pub port: u16,
    pub url: Seq<char>,
    pub state: SetupView,
    pub stage: SetupStage,
}

impl View for Setup {
    type V = RunView;

    open spec fn view(&self) -> RunView {
        RunView { port: self.port, url: self.url@, state: self.state@, stage: self.stage }
    }
}

/// The row `key` is in order.
pub open spec fn row_ok(s: SetupView, key: Seq<char>, detail: Seq<char>) -> SetupView {
    with_item(s, key, "ok"@, detail)
}

/// The row `key` is being checked.
pub open spec fn row_checking(s: SetupView, key: Seq<char>) -> SetupView {
    with_item(s, key, "checking"@, "检测中…"@)
}

/// What the row `key` is about was installed.
pub open spec fn row_installed(s: SetupView, key: Seq<char>, detail: Seq<char>) -> SetupView {
    with_item(s, key, "installed"@, detail)
}

/// What the row `key` is about is being installed.
pub open spec fn row_installing(s: SetupView, key: Seq<char>, message: Seq<char>) -> SetupView {
    SetupView {
        phase: "installing"@,
        message,
        ..with_item(s, key, "installing"@, "正在自动安装…"@)
    }
}

/// The server is being started.
pub open spec fn starting(s: SetupView) -> SetupView {
    SetupView {
        phase: "starting"@,
        message: "正在启动 dsh 服务…"@,
        progress: None,
        ..with_item(s, "service"@, "ok"@, "正在启动…"@)
    }
}

/// The server listens.
pub open spec fn ready(s: SetupView, port: u16) -> SetupView {
    SetupView {
        phase: "ready"@,
        message: "启动完成"@,
        progress: None,
        ..row_installed(s, "service"@, url_of(port))
    }
}

/// The checklist when the server was found running.
pub open spec fn already_running(s: SetupView, port: u16) -> SetupView {
    ready(
        row_ok(
            row_ok(row_ok(s, "webview2"@, "已就绪"@), "node"@, "已就绪"@),
            "dsh"@,
            "已就绪"@,
        ),
        port,
    )
}

/// The run in another state and stage.
pub open spec fn moved(r: RunView, state: SetupView, stage: SetupStage) -> RunView {
    RunView { state, stage, ..r }
}

/// The question for dsh, after some effects; `state` is the checklist so far.
pub open spec fn dsh_check(r: RunView, state: SetupView, list: Seq<EffectView>) -> (
    RunView,
    TurnView,
) {
    let next = row_checking(state, "dsh"@);
    (
        moved(r, next, SetupStage::DshCheck),
        asking(
            list + seq![EffectView::Log("[2/3] 检测 dsh…"@), EffectView::Publish(next)],
            RequestView::DshVersion,
        ),
    )
}

/// The question whether the server runs by now, after some effects; `state` is the
/// checklist so far.
pub open spec fn server_check(r: RunView, state: SetupView, list: Seq<EffectView>) -> (
    RunView,
    TurnView,
) {
    let next = starting(state);
    (
        moved(r, next, SetupStage::Port),
        asking(
            list + seq![EffectView::Log("[3/3] 启动 dsh 服务…"@), EffectView::Publish(next)],
            RequestView::PortOpen(r.port),
        ),
    )
}

/// The end of the run in failure, after some effects.
pub open spec fn setup_failed(
    r: RunView,
    list: Seq<EffectView>,
    key: Seq<char>,
    title: Seq<char>,
    reason: Seq<char>,
) -> (RunView, TurnView) {
    let next = failed_setup(r.state, key, title, reason);
    (
        moved(r, next, SetupStage::Over),
        TurnView {
            effects: list + seq![EffectView::Publish(next)],
            next: NextView::Failed(reason),
        },
    )
}

/// Why the run fails when the server does not listen.
pub open spec fn no_server(port: u16, tail: Seq<char>) -> Seq<char> {
    if tail.len() == 0 {
        "dsh 服务启动失败(端口 "@ + decimal(port as nat) + " 未就绪)"@
    } else {
        "dsh 服务启动失败，最近输出：\n"@ + tail
    }
}

/// The start of the run.
pub open spec fn setup_start(port: u16, url: Seq<char>) -> (RunView, TurnView) {
    (
        RunView { port, url, state: initial_setup(), stage: SetupStage::Running },
        just(NextView::Ask(RequestView::PortOpen(port))),
    )
}

/// One step of the run.
pub open spec fn setup_step(r: RunView, reply: ReplyView) -> (RunView, TurnView) {
    match (r.stage, reply) {
        (SetupStage::Running, ReplyView::Flag(open)) => if open {
            let next = already_running(r.state, r.port);
            (
                moved(r, next, SetupStage::Over),
                TurnView {
                    effects: seq![
                        EffectView::Log("检测到 dsh 服务已在运行，直接连接…"@),
                        EffectView::Publish(next),
                        EffectView::Navigate(r.url),
                    ],
                    next: NextView::Finished(Seq::empty()),
                },
            )
        } else {
            let first = row_ok(r.state, "webview2"@, "已就绪"@);
            let second = row_checking(first, "node"@);
            (
                moved(r, second, SetupStage::NodeCheck),
                asking(
                    seq![
                        EffectView::Publish(r.state),
                        EffectView::Log("开始检查运行环境…"@),
                        EffectView::Publish(first),
                    ] + seq![
                        EffectView::Log("[1/3] 检测 Node.js…"@),
                        EffectView::Publish(second),
                    ],
                    RequestView::NodeAvailable,
                ),
            )
        },
        (SetupStage::NodeCheck, ReplyView::Flag(available)) => if available {
            (
                moved(r, r.state, SetupStage::NodeVersion),
                just(NextView::Ask(RequestView::NodeVersion)),
            )
        } else {
            let next = row_installing(r.state, "node"@, "正在安装 Node.js…"@);
            (
                moved(r, next, SetupStage::NodeInstall),
                asking(
                    seq![
                        EffectView::Log("  未检测到 Node.js，开始自动安装…"@),
                        EffectView::Publish(next),
                    ],
                    RequestView::InstallNode,
                ),
            )
        },
        (SetupStage::NodeVersion, ReplyView::Text(v)) => dsh_check(
            r,
            row_ok(r.state, "node"@, v),
            seq![EffectView::Log("  已就绪("@ + v + ")"@)],
        ),
        (SetupStage::NodeInstall, ReplyView::Captured(Ok(v))) => {
            let next = row_installed(r.state, "node"@, v);
            dsh_check(
                r,
                next,
                seq![
                    EffectView::Log("  Node.js 安装完成("@ + v + ")"@),
                    EffectView::Publish(next),
                ],
            )
        },
        (SetupStage::NodeInstall, ReplyView::Captured(Err(e))) => setup_failed(
            r,
            Seq::empty(),
            "node"@,
            "Node.js 安装失败"@,
            e,
        ),
        (SetupStage::DshCheck, ReplyView::Maybe(Some(v))) => server_check(
            r,
            row_ok(r.state, "dsh"@, "v"@ + v),
            seq![EffectView::Log("  已就绪(v"@ + v + ")"@)],
        ),
        (SetupStage::DshCheck, ReplyView::Maybe(None)) => {
            let next = row_installing(r.state, "dsh"@, "正在安装 dsh…"@);
            (
                moved(r, next, SetupStage::DshInstall),
                asking(
                    seq![
                        EffectView::Log("  未检测到 dsh，开始自动安装…"@),
                        EffectView::Publish(next),
                    ],
                    RequestView::InstallDsh,
                ),
            )
        },
        (SetupStage::DshInstall, ReplyView::Captured(Ok(v))) => {
            let next = row_installed(r.state, "dsh"@, v);
            server_check(
                r,
                next,
                seq![EffectView::Log("  dsh 安装完成("@ + v + ")"@), EffectView::Publish(next)],
            )
        },
        (SetupStage::DshInstall, ReplyView::Captured(Err(e))) => setup_failed(
            r,
            Seq::empty(),
            "dsh"@,
            "dsh 安装失败"@,
            e,
        ),
        (SetupStage::Port, ReplyView::Flag(open)) => if open {
            (
                moved(r, r.state, SetupStage::Wait),
                just(NextView::Ask(RequestView::WaitReady { port: r.port, secs: 180 })),
            )
        } else {
            (
                moved(r, r.state, SetupStage::Spawn),
                just(NextView::Ask(RequestView::SpawnServer(r.port))),
            )
        },
        (SetupStage::Spawn, ReplyView::Done(Ok(_))) => (
            moved(r, r.state, SetupStage::Wait),
            just(NextView::Ask(RequestView::WaitReady { port: r.port, secs: 180 })),
        ),
        (SetupStage::Spawn, ReplyView::Done(Err(e))) => setup_failed(
            r,
            seq![EffectView::Log("  "@ + ("启动 dsh 服务进程失败:"@ + e))],
            "service"@,
            "dsh 服务启动失败"@,
            "启动 dsh 服务进程失败:"@ + e,
        ),
        (SetupStage::Wait, ReplyView::Flag(up)) => if up {
            let next = ready(r.state, r.port);
            (
                moved(r, next, SetupStage::Over),
                TurnView {
                    effects: seq![
                        EffectView::Log("  服务已就绪("@ + url_of(r.port) + ")"@),
                        EffectView::Publish(next),
                        EffectView::Navigate(r.url),
                    ],
                    next: NextView::Finished(Seq::empty()),
                },
            )
        } else {
            (
                moved(r, r.state, SetupStage::Tail),
                just(NextView::Ask(RequestView::LogTail { port: r.port, count: 10 })),
            )
        },
        (SetupStage::Tail, ReplyView::Text(tail)) => setup_failed(
            r,
            seq![EffectView::Log("  "@ + no_server(r.port, tail))],
            "service"@,
            "dsh 服务启动失败"@,
            no_server(r.port, tail),
        ),
        _ => (r, ignored()),
    }
}

fn log(text: &str) -> (r: Effect)
    ensures
        r@ == EffectView::Log(text@),
{
    Effect::Log(text.to_owned())
}

fn log3(a: &str, b: &str, c: &str) -> (r: Effect)
    ensures
        r@ == EffectView::Log(a@ + b@ + c@),
{
    Effect::Log(join3(a, b, c))
}

impl Setup {
    /// Begins the startup run for the server with a port and an address.
    pub fn start(port: u16, url: String) -> (r: (Setup, Turn))
        ensures
            (r.0@, r.1@) == setup_start(port, url@),
    {
        (
            Setup { port, url, state: default_setup_state(), stage: SetupStage::Running },
            turn_just_ask(Request::PortOpen(port)),
        )
    }

    fn publish(&self) -> (r: Effect)
        ensures
            r@ == EffectView::Publish(self@.state),
    {
        Effect::Publish(self.state.clone())
    }

    fn installing(&mut self, key: &str, message: &str)
        ensures
            final(self)@ == moved(
                old(self)@,
                row_installing(old(self)@.state, key@, message@),
                old(self)@.stage,
            ),
    {
        set_setup_item(&mut self.state, key, "installing", "正在自动安装…");
        self.state.phase = "installing".to_owned();
        self.state.message = message.to_owned();
    }

    fn ready(&mut self)
        ensures
            final(self)@ == moved(
                old(self)@,
                ready(old(self)@.state, old(self)@.port),
                SetupStage::Over,
            ),
    {
        let url = server_url(self.port);
        set_setup_item(&mut self.state, "service", "installed", url.as_str());
        self.state.phase = "ready".to_owned();
        self.state.message = "启动完成".to_owned();
        self.state.progress = None;
        self.stage = SetupStage::Over;
    }

    fn check_dsh(&mut self, list: Vec<Effect>) -> (r: Turn)
        ensures
            (final(self)@, r@) == dsh_check(old(self)@, old(self)@.state, effects(list@)),
    {
        set_setup_item(&mut self.state, "dsh", "checking", "检测中…");
        self.stage = SetupStage::DshCheck;
        turn_ask(both(list, two(log("[2/3] 检测 dsh…"), self.publish())), Request::DshVersion)
    }

    fn check_server(&mut self, list: Vec<Effect>) -> (r: Turn)
        ensures
            (final(self)@, r@) == server_check(old(self)@, old(self)@.state, effects(list@)),
    {
        set_setup_item(&mut self.state, "service", "ok", "正在启动…");
        self.state.phase = "starting".to_owned();
        self.state.message = "正在启动 dsh 服务…".to_owned();
        self.state.progress = None;
        self.stage = SetupStage::Port;
        turn_ask(
            both(list, two(log("[3/3] 启动 dsh 服务…"), self.publish())),
            Request::PortOpen(self.port),
        )
    }

    fn fail(&mut self, list: Vec<Effect>, key: &str, title: &str, reason: String) -> (r: Turn)
        ensures
            (final(self)@, r@) == setup_failed(
                old(self)@,
                effects(list@),
                key@,
                title@,
                reason@,
            ),
    {
        setup_error(&mut self.state, key, title, reason.as_str());
        self.stage = SetupStage::Over;
        turn_failed(both(list, one(self.publish())), reason)
    }

    fn begin(&mut self, open: bool) -> (r: Turn)
        requires
            old(self)@.stage == SetupStage::Running,
        ensures
            (final(self)@, r@) == setup_step(old(self)@, ReplyView::Flag(open)),
    {
        if open {
            set_setup_item(&mut self.state, "webview2", "ok", "已就绪");
            set_setup_item(&mut self.state, "node", "ok", "已就绪");
            set_setup_item(&mut self.state, "dsh", "ok", "已就绪");
            self.ready();
            turn_finished(
                three(
                    log("检测到 dsh 服务已在运行，直接连接…"),
                    self.publish(),
                    Effect::Navigate(self.url.clone()),
                ),
                String::new(),
            )
        } else {
            let first = self.publish();
            set_setup_item(&mut self.state, "webview2", "ok", "已就绪");
            let second = self.publish();
            set_setup_item(&mut self.state, "node", "checking", "检测中…");
            self.stage = SetupStage::NodeCheck;
            turn_ask(
                both(
                    three(first, log("开始检查运行环境…"), second),
                    two(log("[1/3] 检测 Node.js…"), self.publish()),
                ),
                Request::NodeAvailable,
            )
        }
    }

    /// Takes the reply to what was asked last and goes on.
    pub fn step(&mut self, reply: Reply) -> (r: Turn)
        ensures
            (final(self)@, r@) == setup_step(old(self)@, reply@),
    {
        match (self.stage, reply) {
            (SetupStage::Running, Reply::Flag(open)) => self.begin(open),
            (SetupStage::NodeCheck, Reply::Flag(available)) => {
                if available {
                    self.stage = SetupStage::NodeVersion;
                    turn_just_ask(Request::NodeVersion)
                } else {
                    self.installing("node", "正在安装 Node.js…");
                    self.stage = SetupStage::NodeInstall;
                    turn_ask(
                        two(log("  未检测到 Node.js，开始自动安装…"), self.publish()),
                        Request::InstallNode,
                    )
                }
            },
            (SetupStage::NodeVersion, Reply::Text(v)) => {
                set_setup_item(&mut self.state, "node", "ok", v.as_str());
                self.check_dsh(one(log3("  已就绪(", v.as_str(), ")")))
            },
            (SetupStage::NodeInstall, Reply::Captured(Ok(v))) => {
                set_setup_item(&mut self.state, "node", "installed", v.as_str());
                let list = two(log3("  Node.js 安装完成(", v.as_str(), ")"), self.publish());
                self.check_dsh(list)
            },
            (SetupStage::NodeInstall, Reply::Captured(Err(e))) => {
                self.fail(none(), "node", "Node.js 安装失败", e)
            },
            (SetupStage::DshCheck, Reply::Maybe(Some(v))) => {
                let detail = join2("v", v.as_str());
                set_setup_item(&mut self.state, "dsh", "ok", detail.as_str());
                self.check_server(one(log3("  已就绪(v", v.as_str(), ")")))
            },
            (SetupStage::DshCheck, Reply::Maybe(None)) => {
                self.installing("dsh", "正在安装 dsh…");
                self.stage = SetupStage::DshInstall;
                turn_ask(
                    two(log("  未检测到 dsh，开始自动安装…"), self.publish()),
                    Request::InstallDsh,
                )
            },
            (SetupStage::DshInstall, Reply::Captured(Ok(v))) => {
                set_setup_item(&mut self.state, "dsh", "installed", v.as_str());
                let list = two(log3("  dsh 安装完成(", v.as_str(), ")"), self.publish());
                self.check_server(list)
            },
            (SetupStage::DshInstall, Reply::Captured(Err(e))) => {
                self.fail(none(), "dsh", "dsh 安装失败", e)
            },
            (SetupStage::Port, Reply::Flag(open)) => {
                if open {
                    self.stage = SetupStage::Wait;
                    turn_just_ask(Request::WaitReady { port: self.port, secs: 180 })
                } else {
                    self.stage = SetupStage::Spawn;
                    turn_just_ask(Request::SpawnServer(self.port))
                }
            },
            (SetupStage::Spawn, Reply::Done(Ok(_))) => {
                self.stage = SetupStage::Wait;
                turn_just_ask(Request::WaitReady { port: self.port, secs: 180 })
            },
            (SetupStage::Spawn, Reply::Done(Err(e))) => {
                let reason = join2("启动 dsh 服务进程失败:", e.as_str());
                let line = Effect::Log(join2("  ", reason.as_str()));
                self.fail(one(line), "service", "dsh 服务启动失败", reason)
            },
            (SetupStage::Wait, Reply::Flag(up)) => {
                if up {
                    self.ready();
                    let url = server_url(self.port);
                    turn_finished(
                        three(
                            log3("  服务已就绪(", url.as_str(), ")"),
                            self.publish(),
                            Effect::Navigate(self.url.clone()),
                        ),
                        String::new(),
                    )
                } else {
                    self.stage = SetupStage::Tail;
                    turn_just_ask(Request::LogTail { port: self.port, count: 10 })
                }
            },
            (SetupStage::Tail, Reply::Text(tail)) => {
                let reason = if tail.as_str().is_empty() {
                    join3(
                        "dsh 服务启动失败(端口 ",
                        decimal_of(self.port as u64).as_str(),
                        " 未就绪)",
                    )
                } else {
                    join2("dsh 服务启动失败，最近输出：\n", tail.as_str())
                };
                let line = Effect::Log(join2("  ", reason.as_str()));
                self.fail(one(line), "service", "dsh 服务启动失败", reason)
            },
            _ => turn_ignored(),
        }
    }
}

// ---- one run at a time ----

/// Claims the startup run. It is granted unless a run is under way, and a run is under
/// way after it.
pub fn setup_and_start(running: &mut bool) -> (r: bool)
    ensures
        r == !*old(running),
        *final(running),
{
    if *running {
        return false;
    }
    *running = true;
    true
}

/// Gives the startup run back. A run that has ended well is followed by the look for
/// updates.
pub fn setup_ended(running: &mut bool, ok: bool) -> (r: bool)
    ensures
        !*final(running),
        r == ok,
{
    *running = false;
    ok
}

/// The command to try the startup run once more. It is refused while an update or a
/// startup run is under way.
pub fn retry_setup(setup_running: bool, state: &UpdateState) -> (r: Gate)
    ensures
        r.go == (!setup_running && !active_phase(state@.phase)),
        effects(r.effects@) == if active_phase(state@.phase) {
            seq![EffectView::Toast("更新正在进行中，请稍后再试"@)]
        } else if setup_running {
            seq![EffectView::Toast("环境检测/安装正在进行中"@)]
        } else {
            Seq::empty()
        },
{
    if update_active(state) {
        return Gate {
            effects: one(Effect::Toast("更新正在进行中，请稍后再试".to_owned())),
            go: false,
        };
    }
    if setup_running {
        return Gate {
            effects: one(Effect::Toast("环境检测/安装正在进行中".to_owned())),
            go: false,
        };
    }
    Gate { effects: none(), go: true }
}

} // verus!
