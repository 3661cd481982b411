//! dsh itself: its installation, its update and its restart.

use crate::command::{
    npm_install, npm_install_command, npm_install_prefix, npm_install_prefix_command, npm_list,
    npm_list_command, npm_view, npm_view_command,
};
use crate::npm::{listed_version, parse_listing};
use crate::outside::{parse_url, url_form};
use crate::protocol::{
    asking, effects, ignored, just, none, one, turn_ask, turn_failed, turn_finished, turn_ignored,
    turn_just_ask, two, Effect, EffectView, Gate, NextView, Reply, ReplyView, Request, RequestView,
    Turn, TurnView,
};
use crate::scripts::{add_path_script, add_user_path};
use crate::state::{
    active_phase, failed_update, maybe_text, plain_update, result_text, update_active, update_error,
    update_in, update_to, version_update, UpdateState,
};
use crate::text::{join2, join3, same, trim, trimmed};
use vstd::prelude::*;

verus! {

// ---- installation ----

/// What the installation of dsh waits for.
#[derive(Clone, Copy, Debug, PartialEq, Eq, Structural)]
pub enum InstallDshStage {
    /// The end of the global installation.
    Global,
    /// The version that was installed globally.
    GlobalVersion,
    /// The user's directory to be created.
    Directory,
    /// The end of the installation into the user's directory.
    User,
    /// The version that was installed into the user's directory.
    UserVersion,
    Over,
}

/// The installation of dsh: globally, else into the user's directory.
#[derive(Debug)]
pub struct InstallDsh {
    /// The npm prefix in the user's directory.
    pub prefix: String,
    /// Why the global installation failed, once it has.
    pub error: String,
    pub stage: InstallDshStage,
}

/// What the installation of dsh holds.
pub struct InstallDshView {
    pub prefix: Seq<char>,
    pub error: Seq<char>,
    pub stage: InstallDshStage,
}

impl View for InstallDsh {
    type V = InstallDshView;

    open spec fn view(&self) -> InstallDshView {
        InstallDshView { prefix: self.prefix@, error: self.error@, stage: self.stage }
    }
}

/// The version in words; "unknown" where it could not be found.
pub open spec fn known(version: Option<Seq<char>>) -> Seq<char> {
    match version {
        Some(v) => v,
        None => "unknown"@,
    }
}

/// The start of the installation.
pub open spec fn install_dsh_start(prefix: Seq<char>) -> (InstallDshView, TurnView) {
    (
        InstallDshView { prefix, error: Seq::empty(), stage: InstallDshStage::Global },
        asking(
            seq![
                EffectView::Log(
                    "    正在运行 npm install -g @deepseek-ai/dsh@latest（可能需要几分钟）…"@,
                ),
            ],
            RequestView::Capture(npm_install()),
        ),
    )
}

/// One step of the installation.
pub open spec fn install_dsh_step(d: InstallDshView, reply: ReplyView) -> (InstallDshView, TurnView) {
    match (d.stage, reply) {
        (InstallDshStage::Global, ReplyView::Captured(Ok(_))) => (
            InstallDshView { stage: InstallDshStage::GlobalVersion, ..d },
            just(NextView::Ask(RequestView::DshVersion)),
        ),
        (InstallDshStage::GlobalVersion, ReplyView::Maybe(v)) => (
            InstallDshView { stage: InstallDshStage::Over, ..d },
            TurnView { effects: Seq::empty(), next: NextView::Finished("v"@ + known(v)) },
        ),
        (InstallDshStage::Global, ReplyView::Captured(Err(e))) => (
            InstallDshView { error: e, stage: InstallDshStage::Directory, ..d },
            asking(
                seq![EffectView::Log("    全局安装失败("@ + e + ")，改用用户目录安装…"@)],
                RequestView::CreateDir(d.prefix),
            ),
        ),
        (InstallDshStage::Directory, ReplyView::Done(Ok(_))) => (
            InstallDshView { stage: InstallDshStage::User, ..d },
            just(NextView::Ask(RequestView::Capture(npm_install_prefix(d.prefix)))),
        ),
        (InstallDshStage::Directory, ReplyView::Done(Err(_))) => (
            InstallDshView { stage: InstallDshStage::Over, ..d },
            TurnView {
                effects: Seq::empty(),
                next: NextView::Failed("无法创建用户目录 "@ + d.prefix),
            },
        ),
        (InstallDshStage::User, ReplyView::Captured(Ok(_))) => (
            InstallDshView { stage: InstallDshStage::UserVersion, ..d },
            asking(
                seq![EffectView::RunScript(add_path_script(d.prefix)), EffectView::RefreshPath],
                RequestView::DshVersion,
            ),
        ),
        (InstallDshStage::User, ReplyView::Captured(Err(e))) => (
            InstallDshView { stage: InstallDshStage::Over, ..d },
            TurnView {
                effects: Seq::empty(),
                next: NextView::Failed(
                    "全局安装失败("@ + d.error + ")，用户目录安装也失败("@ + e + ")"@,
                ),
            },
        ),
        (InstallDshStage::UserVersion, ReplyView::Maybe(v)) => (
            InstallDshView { stage: InstallDshStage::Over, ..d },
            TurnView {
                effects: Seq::empty(),
                next: NextView::Finished("v"@ + known(v) + "(用户目录)"@),
            },
        ),
        _ => (d, ignored()),
    }
}

fn known_version(version: Option<String>) -> (r: String)
    ensures
        r@ == known(maybe_text(version)),
{
    match version {
        Some(v) => v,
        None => "unknown".to_owned(),
    }
}

impl InstallDsh {
    /// Begins the installation of dsh; `prefix` is the npm prefix in the user's directory.
    pub fn start(prefix: String) -> (r: (InstallDsh, Turn))
        ensures
            (r.0@, r.1@) == install_dsh_start(prefix@),
    {
        (
            InstallDsh { prefix, error: String::new(), stage: InstallDshStage::Global },
            turn_ask(
                one(
                    Effect::Log(
                        "    正在运行 npm install -g @deepseek-ai/dsh@latest（可能需要几分钟）…".to_owned(),
                    ),
                ),
                Request::Capture(npm_install_command()),
            ),
        )
    }

    /// Takes the reply to what was asked last and goes on.
    pub fn step(&mut self, reply: Reply) -> (r: Turn)
        ensures
            (final(self)@, r@) == install_dsh_step(old(self)@, reply@),
    {
        match (self.stage, reply) {
            (InstallDshStage::Global, Reply::Captured(Ok(_))) => {
                self.stage = InstallDshStage::GlobalVersion;
                turn_just_ask(Request::DshVersion)
            },
            (InstallDshStage::GlobalVersion, Reply::Maybe(v)) => {
                self.stage = InstallDshStage::Over;
                turn_finished(none(), join2("v", known_version(v).as_str()))
            },
            (InstallDshStage::Global, Reply::Captured(Err(e))) => {
                let note = join3("    全局安装失败(", e.as_str(), ")，改用用户目录安装…");
                self.error = e;
                self.stage = InstallDshStage::Directory;
                turn_ask(one(Effect::Log(note)), Request::CreateDir(self.prefix.clone()))
            },
            (InstallDshStage::Directory, Reply::Done(Ok(_))) => {
                self.stage = InstallDshStage::User;
                turn_just_ask(Request::Capture(npm_install_prefix_command(self.prefix.as_str())))
            },
            (InstallDshStage::Directory, Reply::Done(Err(_))) => {
                self.stage = InstallDshStage::Over;
                turn_failed(none(), join2("无法创建用户目录 ", self.prefix.as_str()))
            },
            (InstallDshStage::User, Reply::Captured(Ok(_))) => {
                self.stage = InstallDshStage::UserVersion;
                turn_ask(
                    two(
                        Effect::RunScript(add_user_path(self.prefix.as_str())),
                        Effect::RefreshPath,
                    ),
                    Request::DshVersion,
                )
            },
            (InstallDshStage::User, Reply::Captured(Err(e))) => {
                self.stage = InstallDshStage::Over;
                turn_failed(
                    none(),
                    join3("全局安装失败(", self.error.as_str(), ")，用户目录安装也失败(").concat(
                        e.as_str(),
                    ).concat(")"),
                )
            },
            (InstallDshStage::UserVersion, Reply::Maybe(v)) => {
                self.stage = InstallDshStage::Over;
                turn_finished(none(), join3("v", known_version(v).as_str(), "(用户目录)"))
            },
            _ => turn_ignored(),
        }
    }
}

// ---- update ----

/// What the update of dsh waits for.
#[derive(Clone, Copy, Debug, PartialEq, Eq, Structural)]
pub enum UpdateDshStage {
    /// The version that is installed.
    Current,
    /// The newest version.
    Latest,
    /// The end of the installation.
    Install,
    /// The server to be started.
    Spawn,
    /// The server to listen.
    Wait,
    Over,
}

/// The update of dsh.
#[derive(Debug)]
pub struct UpdateDsh {
    pub port: u16,
    /// The address of the server.
    pub url: String,
    /// The version that is installed, where there is one.
    pub current: Option<String>,
    /// The newest version, once it is known.
    pub latest: String,
    pub stage: UpdateDshStage,
}

/// What the update of dsh holds.
pub struct UpdateDshView {
    pub port: u16,
    pub url: Seq<char>,
    pub current: Option<Seq<char>>,
    pub latest: Seq<char>,
    pub stage: UpdateDshStage,
}

impl View for UpdateDsh {
    type V = UpdateDshView;

    open spec fn view(&self) -> UpdateDshView {
        UpdateDshView {
            port: self.port,
            url: self.url@,
            current: maybe_text(self.current),
            latest: self.latest@,
            stage: self.stage,
        }
    }
}

/// Whether an update that waits for this has put itself on show as under way.
pub open spec fn is_shown(stage: UpdateDshStage) -> bool {
    stage == UpdateDshStage::Install || stage == UpdateDshStage::Spawn || stage
        == UpdateDshStage::Wait
}

/// The start of the update.
pub open spec fn update_dsh_start(port: u16, url: Seq<char>) -> (UpdateDshView, TurnView) {
    (
        UpdateDshView {
            port,
            url,
            current: None,
            latest: Seq::empty(),
            stage: UpdateDshStage::Current,
        },
        just(NextView::Ask(RequestView::Capture(npm_list()))),
    )
}

/// The end of the update in failure.
pub open spec fn update_dsh_failed(d: UpdateDshView, reason: Seq<char>) -> (UpdateDshView, TurnView) {
    (
        UpdateDshView { stage: UpdateDshStage::Over, ..d },
        TurnView { effects: Seq::empty(), next: NextView::Failed(reason) },
    )
}

/// What is said of an update that is done.
pub open spec fn updated_note(current: Option<Seq<char>>, latest: Seq<char>) -> Seq<char> {
    match current {
        Some(c) => "dsh 已更新:v"@ + c + " → v"@ + latest + "，服务已重启"@,
        None => "dsh 已安装 v"@ + latest + "，服务已启动"@,
    }
}

/// One step of the update. Nothing is touched where the newest version is installed
/// already; else the server is stopped before the installation and started after it.
pub open spec fn update_dsh_step(d: UpdateDshView, reply: ReplyView) -> (UpdateDshView, TurnView) {
    match (d.stage, reply) {
        (UpdateDshStage::Current, ReplyView::Captured(out)) => (
            UpdateDshView { current: listed_version(out), stage: UpdateDshStage::Latest, ..d },
            just(NextView::Ask(RequestView::Capture(npm_view()))),
        ),
        (UpdateDshStage::Latest, ReplyView::Captured(Err(e))) => update_dsh_failed(d, e),
        (UpdateDshStage::Latest, ReplyView::Captured(Ok(out))) => {
            let latest = trim(out);
            if latest.len() == 0 {
                update_dsh_failed(d, "无法获取最新版本"@)
            } else if d.current == Some(latest) {
                (
                    UpdateDshView { latest, stage: UpdateDshStage::Over, ..d },
                    TurnView {
                        effects: Seq::empty(),
                        next: NextView::Finished("dsh 已是最新版本(v"@ + latest + ")"@),
                    },
                )
            } else {
                (
                    UpdateDshView { latest, stage: UpdateDshStage::Install, ..d },
                    asking(
                        seq![
                            EffectView::PublishUpdate(
                                version_update(
                                    "installing"@,
                                    "正在安装 dsh v"@ + latest + "…"@,
                                    latest,
                                ),
                            ),
                            EffectView::StopServer(d.port),
                        ],
                        RequestView::Capture(npm_install()),
                    ),
                )
            }
        },
        (UpdateDshStage::Install, ReplyView::Captured(Err(e))) => update_dsh_failed(
            d,
            "安装失败:"@ + e,
        ),
        (UpdateDshStage::Install, ReplyView::Captured(Ok(_))) => (
            UpdateDshView { stage: UpdateDshStage::Spawn, ..d },
            asking(
                seq![
                    EffectView::PublishUpdate(
                        version_update("restarting"@, "正在重启 dsh 服务…"@, d.latest),
                    ),
                ],
                RequestView::SpawnServer(d.port),
            ),
        ),
        (UpdateDshStage::Spawn, ReplyView::Done(Err(e))) => update_dsh_failed(
            d,
            "更新完成但 dsh 启动失败:"@ + e,
        ),
        (UpdateDshStage::Spawn, ReplyView::Done(Ok(_))) => (
            UpdateDshView { stage: UpdateDshStage::Wait, ..d },
            just(NextView::Ask(RequestView::WaitPort { port: d.port, secs: 60 })),
        ),
        (UpdateDshStage::Wait, ReplyView::Flag(open)) => (
            UpdateDshView { stage: UpdateDshStage::Over, ..d },
            TurnView {
                effects: if open {
                    seq![EffectView::Navigate(d.url)]
                } else {
                    Seq::empty()
                },
                next: NextView::Finished(updated_note(d.current, d.latest)),
            },
        ),
        _ => (d, ignored()),
    }
}

impl UpdateDsh {
    /// Begins the update of dsh, whose server has a port and an address.
    pub fn start(port: u16, url: String) -> (r: (UpdateDsh, Turn))
        ensures
            (r.0@, r.1@) == update_dsh_start(port, url@),
    {
        (
            UpdateDsh {
                port,
                url,
                current: None,
                latest: String::new(),
                stage: UpdateDshStage::Current,
            },
            turn_just_ask(Request::Capture(npm_list_command())),
        )
    }

    fn fail(&mut self, reason: String) -> (r: Turn)
        ensures
            (final(self)@, r@) == update_dsh_failed(old(self)@, reason@),
    {
        self.stage = UpdateDshStage::Over;
        turn_failed(none(), reason)
    }

    /// Whether the update has put itself on show as under way.
    pub fn shown(&self) -> (r: bool)
        ensures
            r == is_shown(self@.stage),
    {
        match self.stage {
            UpdateDshStage::Install | UpdateDshStage::Spawn | UpdateDshStage::Wait => true,
            _ => false,
        }
    }

    fn is_current(&self, latest: &str) -> (r: bool)
        ensures
            r == (self@.current == Some(latest@)),
    {
        match &self.current {
            Some(c) => same(c.as_str(), latest),
            None => false,
        }
    }

    fn note(&self) -> (r: String)
        ensures
            r@ == updated_note(self@.current, self@.latest),
    {
        match &self.current {
            Some(c) => join3("dsh 已更新:v", c.as_str(), " → v").concat(
                self.latest.as_str(),
            ).concat("，服务已重启"),
            None => join3("dsh 已安装 v", self.latest.as_str(), "，服务已启动"),
        }
    }

    /// Takes the reply to what was asked last and goes on.
    pub fn step(&mut self, reply: Reply) -> (r: Turn)
        ensures
            (final(self)@, r@) == update_dsh_step(old(self)@, reply@),
    {
        match (self.stage, reply) {
            (UpdateDshStage::Current, Reply::Captured(out)) => {
                self.current = parse_listing(&out);
                self.stage = UpdateDshStage::Latest;
                turn_just_ask(Request::Capture(npm_view_command()))
            },
            (UpdateDshStage::Latest, Reply::Captured(Err(e))) => self.fail(e),
            (UpdateDshStage::Latest, Reply::Captured(Ok(out))) => {
                let latest = trimmed(out.as_str());
                if latest.as_str().is_empty() {
                    return self.fail("无法获取最新版本".to_owned());
                }
                if self.is_current(latest.as_str()) {
                    let note = join3("dsh 已是最新版本(v", latest.as_str(), ")");
                    self.latest = latest;
                    self.stage = UpdateDshStage::Over;
                    return turn_finished(none(), note);
                }
                let state = update_to(
                    "installing",
                    join3("正在安装 dsh v", latest.as_str(), "…"),
                    latest.clone(),
                );
                self.latest = latest;
                self.stage = UpdateDshStage::Install;
                turn_ask(
                    two(Effect::PublishUpdate(state), Effect::StopServer(self.port)),
                    Request::Capture(npm_install_command()),
                )
            },
            (UpdateDshStage::Install, Reply::Captured(Err(e))) => {
                self.fail(join2("安装失败:", e.as_str()))
            },
            (UpdateDshStage::Install, Reply::Captured(Ok(_))) => {
                let state = update_to(
                    "restarting",
                    "正在重启 dsh 服务…".to_owned(),
                    self.latest.clone(),
                );
                self.stage = UpdateDshStage::Spawn;
                turn_ask(one(Effect::PublishUpdate(state)), Request::SpawnServer(self.port))
            },
            (UpdateDshStage::Spawn, Reply::Done(Err(e))) => {
                self.fail(join2("更新完成但 dsh 启动失败:", e.as_str()))
            },
            (UpdateDshStage::Spawn, Reply::Done(Ok(_))) => {
                self.stage = UpdateDshStage::Wait;
                turn_just_ask(Request::WaitPort { port: self.port, secs: 60 })
            },
            (UpdateDshStage::Wait, Reply::Flag(open)) => {
                self.stage = UpdateDshStage::Over;
                let list = if open {
                    one(Effect::Navigate(self.url.clone()))
                } else {
                    none()
                };
                let note = self.note();
                turn_finished(list, note)
            },
            _ => turn_ignored(),
        }
    }
}

/// The command to update dsh. It is refused while the startup run or another update is
/// under way.
pub fn update_dsh(setup_running: bool, state: &UpdateState) -> (r: Gate)
    ensures
        r.go == (!setup_running && !active_phase(state@.phase)),
        effects(r.effects@) == if setup_running {
            seq![EffectView::Toast("环境检测/安装正在进行中，请稍后再试"@)]
        } else if active_phase(state@.phase) {
            seq![EffectView::Toast("已有更新正在进行"@)]
        } else {
            seq![EffectView::PublishUpdate(plain_update("checking"@, "正在检查 dsh 版本…"@))]
        },
{
    if setup_running {
        return Gate {
            effects: one(Effect::Toast("环境检测/安装正在进行中，请稍后再试".to_owned())),
            go: false,
        };
    }
    if update_active(state) {
        return Gate { effects: one(Effect::Toast("已有更新正在进行".to_owned())), go: false };
    }
    Gate {
        effects: one(
            Effect::PublishUpdate(update_in("checking", "正在检查 dsh 版本…".to_owned())),
        ),
        go: true,
    }
}

/// What is shown of an update of dsh that has ended.
pub open spec fn dsh_outcome(outcome: Result<Seq<char>, Seq<char>>) -> Seq<EffectView> {
    match outcome {
        Ok(note) => seq![
            EffectView::PublishUpdate(plain_update("done"@, note)),
            EffectView::Toast(note),
        ],
        Err(e) => seq![
            EffectView::PublishUpdate(failed_update("dsh 更新失败"@, e)),
            EffectView::Toast("dsh 更新失败:"@ + e),
        ],
    }
}

/// What is shown of an update of dsh that has ended.
pub fn update_dsh_ended(outcome: Result<String, String>) -> (r: Vec<Effect>)
    ensures
        effects(r@) == dsh_outcome(result_text(outcome)),
{
    match outcome {
        Ok(note) => {
            let state = update_in("done", note.clone());
            two(Effect::PublishUpdate(state), Effect::Toast(note))
        },
        Err(e) => {
            let state = update_error("dsh 更新失败", e.as_str());
            two(Effect::PublishUpdate(state), Effect::Toast(join2("dsh 更新失败:", e.as_str())))
        },
    }
}

// ---- restart ----

/// What the restart of the server waits for.
#[derive(Clone, Copy, Debug, PartialEq, Eq, Structural)]
pub enum RestartStage {
    /// The server to be started.
    Spawn,
    /// The server to listen.
    Wait,
    /// The log of a server that does not listen.
    Tail,
    Over,
}

/// The restart of the server.
#[derive(Debug)]
pub struct Restart {
    pub port: u16,
    /// The address of the server.
    pub url: String,
    pub stage: RestartStage,
}

/// What the restart holds.
pub struct RestartView {
    pub port: u16,
    pub url: Seq<char>,
    pub stage: RestartStage,
}

impl View for Restart {
    type V = RestartView;

    open spec fn view(&self) -> RestartView {
        RestartView { port: self.port, url: self.url@, stage: self.stage }
    }
}

/// The start of the restart: the server is stopped and started again.
pub open spec fn restart_start(port: u16, url: Seq<char>) -> (RestartView, TurnView) {
    (
        RestartView { port, url, stage: RestartStage::Spawn },
        asking(
            seq![EffectView::Toast("正在重启dsh服务..."@), EffectView::StopServer(port)],
            RequestView::SpawnServer(port),
        ),
    )
}

/// What is said of a server that does not listen.
pub open spec fn not_started_note(tail: Seq<char>) -> Seq<char> {
    if tail.len() == 0 {
        "dsh 服务未能启动，请稍后重试"@
    } else {
        "dsh 服务未能启动，最近输出："@ + tail
    }
}

/// One step of the restart.
pub open spec fn restart_step(r: RestartView, reply: ReplyView) -> (RestartView, TurnView) {
    match (r.stage, reply) {
        (RestartStage::Spawn, ReplyView::Done(Ok(_))) => (
            RestartView { stage: RestartStage::Wait, ..r },
            asking(
                seq![EffectView::Toast("dsh服务已重启"@)],
                RequestView::WaitReady { port: r.port, secs: 60 },
            ),
        ),
        (RestartStage::Spawn, ReplyView::Done(Err(e))) => (
            RestartView { stage: RestartStage::Over, ..r },
            TurnView {
                effects: seq![EffectView::Toast("failed to respawn dsh web server: "@ + e)],
                next: NextView::Failed(e),
            },
        ),
        (RestartStage::Wait, ReplyView::Flag(ready)) => if ready {
            (
                RestartView { stage: RestartStage::Over, ..r },
                TurnView {
                    effects: seq![EffectView::Navigate(r.url)],
                    next: NextView::Finished(Seq::empty()),
                },
            )
        } else {
            (
                RestartView { stage: RestartStage::Tail, ..r },
                just(NextView::Ask(RequestView::LogTail { port: r.port, count: 6 })),
            )
        },
        (RestartStage::Tail, ReplyView::Text(tail)) => (
            RestartView { stage: RestartStage::Over, ..r },
            TurnView {
                effects: seq![EffectView::Toast(not_started_note(tail))],
                next: NextView::Failed(not_started_note(tail)),
            },
        ),
        _ => (r, ignored()),
    }
}

impl Restart {
    /// Begins the restart of the server, which has a port and an address.
    pub fn start(port: u16, url: String) -> (r: (Restart, Turn))
        ensures
            (r.0@, r.1@) == restart_start(port, url@),
    {
        (
            Restart { port, url, stage: RestartStage::Spawn },
            turn_ask(
                two(
                    Effect::Toast("正在重启dsh服务...".to_owned()),
                    Effect::StopServer(port),
                ),
                Request::SpawnServer(port),
            ),
        )
    }

    /// Takes the reply to what was asked last and goes on.
    pub fn step(&mut self, reply: Reply) -> (r: Turn)
        ensures
            (final(self)@, r@) == restart_step(old(self)@, reply@),
    {
        match (self.stage, reply) {
            (RestartStage::Spawn, Reply::Done(Ok(_))) => {
                self.stage = RestartStage::Wait;
                turn_ask(
                    one(Effect::Toast("dsh服务已重启".to_owned())),
                    Request::WaitReady { port: self.port, secs: 60 },
                )
            },
            (RestartStage::Spawn, Reply::Done(Err(e))) => {
                self.stage = RestartStage::Over;
                turn_failed(
                    one(
                        Effect::Toast(join2("failed to respawn dsh web server: ", e.as_str())),
                    ),
                    e,
                )
            },
            (RestartStage::Wait, Reply::Flag(ready)) => {
                if ready {
                    self.stage = RestartStage::Over;
                    turn_finished(one(Effect::Navigate(self.url.clone())), String::new())
                } else {
                    self.stage = RestartStage::Tail;
                    turn_just_ask(Request::LogTail { port: self.port, count: 6 })
                }
            },
            (RestartStage::Tail, Reply::Text(tail)) => {
                self.stage = RestartStage::Over;
                let note = if tail.as_str().is_empty() {
                    "dsh 服务未能启动，请稍后重试".to_owned()
                } else {
                    join2("dsh 服务未能启动，最近输出：", tail.as_str())
                };
                turn_failed(one(Effect::Toast(note.clone())), note)
            },
            _ => turn_ignored(),
        }
    }
}

/// Where the harness page is led by an address: to its normal form, or nowhere where the
/// text is no address.
pub fn navigate_to(url: &str) -> (r: Option<String>)
    ensures
        maybe_text(r) == url_form(url@),
{
    parse_url(url)
}

} // verus!
