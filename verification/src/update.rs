//! The update of the desktop application, and the look for updates after startup.

use crate::command::{npm_view, npm_view_command};
use crate::dsh::{
    is_shown, update_dsh_start, update_dsh_step, UpdateDsh, UpdateDshStage, UpdateDshView,
};
use crate::npm::{npm_latest_dsh, trimmed_output};
use crate::outside::fits;
use crate::protocol::{
    asking, both, effects, ignored, just, none, one, turn_ask, turn_failed, turn_finished,
    turn_ignored, turn_just_ask, two, DownloadKind, Effect, EffectView, KindView, Next, NextView,
    Reply, ReplyView, Request, RequestView, Turn, TurnView,
};
use crate::release::{
    bare_version, dsh_outdated, lemma_plain_shorter, newer, newer_version, plain_version,
    release_error, release_fits, release_note, should_update_dsh,
};
use crate::scripts::{swap_script, swap_text};
use crate::state::{
    active_phase, failed_update, maybe_text, measured_update, plain_update, unit_text,
    update_active, update_at, update_error, update_in, Progress, Settings, UpdateState,
};
use crate::text::{join2, lemma_trim_shorter};
use vstd::prelude::*;

verus! {

// ---- the application ----

/// The command to update the application. It is refused while another update is under way.
pub fn update_app(state: &UpdateState) -> (r: Result<(), String>)
    ensures
        unit_text(r) == if active_phase(state@.phase) {
            Err("已有更新正在进行"@)
        } else {
            Ok(())
        },
{
    if update_active(state) {
        return Err("已有更新正在进行".to_owned());
    }
    Ok(())
}

/// What is shown of an update of the application that the user has asked for and that
/// has failed.
pub fn update_app_failed(reason: &str) -> (r: UpdateState)
    ensures
        r@ == failed_update("更新失败"@, reason@),
{
    update_error("更新失败", reason)
}

/// What the update of the application waits for.
#[derive(Clone, Copy, Debug, PartialEq, Eq, Structural)]
pub enum UpdateAppStage {
    /// The newest release.
    Release,
    /// The executable that runs.
    Exe,
    /// The end of the download.
    Download,
    /// The path of the helper's log.
    LogPath,
    /// The path of the helper.
    HelperPath,
    /// The helper to be written.
    Write,
    Over,
}

/// The update of the application: the new executable is downloaded, and a helper that
/// outlives this process puts it in place and starts it.
#[derive(Debug)]
pub struct UpdateApp {
    /// The address of the new executable, once it is known.
    pub asset: String,
    /// The file name of the executable that runs, once it is known.
    pub exe: String,
    /// The path of the executable that runs, once it is known.
    pub target: String,
    /// The path of the new executable, once it has arrived.
    pub tmp: String,
    /// The path of the helper's log, once it is known.
    pub log: String,
    /// The path of the helper, once it is known.
    pub helper: String,
    pub stage: UpdateAppStage,
}

/// What the update of the application holds.
pub struct UpdateAppView {
    pub asset: Seq<char>,
    pub exe: Seq<char>,
    pub target: Seq<char>,
    pub tmp: Seq<char>,
    pub log: Seq<char>,
    pub helper: Seq<char>,
    pub stage: UpdateAppStage,
}

impl View for UpdateApp {
    type V = UpdateAppView;

    open spec fn view(&self) -> UpdateAppView {
        UpdateAppView {
            asset: self.asset@,
            exe: self.exe@,
            target: self.target@,
            tmp: self.tmp@,
            log: self.log@,
            helper: self.helper@,
            stage: self.stage,
        }
    }
}

/// The start of the update.
pub open spec fn update_app_start() -> (UpdateAppView, TurnView) {
    (
        UpdateAppView {
            asset: Seq::empty(),
            exe: Seq::empty(),
            target: Seq::empty(),
            tmp: Seq::empty(),
            log: Seq::empty(),
            helper: Seq::empty(),
            stage: UpdateAppStage::Release,
        },
        asking(
            seq![EffectView::PublishUpdate(plain_update("checking"@, "正在获取版本信息…"@))],
            RequestView::FetchRelease,
        ),
    )
}

/// The end of the update in failure.
pub open spec fn update_app_ended(u: UpdateAppView, reason: Seq<char>) -> (UpdateAppView, TurnView) {
    (
        UpdateAppView { stage: UpdateAppStage::Over, ..u },
        TurnView { effects: Seq::empty(), next: NextView::Failed(reason) },
    )
}

/// The file name of the executable; the usual one where it has none that is text.
pub open spec fn exe_name(name: Option<Seq<char>>) -> Seq<char> {
    match name {
        Some(n) => n,
        None => "deepseek-harness.exe"@,
    }
}

/// One step of the update.
pub open spec fn update_app_step(u: UpdateAppView, reply: ReplyView) -> (UpdateAppView, TurnView) {
    match (u.stage, reply) {
        (UpdateAppStage::Release, ReplyView::Release(Err(e))) => update_app_ended(
            u,
            release_note(e),
        ),
        (UpdateAppStage::Release, ReplyView::Release(Ok(r))) => if r.asset_url.len() == 0 {
            update_app_ended(u, "该发布中没有可用的 exe 更新包"@)
        } else {
            (
                UpdateAppView { asset: r.asset_url, stage: UpdateAppStage::Exe, ..u },
                just(NextView::Ask(RequestView::CurrentExe)),
            )
        },
        (UpdateAppStage::Exe, ReplyView::Exe(Err(e))) => update_app_ended(
            u,
            "无法定位当前程序路径:"@ + e,
        ),
        (UpdateAppStage::Exe, ReplyView::Exe(Ok(x))) => (
            UpdateAppView {
                exe: exe_name(x.name),
                target: x.path,
                stage: UpdateAppStage::Download,
                ..u
            },
            just(
                NextView::Ask(
                    RequestView::Download {
                        url: u.asset,
                        file: exe_name(x.name) + ".update.exe"@,
                        log_name: Some(exe_name(x.name) + ".download-error.log"@),
                        kind: KindView::AppUpdate,
                    },
                ),
            ),
        ),
        (UpdateAppStage::Download, ReplyView::Captured(Err(e))) => update_app_ended(u, e),
        (UpdateAppStage::Download, ReplyView::Captured(Ok(path))) => (
            UpdateAppView { tmp: path, stage: UpdateAppStage::LogPath, ..u },
            asking(
                seq![
                    EffectView::PublishUpdate(
                        measured_update(
                            "finalizing"@,
                            "正在替换程序并重启…"@,
                            Progress::Complete,
                        ),
                    ),
                ],
                RequestView::TempPath(u.exe + ".update-helper.log"@),
            ),
        ),
        (UpdateAppStage::LogPath, ReplyView::Text(path)) => (
            UpdateAppView { log: path, stage: UpdateAppStage::HelperPath, ..u },
            just(NextView::Ask(RequestView::TempPath(u.exe + ".update-helper.bat"@))),
        ),
        (UpdateAppStage::HelperPath, ReplyView::Text(path)) => (
            UpdateAppView { helper: path, stage: UpdateAppStage::Write, ..u },
            just(
                NextView::Ask(
                    RequestView::WriteFile {
                        path,
                        text: swap_text(u.exe, u.tmp, u.target, u.log),
                    },
                ),
            ),
        ),
        (UpdateAppStage::Write, ReplyView::Done(Err(e))) => update_app_ended(
            u,
            "写入更新脚本失败:"@ + e,
        ),
        (UpdateAppStage::Write, ReplyView::Done(Ok(_))) => (
            UpdateAppView { stage: UpdateAppStage::Over, ..u },
            TurnView {
                effects: seq![EffectView::LaunchHelper(u.helper), EffectView::Exit(0)],
                next: NextView::Finished(Seq::empty()),
            },
        ),
        _ => (u, ignored()),
    }
}

impl UpdateApp {
    /// Begins the update of the application.
    pub fn start() -> (r: (UpdateApp, Turn))
        ensures
            (r.0@, r.1@) == update_app_start(),
    {
        (
            UpdateApp {
                asset: String::new(),
                exe: String::new(),
                target: String::new(),
                tmp: String::new(),
                log: String::new(),
                helper: String::new(),
                stage: UpdateAppStage::Release,
            },
            turn_ask(
                one(
                    Effect::PublishUpdate(
                        update_in("checking", "正在获取版本信息…".to_owned()),
                    ),
                ),
                Request::FetchRelease,
            ),
        )
    }

    fn fail(&mut self, reason: String) -> (r: Turn)
        ensures
            (final(self)@, r@) == update_app_ended(old(self)@, reason@),
    {
        self.stage = UpdateAppStage::Over;
        turn_failed(none(), reason)
    }

    /// Takes the reply to what was asked last and goes on.
    pub fn step(&mut self, reply: Reply) -> (r: Turn)
        ensures
            (final(self)@, r@) == update_app_step(old(self)@, reply@),
    {
        match (self.stage, reply) {
            (UpdateAppStage::Release, Reply::Release(Err(e))) => {
                let reason = release_error(e);
                self.fail(reason)
            },
            (UpdateAppStage::Release, Reply::Release(Ok(r))) => {
                if r.asset_url.as_str().is_empty() {
                    return self.fail("该发布中没有可用的 exe 更新包".to_owned());
                }
                self.asset = r.asset_url;
                self.stage = UpdateAppStage::Exe;
                turn_just_ask(Request::CurrentExe)
            },
            (UpdateAppStage::Exe, Reply::Exe(Err(e))) => {
                self.fail(join2("无法定位当前程序路径:", e.as_str()))
            },
            (UpdateAppStage::Exe, Reply::Exe(Ok(x))) => {
                let exe = match x.name {
                    Some(n) => n,
                    None => "deepseek-harness.exe".to_owned(),
                };
                let file = join2(exe.as_str(), ".update.exe");
                let log_name = Some(join2(exe.as_str(), ".download-error.log"));
                self.exe = exe;
                self.target = x.path;
                self.stage = UpdateAppStage::Download;
                turn_just_ask(
                    Request::Download {
                        url: self.asset.clone(),
                        file,
                        log_name,
                        kind: DownloadKind::AppUpdate,
                    },
                )
            },
            (UpdateAppStage::Download, Reply::Captured(Err(e))) => self.fail(e),
            (UpdateAppStage::Download, Reply::Captured(Ok(path))) => {
                self.tmp = path;
                self.stage = UpdateAppStage::LogPath;
                turn_ask(
                    one(
                        Effect::PublishUpdate(
                            update_at(
                                "finalizing",
                                "正在替换程序并重启…".to_owned(),
                                Progress::Complete,
                            ),
                        ),
                    ),
                    Request::TempPath(join2(self.exe.as_str(), ".update-helper.log")),
                )
            },
            (UpdateAppStage::LogPath, Reply::Text(path)) => {
                self.log = path;
                self.stage = UpdateAppStage::HelperPath;
                turn_just_ask(Request::TempPath(join2(self.exe.as_str(), ".update-helper.bat")))
            },
            (UpdateAppStage::HelperPath, Reply::Text(path)) => {
                self.helper = path.clone();
                self.stage = UpdateAppStage::Write;
                let text = swap_script(
                    self.exe.as_str(),
                    self.tmp.as_str(),
                    self.target.as_str(),
                    self.log.as_str(),
                );
                turn_just_ask(Request::WriteFile { path, text })
            },
            (UpdateAppStage::Write, Reply::Done(Err(e))) => {
                self.fail(join2("写入更新脚本失败:", e.as_str()))
            },
            (UpdateAppStage::Write, Reply::Done(Ok(_))) => {
                self.stage = UpdateAppStage::Over;
                turn_finished(
                    two(Effect::LaunchHelper(self.helper.clone()), Effect::Exit(0)),
                    String::new(),
                )
            },
            _ => turn_ignored(),
        }
    }
}

// ---- after startup ----

/// Whether the look for updates begins after startup: the user wants it, and neither a
/// startup run nor an update is under way.
pub fn maybe_auto_update(settings: &Settings, setup_running: bool, state: &UpdateState) -> (r: bool)
    ensures
        r == (settings.auto_update && !setup_running && !active_phase(state@.phase)),
{
    settings.auto_update && !setup_running && !update_active(state)
}

/// What the look for updates waits for.
#[derive(Clone, Copy, Debug, PartialEq, Eq, Structural)]
pub enum AutoStage {
    /// The newest release of the application.
    Release,
    /// The end of the update of the application.
    App,
    /// The version of dsh that is installed.
    Installed,
    /// The newest version of dsh.
    Published,
    /// The end of the update of dsh.
    Dsh,
    Over,
}

/// The look for updates: the application is updated where a newer one is released, and
/// dsh where it is missing or a newer one is published.
#[derive(Debug)]
pub struct AutoUpdate {
    /// The version of the application that runs.
    pub current: String,
    /// The version of dsh that is installed, where there is one.
    pub dsh: Option<String>,
    /// The update of dsh, which begins where it is due.
    pub update: UpdateDsh,
    pub stage: AutoStage,
}

/// What the look for updates holds.
pub struct AutoView {
    pub current: Seq<char>,
    pub dsh: Option<Seq<char>>,
    pub update: UpdateDshView,
    pub stage: AutoStage,
}

impl View for AutoUpdate {
    type V = AutoView;

    open spec fn view(&self) -> AutoView {
        AutoView {
            current: self.current@,
            dsh: maybe_text(self.dsh),
            update: self.update@,
            stage: self.stage,
        }
    }
}

impl AutoView {
    /// Whether the versions are short enough to be compared.
    pub open spec fn wf(self) -> bool {
        fits(self.current) && (self.dsh matches Some(v) ==> fits(v))
    }
}

/// Whether the versions in a reply are short enough to be compared.
pub open spec fn reply_fits(reply: ReplyView) -> bool {
    match reply {
        ReplyView::Release(r) => release_fits(r),
        ReplyView::Maybe(Some(v)) => fits(v),
        ReplyView::Captured(Ok(out)) => fits(out),
        _ => true,
    }
}

/// The start of the look for updates.
pub open spec fn auto_start(current: Seq<char>, port: u16, url: Seq<char>) -> (AutoView, TurnView) {
    (
        AutoView {
            current,
            dsh: None,
            update: update_dsh_start(port, url).0,
            stage: AutoStage::Release,
        },
        just(NextView::Ask(RequestView::FetchRelease)),
    )
}

/// The question for the version of dsh, after some effects.
pub open spec fn auto_dsh(a: AutoView, list: Seq<EffectView>) -> (AutoView, TurnView) {
    (AutoView { stage: AutoStage::Installed, ..a }, asking(list, RequestView::DshVersion))
}

/// The end of the look for updates, after some effects.
pub open spec fn auto_over(a: AutoView, list: Seq<EffectView>) -> (AutoView, TurnView) {
    (
        AutoView { stage: AutoStage::Over, ..a },
        TurnView { effects: list, next: NextView::Finished(Seq::empty()) },
    )
}

/// What is told of an update of dsh that has failed while it waited for `stage`. One that
/// was on show as under way is shown as failed, so that it keeps no later one out.
pub open spec fn auto_dsh_failed(stage: UpdateDshStage, reason: Seq<char>) -> Seq<EffectView> {
    if is_shown(stage) {
        seq![
            EffectView::PublishUpdate(failed_update("自动更新 dsh 失败"@, reason)),
            EffectView::Toast("自动更新 dsh 失败:"@ + reason),
        ]
    } else {
        seq![EffectView::Toast("自动更新 dsh 失败:"@ + reason)]
    }
}

/// One step of the update of dsh, whose end is also that of the look for updates.
pub open spec fn auto_dsh_step(a: AutoView, reply: ReplyView) -> (AutoView, TurnView) {
    let (update, turn) = update_dsh_step(a.update, reply);
    let b = AutoView { update, ..a };
    match turn.next {
        NextView::Finished(note) => auto_over(
            b,
            turn.effects + seq![
                EffectView::PublishUpdate(plain_update("done"@, note)),
                EffectView::Toast(note),
            ],
        ),
        NextView::Failed(e) => auto_over(b, turn.effects + auto_dsh_failed(a.update.stage, e)),
        _ => (b, turn),
    }
}

/// One step of the look for updates. A release that cannot be looked up goes unmentioned.
pub open spec fn auto_step(a: AutoView, reply: ReplyView) -> (AutoView, TurnView) {
    match (a.stage, reply) {
        (AutoStage::Release, ReplyView::Release(Ok(r))) => if newer(
            plain_version(r.tag_name),
            a.current,
        ) {
            (
                AutoView { stage: AutoStage::App, ..a },
                asking(
                    seq![EffectView::Toast("发现新版本，正在后台更新应用…"@)],
                    RequestView::UpdateApp,
                ),
            )
        } else {
            auto_dsh(a, Seq::empty())
        },
        (AutoStage::Release, ReplyView::Release(Err(_))) => auto_dsh(a, Seq::empty()),
        (AutoStage::App, ReplyView::Done(Ok(_))) => auto_dsh(a, Seq::empty()),
        (AutoStage::App, ReplyView::Done(Err(e))) => auto_dsh(
            a,
            seq![
                EffectView::PublishUpdate(failed_update("自动更新应用失败"@, e)),
                EffectView::Toast("自动更新应用失败:"@ + e),
            ],
        ),
        (AutoStage::Installed, ReplyView::Maybe(v)) => (
            AutoView { dsh: v, stage: AutoStage::Published, ..a },
            just(NextView::Ask(RequestView::Capture(npm_view()))),
        ),
        (AutoStage::Published, ReplyView::Captured(out)) => if dsh_outdated(
            a.dsh,
            trimmed_output(out),
        ) {
            let (update, turn) = update_dsh_start(a.update.port, a.update.url);
            (AutoView { update, stage: AutoStage::Dsh, ..a }, turn)
        } else {
            auto_over(a, Seq::empty())
        },
        (AutoStage::Dsh, _) => auto_dsh_step(a, reply),
        _ => (a, ignored()),
    }
}

impl AutoUpdate {
    /// Begins the look for updates; `current` is the version of the application that runs,
    /// and the server of dsh has a port and an address.
    pub fn start(current: String, port: u16, url: String) -> (r: (AutoUpdate, Turn))
        ensures
            (r.0@, r.1@) == auto_start(current@, port, url@),
            fits(current@) ==> r.0@.wf(),
    {
        let (update, _) = UpdateDsh::start(port, url);
        (
            AutoUpdate { current, dsh: None, update, stage: AutoStage::Release },
            turn_just_ask(Request::FetchRelease),
        )
    }

    fn ask_dsh(&mut self, list: Vec<Effect>) -> (r: Turn)
        ensures
            (final(self)@, r@) == auto_dsh(old(self)@, effects(list@)),
    {
        self.stage = AutoStage::Installed;
        turn_ask(list, Request::DshVersion)
    }

    fn end(&mut self, list: Vec<Effect>) -> (r: Turn)
        ensures
            (final(self)@, r@) == auto_over(old(self)@, effects(list@)),
    {
        self.stage = AutoStage::Over;
        turn_finished(list, String::new())
    }

    fn step_dsh(&mut self, reply: Reply) -> (r: Turn)
        ensures
            (final(self)@, r@) == auto_dsh_step(old(self)@, reply@),
    {
        let shown = self.update.shown();
        let turn = self.update.step(reply);
        let list = turn.effects;
        match turn.next {
            Next::Finished(note) => {
                let state = update_in("done", note.clone());
                self.end(both(list, two(Effect::PublishUpdate(state), Effect::Toast(note))))
            },
            Next::Failed(e) => {
                let toast = Effect::Toast(join2("自动更新 dsh 失败:", e.as_str()));
                let told = if shown {
                    let state = update_error("自动更新 dsh 失败", e.as_str());
                    two(Effect::PublishUpdate(state), toast)
                } else {
                    one(toast)
                };
                self.end(both(list, told))
            },
            next => Turn { effects: list, next },
        }
    }

    /// Takes the reply to what was asked last and goes on.
    #[verifier::spinoff_prover]
    #[verifier::rlimit(60)]
    pub fn step(&mut self, reply: Reply) -> (r: Turn)
        requires
            old(self)@.wf(),
            old(self)@.stage == AutoStage::Dsh || reply_fits(reply@),
        ensures
            (final(self)@, r@) == auto_step(old(self)@, reply@),
            final(self)@.wf(),
    {
        match (self.stage, reply) {
            (AutoStage::Release, Reply::Release(Ok(r))) => {
                proof {
                    lemma_plain_shorter(r.tag_name@);
                }
                let latest = bare_version(r.tag_name.as_str());
                if newer_version(latest.as_str(), self.current.as_str()) {
                    self.stage = AutoStage::App;
                    turn_ask(
                        one(Effect::Toast("发现新版本，正在后台更新应用…".to_owned())),
                        Request::UpdateApp,
                    )
                } else {
                    self.ask_dsh(none())
                }
            },
            (AutoStage::Release, Reply::Release(Err(_))) => self.ask_dsh(none()),
            (AutoStage::App, Reply::Done(Ok(_))) => self.ask_dsh(none()),
            (AutoStage::App, Reply::Done(Err(e))) => {
                let list = two(
                    Effect::PublishUpdate(update_error("自动更新应用失败", e.as_str())),
                    Effect::Toast(join2("自动更新应用失败:", e.as_str())),
                );
                self.ask_dsh(list)
            },
            (AutoStage::Installed, Reply::Maybe(v)) => {
                self.dsh = v;
                self.stage = AutoStage::Published;
                turn_just_ask(Request::Capture(npm_view_command()))
            },
            (AutoStage::Published, Reply::Captured(out)) => {
                proof {
                    if out is Ok {
                        lemma_trim_shorter(out->Ok_0@);
                    }
                }
                let latest = npm_latest_dsh(&out);
                if should_update_dsh(&self.dsh, latest.as_str()) {
                    let (update, turn) = UpdateDsh::start(self.update.port, self.update.url.clone());
                    self.update = update;
                    self.stage = AutoStage::Dsh;
                    turn
                } else {
                    self.end(none())
                }
            },
            (AutoStage::Dsh, reply) => self.step_dsh(reply),
            _ => turn_ignored(),
        }
    }
}

} // verus!
