//! The download of a file by a script in the background, with its progress.

use crate::protocol::{
    asking, both, effects, ignored, just, none, one, turn_ask, turn_failed, turn_finished,
    turn_ignored, turn_just_ask, Amendment, AmendmentView, Child, DownloadKind, Effect, EffectView,
    KindView, NextView, Reply, ReplyView, Request, RequestView, Turn, TurnView,
};
use crate::scripts::{
    content_length_script, download_script, download_text, head_content_length, head_script,
    printed_length,
};
use crate::state::{
    measured_update, plain_update, update_at, update_in, Progress, UpdateState, UpdateView,
};
use crate::text::{join2, join3, trim, trimmed};
use vstd::prelude::*;

verus! {

/// What a download waits for.
#[derive(Clone, Copy, Debug, PartialEq, Eq, Structural)]
pub enum DownloadStage {
    /// The length that the server gives.
    Head,
    /// The script to be written.
    Write,
    /// The script to be started.
    Spawn,
    /// A look at the script.
    Poll,
    /// The length that the file has reached.
    Measure,
    /// The reason why the script failed.
    Reason,
    /// The length of the whole file.
    Length,
    Over,
}

/// The download of a file.
#[derive(Debug)]
pub struct Download {
    pub kind: DownloadKind,
    pub url: String,
    pub dest: String,
    pub log: String,
    pub script: String,
    /// The length that the server gives, where it gives one.
    pub total: Option<u64>,
    /// The length that was reported last.
    pub last: Option<u64>,
    /// When it was last reported that nothing can be measured.
    pub idle: u64,
    pub stage: DownloadStage,
}

/// What a download holds.
pub struct DownloadView {
    pub kind: KindView,
    pub url: Seq<char>,
    pub dest: Seq<char>,
    pub log: Seq<char>,
    pub script: Seq<char>,
    pub total: Option<u64>,
    pub last: Option<u64>,
    pub idle: u64,
    pub stage: DownloadStage,
}

impl View for Download {
    type V = DownloadView;

    open spec fn view(&self) -> DownloadView {
        DownloadView {
            kind: self.kind@,
            url: self.url@,
            dest: self.dest@,
            log: self.log@,
            script: self.script@,
            total: self.total,
            last: self.last,
            idle: self.idle,
            stage: self.stage,
        }
    }
}

/// A second, in nanoseconds.
pub const SECOND: u64 = 1_000_000_000;

/// The total that the share of a file can be taken of.
pub open spec fn measurable(total: Option<u64>) -> Option<u64> {
    match total {
        Some(t) => if t > 0 {
            Some(t)
        } else {
            None
        },
        None => None,
    }
}

/// What is shown of the progress of a download; `percent` is its share in words.
pub open spec fn shown(
    kind: KindView,
    progress: Option<Progress>,
    percent: Seq<char>,
) -> Seq<EffectView> {
    match kind {
        KindView::Silent => Seq::empty(),
        KindView::NodeInstaller(v) => seq![
            EffectView::Amend(
                AmendmentView {
                    phase: Some("installing"@),
                    message: if progress is Some {
                        "正在下载 Node.js "@ + v + "… "@ + percent + "%"@
                    } else {
                        "正在下载 Node.js "@ + v + "…"@
                    },
                    progress: Some(progress),
                },
            ),
        ],
        KindView::NodeArchive(v) => seq![
            EffectView::Amend(
                AmendmentView {
                    phase: Some("installing"@),
                    message: if progress is Some {
                        "正在下载 Node.js "@ + v + " 便携版… "@ + percent + "%"@
                    } else {
                        "正在下载 Node.js "@ + v + " 便携版…"@
                    },
                    progress: Some(progress),
                },
            ),
        ],
        KindView::AppUpdate => match progress {
            Some(p) => seq![
                EffectView::PublishUpdate(
                    measured_update("downloading"@, "正在下载更新包… "@ + percent + "%"@, p),
                ),
            ],
            None => Seq::empty(),
        },
    }
}

/// What is shown of an update of the application whose download has begun. There is a
/// progress only where it can be measured.
pub open spec fn begun(total: Option<u64>) -> UpdateView {
    match measurable(total) {
        Some(_) => measured_update("downloading"@, "正在下载更新包…"@, Progress::Start),
        None => plain_update("downloading"@, "正在下载更新包…"@),
    }
}

/// What is said of a download whose script failed without a reason.
pub open spec fn failed_note(kind: KindView) -> Seq<char> {
    match kind {
        KindView::AppUpdate => "下载更新包失败"@,
        _ => "下载失败"@,
    }
}

/// What is said of a download that has left an empty file.
pub open spec fn empty_note(kind: KindView) -> Seq<char> {
    match kind {
        KindView::AppUpdate => "下载结果为空，更新失败"@,
        _ => "下载结果为空"@,
    }
}

/// The start of a download.
pub open spec fn download_start(
    kind: KindView,
    url: Seq<char>,
    dest: Seq<char>,
    log: Seq<char>,
    script: Seq<char>,
) -> (DownloadView, TurnView) {
    (
        DownloadView {
            kind,
            url,
            dest,
            log,
            script,
            total: None,
            last: None,
            idle: 0,
            stage: DownloadStage::Head,
        },
        asking(
            if kind is AppUpdate || kind is Silent {
                seq![EffectView::RemoveFile(dest)]
            } else {
                Seq::empty()
            },
            RequestView::PowerShell(head_script(url)),
        ),
    )
}

/// The download after the length `len` was reached, and what is shown of it. A share is
/// shown when it has moved by a percent; where no share can be taken, a sign of life is
/// shown every second, but for an update of the application.
pub open spec fn measured(
    d: DownloadView,
    len: u64,
    nanos: u64,
    moved: bool,
    percent: Seq<char>,
) -> (DownloadView, Seq<EffectView>) {
    match measurable(d.total) {
        Some(t) => if moved {
            (
                DownloadView { last: Some(len), stage: DownloadStage::Poll, ..d },
                shown(d.kind, Some(Progress::Bytes { done: len, total: t }), percent),
            )
        } else {
            (DownloadView { stage: DownloadStage::Poll, ..d }, Seq::empty())
        },
        None => if !(d.kind is AppUpdate) && nanos - d.idle >= SECOND {
            (
                DownloadView { idle: nanos, stage: DownloadStage::Poll, ..d },
                shown(d.kind, None, percent),
            )
        } else {
            (DownloadView { stage: DownloadStage::Poll, ..d }, Seq::empty())
        },
    }
}

/// The end of a download in failure.
pub open spec fn download_failed(
    d: DownloadView,
    list: Seq<EffectView>,
    reason: Seq<char>,
) -> (DownloadView, TurnView) {
    (
        DownloadView { stage: DownloadStage::Over, ..d },
        TurnView { effects: list, next: NextView::Failed(reason) },
    )
}

/// One step of a download.
pub open spec fn download_step(d: DownloadView, reply: ReplyView) -> (DownloadView, TurnView) {
    match (d.stage, reply) {
        (DownloadStage::Head, ReplyView::Captured(out)) => (
            DownloadView {
                total: match printed_length(out) {
                    Some(n) => Some(n as u64),
                    None => None,
                },
                stage: DownloadStage::Write,
                ..d
            },
            asking(
                if d.kind is AppUpdate {
                    Seq::empty()
                } else {
                    seq![EffectView::RemoveFile(d.dest)]
                },
                RequestView::WriteFile {
                    path: d.script,
                    text: download_text(d.url, d.dest, d.log),
                },
            ),
        ),
        (DownloadStage::Write, ReplyView::Done(Ok(_))) => (
            DownloadView { stage: DownloadStage::Spawn, ..d },
            just(NextView::Ask(RequestView::SpawnScript { script: d.script, log: d.log })),
        ),
        (DownloadStage::Write, ReplyView::Done(Err(e))) => download_failed(
            d,
            Seq::empty(),
            "写入下载脚本失败:"@ + e,
        ),
        (DownloadStage::Spawn, ReplyView::Done(Ok(_))) => (
            DownloadView { stage: DownloadStage::Poll, ..d },
            asking(
                if d.kind is AppUpdate {
                    seq![EffectView::PublishUpdate(begun(d.total))]
                } else {
                    Seq::empty()
                },
                RequestView::PollChild,
            ),
        ),
        (DownloadStage::Spawn, ReplyView::Done(Err(e))) => download_failed(
            d,
            Seq::empty(),
            "启动下载失败:"@ + e,
        ),
        (DownloadStage::Poll, ReplyView::Child(Child::Running)) => (
            DownloadView { stage: DownloadStage::Measure, ..d },
            just(
                NextView::Ask(
                    RequestView::Measure { file: d.dest, total: d.total, last: d.last },
                ),
            ),
        ),
        (DownloadStage::Poll, ReplyView::Child(Child::Exited { success })) => if success {
            (
                DownloadView { stage: DownloadStage::Length, ..d },
                asking(
                    seq![EffectView::RemoveFile(d.script)],
                    RequestView::FileLength(d.dest),
                ),
            )
        } else {
            (
                DownloadView { stage: DownloadStage::Reason, ..d },
                asking(seq![EffectView::RemoveFile(d.script)], RequestView::ReadFile(d.log)),
            )
        },
        (DownloadStage::Poll, ReplyView::Child(Child::Unreadable)) => download_failed(
            d,
            seq![EffectView::RemoveFile(d.script)],
            "无法读取下载进程状态"@,
        ),
        (DownloadStage::Measure, ReplyView::Measured { len, nanos, moved, percent }) => {
            let (post, list) = measured(d, len, nanos, moved, percent);
            (post, asking(list + seq![EffectView::Sleep(200)], RequestView::PollChild))
        },
        (DownloadStage::Reason, ReplyView::Text(t)) => download_failed(
            d,
            seq![EffectView::RemoveFile(d.log)],
            if trim(t).len() == 0 {
                failed_note(d.kind)
            } else {
                trim(t)
            },
        ),
        (DownloadStage::Length, ReplyView::Number(n)) => if n == 0 {
            download_failed(d, Seq::empty(), empty_note(d.kind))
        } else {
            (
                DownloadView { stage: DownloadStage::Over, ..d },
                TurnView { effects: Seq::empty(), next: NextView::Finished(d.dest) },
            )
        },
        _ => (d, ignored()),
    }
}

fn amendment(message: String, progress: Option<Progress>) -> (r: Effect)
    ensures
        r@ == EffectView::Amend(
            AmendmentView {
                phase: Some("installing"@),
                message: message@,
                progress: Some(progress),
            },
        ),
{
    Effect::Amend(
        Amendment { phase: Some("installing".to_owned()), message, progress: Some(progress) },
    )
}

fn show(kind: &DownloadKind, progress: Option<Progress>, percent: &str) -> (r: Vec<Effect>)
    ensures
        effects(r@) == shown(kind@, progress, percent@),
{
    match kind {
        DownloadKind::Silent => none(),
        DownloadKind::NodeInstaller(v) => {
            if progress.is_some() {
                one(
                    amendment(
                        join3("正在下载 Node.js ", v.as_str(), "… ").concat(percent).concat("%"),
                        progress,
                    ),
                )
            } else {
                one(amendment(join3("正在下载 Node.js ", v.as_str(), "…"), progress))
            }
        },
        DownloadKind::NodeArchive(v) => {
            if progress.is_some() {
                one(
                    amendment(
                        join3("正在下载 Node.js ", v.as_str(), " 便携版… ").concat(percent).concat("%"),
                        progress,
                    ),
                )
            } else {
                one(amendment(join3("正在下载 Node.js ", v.as_str(), " 便携版…"), progress))
            }
        },
        DownloadKind::AppUpdate => match progress {
            Some(p) => one(
                Effect::PublishUpdate(
                    update_at("downloading", join3("正在下载更新包… ", percent, "%"), p),
                ),
            ),
            None => none(),
        },
    }
}

fn begin(total: Option<u64>) -> (r: UpdateState)
    ensures
        r@ == begun(total),
{
    let message = "正在下载更新包…".to_owned();
    match total {
        Some(t) => {
            if t > 0 {
                return update_at("downloading", message, Progress::Start);
            }
        },
        None => {},
    }
    update_in("downloading", message)
}

impl Download {
    /// Begins a download of `url` into the file `dest`; `log` takes the reason of a
    /// failure, and `script` is the file of the script.
    pub fn start(kind: DownloadKind, url: String, dest: String, log: String, script: String) -> (r: (
        Download,
        Turn,
    ))
        ensures
            (r.0@, r.1@) == download_start(kind@, url@, dest@, log@, script@),
    {
        let list = match &kind {
            DownloadKind::AppUpdate | DownloadKind::Silent => one(
                Effect::RemoveFile(dest.clone()),
            ),
            _ => none(),
        };
        let turn = turn_ask(list, Request::PowerShell(content_length_script(url.as_str())));
        (
            Download {
                kind,
                url,
                dest,
                log,
                script,
                total: None,
                last: None,
                idle: 0,
                stage: DownloadStage::Head,
            },
            turn,
        )
    }

    fn is_app_update(&self) -> (r: bool)
        ensures
            r == (self@.kind is AppUpdate),
    {
        match &self.kind {
            DownloadKind::AppUpdate => true,
            _ => false,
        }
    }

    fn fail(&mut self, list: Vec<Effect>, reason: String) -> (r: Turn)
        ensures
            (final(self)@, r@) == download_failed(old(self)@, effects(list@), reason@),
    {
        self.stage = DownloadStage::Over;
        turn_failed(list, reason)
    }

    fn measure(&mut self, len: u64, nanos: u64, moved: bool, percent: &str) -> (r: Vec<Effect>)
        ensures
            (final(self)@, effects(r@)) == measured(old(self)@, len, nanos, moved, percent@),
    {
        self.stage = DownloadStage::Poll;
        match self.total {
            Some(t) => {
                if t > 0 {
                    if moved {
                        self.last = Some(len);
                        return show(
                            &self.kind,
                            Some(Progress::Bytes { done: len, total: t }),
                            percent,
                        );
                    }
                    return none();
                }
            },
            None => {},
        }
        if !self.is_app_update() && nanos >= self.idle && nanos - self.idle >= SECOND {
            self.idle = nanos;
            return show(&self.kind, None, percent);
        }
        none()
    }

    /// Takes the reply to what was asked last and goes on.
    pub fn step(&mut self, reply: Reply) -> (r: Turn)
        ensures
            (final(self)@, r@) == download_step(old(self)@, reply@),
    {
        match (self.stage, reply) {
            (DownloadStage::Head, Reply::Captured(out)) => {
                self.total = head_content_length(&out);
                self.stage = DownloadStage::Write;
                let list = if self.is_app_update() {
                    none()
                } else {
                    one(Effect::RemoveFile(self.dest.clone()))
                };
                turn_ask(
                    list,
                    Request::WriteFile {
                        path: self.script.clone(),
                        text: download_script(
                            self.url.as_str(),
                            self.dest.as_str(),
                            self.log.as_str(),
                        ),
                    },
                )
            },
            (DownloadStage::Write, Reply::Done(Ok(_))) => {
                self.stage = DownloadStage::Spawn;
                turn_just_ask(
                    Request::SpawnScript { script: self.script.clone(), log: self.log.clone() },
                )
            },
            (DownloadStage::Write, Reply::Done(Err(e))) => {
                self.fail(none(), join2("写入下载脚本失败:", e.as_str()))
            },
            (DownloadStage::Spawn, Reply::Done(Ok(_))) => {
                self.stage = DownloadStage::Poll;
                let list = if self.is_app_update() {
                    one(Effect::PublishUpdate(begin(self.total)))
                } else {
                    none()
                };
                turn_ask(list, Request::PollChild)
            },
            (DownloadStage::Spawn, Reply::Done(Err(e))) => {
                self.fail(none(), join2("启动下载失败:", e.as_str()))
            },
            (DownloadStage::Poll, Reply::Child(Child::Running)) => {
                self.stage = DownloadStage::Measure;
                turn_just_ask(
                    Request::Measure {
                        file: self.dest.clone(),
                        total: self.total,
                        last: self.last,
                    },
                )
            },
            (DownloadStage::Poll, Reply::Child(Child::Exited { success })) => {
                let list = one(Effect::RemoveFile(self.script.clone()));
                if success {
                    self.stage = DownloadStage::Length;
                    turn_ask(list, Request::FileLength(self.dest.clone()))
                } else {
                    self.stage = DownloadStage::Reason;
                    turn_ask(list, Request::ReadFile(self.log.clone()))
                }
            },
            (DownloadStage::Poll, Reply::Child(Child::Unreadable)) => {
                let list = one(Effect::RemoveFile(self.script.clone()));
                self.fail(list, "无法读取下载进程状态".to_owned())
            },
            (DownloadStage::Measure, Reply::Measured { len, nanos, moved, percent }) => {
                let list = self.measure(len, nanos, moved, percent.as_str());
                turn_ask(both(list, one(Effect::Sleep(200))), Request::PollChild)
            },
            (DownloadStage::Reason, Reply::Text(t)) => {
                let list = one(Effect::RemoveFile(self.log.clone()));
                let reason = trimmed(t.as_str());
                if reason.as_str().is_empty() {
                    let note = if self.is_app_update() {
                        "下载更新包失败".to_owned()
                    } else {
                        "下载失败".to_owned()
                    };
                    self.fail(list, note)
                } else {
                    self.fail(list, reason)
                }
            },
            (DownloadStage::Length, Reply::Number(n)) => {
                if n == 0 {
                    let note = if self.is_app_update() {
                        "下载结果为空，更新失败".to_owned()
                    } else {
                        "下载结果为空".to_owned()
                    };
                    self.fail(none(), note)
                } else {
                    self.stage = DownloadStage::Over;
                    turn_finished(none(), self.dest.clone())
                }
            },
            _ => turn_ignored(),
        }
    }
}

} // verus!
