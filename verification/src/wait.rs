//! Waiting for the dsh server.

use crate::download::SECOND;
use crate::node::{code_text, exit_code};
use crate::protocol::{
    asking, effects, ignored, just, none, one, turn_ask, turn_failed, turn_finished, turn_ignored,
    turn_just_ask, two, Amendment, AmendmentView, Effect, EffectView, Exit, NextView, Reply,
    ReplyView, Request, RequestView, Turn, TurnView,
};
use crate::text::{decimal, decimal_of, join2, join3};
use vstd::prelude::*;

verus! {

// ---- with reports ----

/// What the wait for the server waits for.
#[derive(Clone, Copy, Debug, PartialEq, Eq, Structural)]
pub enum ReadyStage {
    /// A look at the port.
    Port,
    /// A look at the server process.
    Process,
    /// The time.
    Clock,
    /// The log of a server that has ended like this.
    ExitLog(Exit),
    /// The log of a server that has not answered in time.
    TimeoutLog,
    Over,
}

/// The wait for the server, with reports on the way. It fails at once when the server
/// process ends before the port opens.
#[derive(Clone, Copy, Debug, PartialEq, Eq, Structural)]
pub struct WaitReady {
    pub port: u16,
    /// How long to wait, in nanoseconds.
    pub timeout: u64,
    /// When the wait was last reported.
    pub reported: u64,
    pub stage: ReadyStage,
}

/// How often the wait is reported, in nanoseconds.
pub const REPORT_EVERY: u64 = 5_000_000_000;

/// A note, and the last lines of the log under it where there are any.
pub open spec fn note_with_tail(note: Seq<char>, tail: Seq<char>) -> Seq<char> {
    if tail.len() == 0 {
        note
    } else {
        note + "，最近输出：\n"@ + tail
    }
}

/// A note, and the last lines of the log under it where there are any.
pub fn with_tail(note: String, tail: &str) -> (r: String)
    ensures
        r@ == note_with_tail(note@, tail@),
{
    if tail.is_empty() {
        note
    } else {
        note.concat("，最近输出：\n").concat(tail)
    }
}

/// Why the wait ends when the server process has ended.
pub open spec fn exit_reason(exit: Exit, tail: Seq<char>) -> Seq<char> {
    note_with_tail("dsh 服务进程提前退出(退出码 "@ + code_text(exit) + ")"@, tail)
}

/// Why the wait ends when time is up.
pub open spec fn timeout_reason(port: u16, tail: Seq<char>) -> Seq<char> {
    note_with_tail("等待 dsh 服务启动超时(端口 "@ + decimal(port as nat) + ")"@, tail)
}

/// The report of a wait of so many nanoseconds.
pub open spec fn waiting_report(nanos: u64) -> EffectView {
    EffectView::Amend(
        AmendmentView {
            phase: None,
            message: "正在启动 dsh 服务…（已等待 "@ + decimal((nanos / SECOND) as nat) + "s）"@,
            progress: None,
        },
    )
}

/// The start of the wait.
pub open spec fn ready_start(port: u16, secs: u32) -> (WaitReady, TurnView) {
    (
        WaitReady {
            port,
            timeout: (secs * SECOND) as u64,
            reported: 0,
            stage: ReadyStage::Port,
        },
        just(NextView::Ask(RequestView::PortOpen(port))),
    )
}

/// One step of the wait.
pub open spec fn ready_step(w: WaitReady, reply: ReplyView) -> (WaitReady, TurnView) {
    match (w.stage, reply) {
        (ReadyStage::Port, ReplyView::Flag(open)) => if open {
            (
                WaitReady { stage: ReadyStage::Over, ..w },
                TurnView { effects: Seq::empty(), next: NextView::Finished(Seq::empty()) },
            )
        } else {
            (
                WaitReady { stage: ReadyStage::Process, ..w },
                just(NextView::Ask(RequestView::ChildExit)),
            )
        },
        (ReadyStage::Process, ReplyView::Ended(Some(exit))) => (
            WaitReady { stage: ReadyStage::ExitLog(exit), ..w },
            just(NextView::Ask(RequestView::LogTail { port: w.port, count: 10 })),
        ),
        (ReadyStage::Process, ReplyView::Ended(None)) => (
            WaitReady { stage: ReadyStage::Clock, ..w },
            just(NextView::Ask(RequestView::Elapsed)),
        ),
        (ReadyStage::Clock, ReplyView::Nanos(now)) => if now >= w.timeout {
            (
                WaitReady { stage: ReadyStage::TimeoutLog, ..w },
                just(NextView::Ask(RequestView::LogTail { port: w.port, count: 10 })),
            )
        } else if now - w.reported >= REPORT_EVERY {
            (
                WaitReady { reported: now, stage: ReadyStage::Port, ..w },
                asking(
                    seq![waiting_report(now), EffectView::Sleep(500)],
                    RequestView::PortOpen(w.port),
                ),
            )
        } else {
            (
                WaitReady { stage: ReadyStage::Port, ..w },
                asking(seq![EffectView::Sleep(500)], RequestView::PortOpen(w.port)),
            )
        },
        (ReadyStage::ExitLog(exit), ReplyView::Text(tail)) => (
            WaitReady { stage: ReadyStage::Over, ..w },
            TurnView {
                effects: seq![
                    EffectView::Log("  "@ + exit_reason(exit, tail)),
                    EffectView::Amend(
                        AmendmentView {
                            phase: Some("error"@),
                            message: "dsh 服务启动失败:"@ + exit_reason(exit, tail),
                            progress: Some(None),
                        },
                    ),
                ],
                next: NextView::Failed(exit_reason(exit, tail)),
            },
        ),
        (ReadyStage::TimeoutLog, ReplyView::Text(tail)) => (
            WaitReady { stage: ReadyStage::Over, ..w },
            TurnView {
                effects: seq![EffectView::Log("  "@ + timeout_reason(w.port, tail))],
                next: NextView::Failed(timeout_reason(w.port, tail)),
            },
        ),
        _ => (w, ignored()),
    }
}

impl WaitReady {
    /// Begins a wait of at most so many seconds for the server on a port.
    pub fn start(port: u16, secs: u32) -> (r: (WaitReady, Turn))
        ensures
            (r.0, r.1@) == ready_start(port, secs),
    {
        (
            WaitReady { port, timeout: secs as u64 * SECOND, reported: 0, stage: ReadyStage::Port },
            turn_just_ask(Request::PortOpen(port)),
        )
    }

    /// Takes the reply to what was asked last and goes on.
    pub fn step(&mut self, reply: Reply) -> (r: Turn)
        ensures
            (*final(self), r@) == ready_step(*old(self), reply@),
    {
        match (self.stage, reply) {
            (ReadyStage::Port, Reply::Flag(open)) => {
                if open {
                    self.stage = ReadyStage::Over;
                    turn_finished(none(), String::new())
                } else {
                    self.stage = ReadyStage::Process;
                    turn_just_ask(Request::ChildExit)
                }
            },
            (ReadyStage::Process, Reply::Ended(Some(exit))) => {
                self.stage = ReadyStage::ExitLog(exit);
                turn_just_ask(Request::LogTail { port: self.port, count: 10 })
            },
            (ReadyStage::Process, Reply::Ended(None)) => {
                self.stage = ReadyStage::Clock;
                turn_just_ask(Request::Elapsed)
            },
            (ReadyStage::Clock, Reply::Nanos(now)) => {
                if now >= self.timeout {
                    self.stage = ReadyStage::TimeoutLog;
                    turn_just_ask(Request::LogTail { port: self.port, count: 10 })
                } else if now >= self.reported && now - self.reported >= REPORT_EVERY {
                    self.reported = now;
                    self.stage = ReadyStage::Port;
                    let report = Effect::Amend(
                        Amendment {
                            phase: None,
                            message: join3(
                                "正在启动 dsh 服务…（已等待 ",
                                decimal_of(now / SECOND).as_str(),
                                "s）",
                            ),
                            progress: None,
                        },
                    );
                    turn_ask(two(report, Effect::Sleep(500)), Request::PortOpen(self.port))
                } else {
                    self.stage = ReadyStage::Port;
                    turn_ask(one(Effect::Sleep(500)), Request::PortOpen(self.port))
                }
            },
            (ReadyStage::ExitLog(exit), Reply::Text(tail)) => {
                self.stage = ReadyStage::Over;
                let reason = with_tail(
                    join3("dsh 服务进程提前退出(退出码 ", exit_code(exit).as_str(), ")"),
                    tail.as_str(),
                );
                let change = Amendment {
                    phase: Some("error".to_owned()),
                    message: join2("dsh 服务启动失败:", reason.as_str()),
                    progress: Some(None),
                };
                turn_failed(
                    two(Effect::Log(join2("  ", reason.as_str())), Effect::Amend(change)),
                    reason,
                )
            },
            (ReadyStage::TimeoutLog, Reply::Text(tail)) => {
                self.stage = ReadyStage::Over;
                let reason = with_tail(
                    join3("等待 dsh 服务启动超时(端口 ", decimal_of(self.port as u64).as_str(), ")"),
                    tail.as_str(),
                );
                turn_failed(one(Effect::Log(join2("  ", reason.as_str()))), reason)
            },
            _ => turn_ignored(),
        }
    }
}

// ---- without reports ----

/// What the plain wait for a port waits for.
#[derive(Clone, Copy, Debug, PartialEq, Eq, Structural)]
pub enum PortStage {
    /// The time.
    Clock,
    /// A look at the port.
    Port,
    Over,
}

/// The plain wait for a port.
#[derive(Clone, Copy, Debug, PartialEq, Eq, Structural)]
pub struct WaitPort {
    pub port: u16,
    /// How long to wait, in nanoseconds.
    pub timeout: u64,
    pub stage: PortStage,
}

/// One step of the plain wait: as long as there is time, a look at the port, and another
/// one a little later.
pub open spec fn port_step(w: WaitPort, reply: ReplyView) -> (WaitPort, TurnView) {
    match (w.stage, reply) {
        (PortStage::Clock, ReplyView::Nanos(now)) => if now < w.timeout {
            (
                WaitPort { stage: PortStage::Port, ..w },
                just(NextView::Ask(RequestView::PortOpen(w.port))),
            )
        } else {
            (
                WaitPort { stage: PortStage::Over, ..w },
                TurnView { effects: Seq::empty(), next: NextView::Failed(Seq::empty()) },
            )
        },
        (PortStage::Port, ReplyView::Flag(open)) => if open {
            (
                WaitPort { stage: PortStage::Over, ..w },
                TurnView { effects: Seq::empty(), next: NextView::Finished(Seq::empty()) },
            )
        } else {
            (
                WaitPort { stage: PortStage::Clock, ..w },
                asking(seq![EffectView::Sleep(300)], RequestView::Elapsed),
            )
        },
        _ => (w, ignored()),
    }
}

impl WaitPort {
    /// Begins a plain wait of at most so many seconds for a port.
    pub fn start(port: u16, secs: u32) -> (r: (WaitPort, Turn))
        ensures
            r.0 == (WaitPort { port, timeout: (secs * SECOND) as u64, stage: PortStage::Clock }),
            r.1@ == just(NextView::Ask(RequestView::Elapsed)),
    {
        (
            WaitPort { port, timeout: secs as u64 * SECOND, stage: PortStage::Clock },
            turn_just_ask(Request::Elapsed),
        )
    }

    /// Takes the reply to what was asked last and goes on.
    pub fn step(&mut self, reply: Reply) -> (r: Turn)
        ensures
            (*final(self), r@) == port_step(*old(self), reply@),
    {
        match (self.stage, reply) {
            (PortStage::Clock, Reply::Nanos(now)) => {
                if now < self.timeout {
                    self.stage = PortStage::Port;
                    turn_just_ask(Request::PortOpen(self.port))
                } else {
                    self.stage = PortStage::Over;
                    turn_failed(none(), String::new())
                }
            },
            (PortStage::Port, Reply::Flag(open)) => {
                if open {
                    self.stage = PortStage::Over;
                    turn_finished(none(), String::new())
                } else {
                    self.stage = PortStage::Clock;
                    turn_ask(one(Effect::Sleep(300)), Request::Elapsed)
                }
            },
            _ => turn_ignored(),
        }
    }
}

} // verus!
