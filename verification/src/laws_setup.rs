//! What holds of the startup run from its start to each of its ends.

use crate::protocol::{EffectView, NextView, ReplyView, RequestView, TurnView};
use crate::setup::{setup_start, setup_step, RunView, SetupStage};
use crate::state::{row_from, with_item, ItemView, SetupView};
use crate::text::decimal;
use vstd::prelude::*;

verus! {

/// A status and a detail of a row.
pub type Row = (Seq<char>, Seq<char>);

/// The checklist with its four rows.
pub open spec fn checklist(
    phase: Seq<char>,
    message: Seq<char>,
    webview2: Row,
    node: Row,
    dsh: Row,
    service: Row,
) -> SetupView {
    SetupView {
        phase,
        message,
        progress: None,
        items: seq![
            ItemView {
                key: "webview2"@,
                label: "WebView2 运行时"@,
                status: webview2.0,
                detail: webview2.1,
            },
            ItemView { key: "node"@, label: "Node.js"@, status: node.0, detail: node.1 },
            ItemView { key: "dsh"@, label: "dsh"@, status: dsh.0, detail: dsh.1 },
            ItemView { key: "service"@, label: "dsh 服务"@, status: service.0, detail: service.1 },
        ],
    }
}

/// The row of something that nothing is known of yet.
pub open spec fn pending() -> Row {
    ("pending"@, Seq::empty())
}

/// The row of something that is in order without further ado.
pub open spec fn in_order() -> Row {
    ("ok"@, "已就绪"@)
}

/// The row of something that is being looked for.
pub open spec fn looked_for() -> Row {
    ("checking"@, "检测中…"@)
}

/// The row of something that is being installed.
pub open spec fn on_its_way() -> Row {
    ("installing"@, "正在自动安装…"@)
}

/// The address of the server on a port, as the checklist shows it.
pub open spec fn local_address(port: u16) -> Seq<char> {
    "http://127.0.0.1:"@ + decimal(port as nat)
}

/// A turn that asks.
pub open spec fn asks(list: Seq<EffectView>, request: RequestView) -> TurnView {
    TurnView { effects: list, next: NextView::Ask(request) }
}

proof fn lemma_keys()
    ensures
        "webview2"@ != "node"@,
        "webview2"@ != "dsh"@,
        "webview2"@ != "service"@,
        "node"@ != "dsh"@,
        "node"@ != "service"@,
        "dsh"@ != "service"@,
{
    reveal_strlit("webview2");
    reveal_strlit("node");
    reveal_strlit("dsh");
    reveal_strlit("service");
    assert("webview2"@.len() == 8 && "node"@.len() == 4);
    assert("dsh"@.len() == 3 && "service"@.len() == 7);
}

/// A status for the key of a row goes to that row and to no other.
pub proof fn law_each_row_has_its_key(
    phase: Seq<char>,
    message: Seq<char>,
    w: Row,
    n: Row,
    d: Row,
    s: Row,
    new: Row,
)
    ensures
        with_item(checklist(phase, message, w, n, d, s), "webview2"@, new.0, new.1) == checklist(
            phase,
            message,
            new,
            n,
            d,
            s,
        ),
        with_item(checklist(phase, message, w, n, d, s), "node"@, new.0, new.1) == checklist(
            phase,
            message,
            w,
            new,
            d,
            s,
        ),
        with_item(checklist(phase, message, w, n, d, s), "dsh"@, new.0, new.1) == checklist(
            phase,
            message,
            w,
            n,
            new,
            s,
        ),
        with_item(checklist(phase, message, w, n, d, s), "service"@, new.0, new.1) == checklist(
            phase,
            message,
            w,
            n,
            d,
            new,
        ),
{
    lemma_keys();
    let c = checklist(phase, message, w, n, d, s);
    reveal_with_fuel(row_from, 5);
    assert(c.items[0].key == "webview2"@ && c.items[1].key == "node"@);
    assert(c.items[2].key == "dsh"@ && c.items[3].key == "service"@);
    assert(row_from(c.items, "webview2"@, 0) == Some(0int));
    assert(row_from(c.items, "node"@, 0) == Some(1int));
    assert(row_from(c.items, "dsh"@, 0) == Some(2int));
    assert(row_from(c.items, "service"@, 0) == Some(3int));
    assert(with_item(c, "webview2"@, new.0, new.1).items =~= checklist(
        phase,
        message,
        new,
        n,
        d,
        s,
    ).items);
    assert(with_item(c, "node"@, new.0, new.1).items =~= checklist(
        phase,
        message,
        w,
        new,
        d,
        s,
    ).items);
    assert(with_item(c, "dsh"@, new.0, new.1).items =~= checklist(
        phase,
        message,
        w,
        n,
        new,
        s,
    ).items);
    assert(with_item(c, "service"@, new.0, new.1).items =~= checklist(
        phase,
        message,
        w,
        n,
        d,
        new,
    ).items);
}

/// The startup run on any port first asks whether something listens on that port. Where
/// something does, it is taken for the server, and the page goes there. Where nothing does,
/// the checks begin with Node.js.
pub proof fn law_startup_begins_with_its_port(port: u16, url: Seq<char>)
    ensures
        ({
            let (a, first) = setup_start(port, url);
            let (b, there) = setup_step(a, ReplyView::Flag(true));
            let (c, absent) = setup_step(a, ReplyView::Flag(false));
            let m = "正在检测运行环境…"@;
            let found = checklist(
                "ready"@,
                "启动完成"@,
                in_order(),
                in_order(),
                in_order(),
                ("installed"@, local_address(port)),
            );
            let checking = checklist("detecting"@, m, in_order(), looked_for(), pending(), pending());
            &&& a.port == port && a.url == url
            &&& first == asks(Seq::empty(), RequestView::PortOpen(port))
            &&& b.state == found
            &&& there == (TurnView {
                effects: seq![
                    EffectView::Log("检测到 dsh 服务已在运行，直接连接…"@),
                    EffectView::Publish(found),
                    EffectView::Navigate(url),
                ],
                next: NextView::Finished(Seq::empty()),
            })
            &&& c == (RunView { port, url, state: checking, stage: SetupStage::NodeCheck })
            &&& absent == asks(
                seq![
                    EffectView::Publish(
                        checklist("detecting"@, m, pending(), pending(), pending(), pending()),
                    ),
                    EffectView::Log("开始检查运行环境…"@),
                    EffectView::Publish(
                        checklist("detecting"@, m, in_order(), pending(), pending(), pending()),
                    ),
                    EffectView::Log("[1/3] 检测 Node.js…"@),
                    EffectView::Publish(checking),
                ],
                RequestView::NodeAvailable,
            )
        }),
{
    let m = "正在检测运行环境…"@;
    let (a, first) = setup_start(port, url);
    let p = pending();
    let o = in_order();
    assert(a.state.items =~= checklist("detecting"@, m, p, p, p, p).items);
    law_each_row_has_its_key("detecting"@, m, p, p, p, p, o);
    law_each_row_has_its_key("detecting"@, m, o, p, p, p, o);
    law_each_row_has_its_key("detecting"@, m, o, p, p, p, looked_for());
    law_each_row_has_its_key("detecting"@, m, o, o, p, p, o);
    law_each_row_has_its_key("detecting"@, m, o, o, o, p, ("installed"@, local_address(port)));
    let (c, absent) = setup_step(a, ReplyView::Flag(false));
    assert(absent.effects =~= seq![
        EffectView::Publish(checklist("detecting"@, m, p, p, p, p)),
        EffectView::Log("开始检查运行环境…"@),
        EffectView::Publish(checklist("detecting"@, m, o, p, p, p)),
        EffectView::Log("[1/3] 检测 Node.js…"@),
        EffectView::Publish(checklist("detecting"@, m, o, looked_for(), p, p)),
    ]);
}

/// Node.js that is there is asked for its version, which its row shows. Node.js that is
/// missing is installed; what was installed is shown, and the run goes on to dsh. An
/// installation that fails ends the run with its reason.
pub proof fn law_startup_sees_to_node(
    port: u16,
    url: Seq<char>,
    phase: Seq<char>,
    message: Seq<char>,
    w: Row,
    n: Row,
    d: Row,
    s: Row,
    text: Seq<char>,
)
    ensures
        ({
            let old = checklist(phase, message, w, n, d, s);
            let at = |stage: SetupStage, state: SetupView| RunView { port, url, state, stage };
            let (a, there) = setup_step(at(SetupStage::NodeCheck, old), ReplyView::Flag(true));
            let (b, told) = setup_step(a, ReplyView::Text(text));
            let (c, absent) = setup_step(at(SetupStage::NodeCheck, old), ReplyView::Flag(false));
            let (e, done) = setup_step(c, ReplyView::Captured(Ok(text)));
            let (f, failed) = setup_step(c, ReplyView::Captured(Err(text)));
            let going = "正在安装 Node.js…"@;
            let installing = checklist("installing"@, going, w, on_its_way(), d, s);
            let fine = checklist(phase, message, w, ("ok"@, text), looked_for(), s);
            let installed = checklist("installing"@, going, w, ("installed"@, text), d, s);
            let next = checklist("installing"@, going, w, ("installed"@, text), looked_for(), s);
            let why = "Node.js 安装失败"@ + ":"@ + text;
            let bad = checklist("error"@, why, w, ("failed"@, text), d, s);
            &&& there == asks(Seq::empty(), RequestView::NodeVersion)
            &&& b == at(SetupStage::DshCheck, fine)
            &&& told == asks(
                seq![
                    EffectView::Log("  已就绪("@ + text + ")"@),
                    EffectView::Log("[2/3] 检测 dsh…"@),
                    EffectView::Publish(fine),
                ],
                RequestView::DshVersion,
            )
            &&& absent == asks(
                seq![
                    EffectView::Log("  未检测到 Node.js，开始自动安装…"@),
                    EffectView::Publish(installing),
                ],
                RequestView::InstallNode,
            )
            &&& e == at(SetupStage::DshCheck, next)
            &&& done == asks(
                seq![
                    EffectView::Log("  Node.js 安装完成("@ + text + ")"@),
                    EffectView::Publish(installed),
                    EffectView::Log("[2/3] 检测 dsh…"@),
                    EffectView::Publish(next),
                ],
                RequestView::DshVersion,
            )
            &&& f.state == bad
            &&& failed == (TurnView {
                effects: seq![EffectView::Publish(bad)],
                next: NextView::Failed(text),
            })
        }),
{
    let going = "正在安装 Node.js…"@;
    let t = text;
    law_each_row_has_its_key(phase, message, w, n, d, s, ("ok"@, t));
    law_each_row_has_its_key(phase, message, w, ("ok"@, t), d, s, looked_for());
    law_each_row_has_its_key(phase, message, w, n, d, s, on_its_way());
    law_each_row_has_its_key("installing"@, going, w, on_its_way(), d, s, ("installed"@, t));
    law_each_row_has_its_key("installing"@, going, w, ("installed"@, t), d, s, looked_for());
    law_each_row_has_its_key("installing"@, going, w, on_its_way(), d, s, ("failed"@, t));
    let old = checklist(phase, message, w, n, d, s);
    let a = setup_step(
        RunView { port, url, state: old, stage: SetupStage::NodeCheck },
        ReplyView::Flag(true),
    ).0;
    let c = setup_step(
        RunView { port, url, state: old, stage: SetupStage::NodeCheck },
        ReplyView::Flag(false),
    ).0;
    let installing = checklist("installing"@, going, w, on_its_way(), d, s);
    assert(c.state == installing);
    let told = setup_step(a, ReplyView::Text(text)).1;
    assert(told.effects =~= seq![
        EffectView::Log("  已就绪("@ + text + ")"@),
        EffectView::Log("[2/3] 检测 dsh…"@),
        EffectView::Publish(checklist(phase, message, w, ("ok"@, text), looked_for(), s)),
    ]);
    let done = setup_step(c, ReplyView::Captured(Ok(text))).1;
    assert(done.effects =~= seq![
        EffectView::Log("  Node.js 安装完成("@ + text + ")"@),
        EffectView::Publish(checklist("installing"@, going, w, ("installed"@, t), d, s)),
        EffectView::Log("[2/3] 检测 dsh…"@),
        EffectView::Publish(checklist("installing"@, going, w, ("installed"@, t), looked_for(), s)),
    ]);
    let failed = setup_step(c, ReplyView::Captured(Err(text))).1;
    assert(failed.effects =~= seq![
        EffectView::Publish(
            checklist(
                "error"@,
                "Node.js 安装失败"@ + ":"@ + text,
                w,
                ("failed"@, text),
                d,
                s,
            ),
        ),
    ]);
}

/// dsh that is there is shown with its version. dsh that is missing is installed; what was
/// installed is shown. Either way the run goes on to the server. An installation that fails
/// ends the run with its reason.
pub proof fn law_startup_sees_to_dsh(
    port: u16,
    url: Seq<char>,
    phase: Seq<char>,
    message: Seq<char>,
    w: Row,
    n: Row,
    d: Row,
    s: Row,
    text: Seq<char>,
)
    ensures
        ({
            let old = checklist(phase, message, w, n, d, s);
            let at = |stage: SetupStage, state: SetupView| RunView { port, url, state, stage };
            let (a, there) = setup_step(
                at(SetupStage::DshCheck, old),
                ReplyView::Maybe(Some(text)),
            );
            let (b, absent) = setup_step(at(SetupStage::DshCheck, old), ReplyView::Maybe(None));
            let (c, done) = setup_step(b, ReplyView::Captured(Ok(text)));
            let (e, failed) = setup_step(b, ReplyView::Captured(Err(text)));
            let up = "正在启动 dsh 服务…"@;
            let begin = ("ok"@, "正在启动…"@);
            let fine = checklist("starting"@, up, w, n, ("ok"@, "v"@ + text), begin);
            let going = "正在安装 dsh…"@;
            let installing = checklist("installing"@, going, w, n, on_its_way(), s);
            let installed = checklist("installing"@, going, w, n, ("installed"@, text), s);
            let next = checklist("starting"@, up, w, n, ("installed"@, text), begin);
            let why = "dsh 安装失败"@ + ":"@ + text;
            let bad = checklist("error"@, why, w, n, ("failed"@, text), s);
            &&& a == at(SetupStage::Port, fine)
            &&& there == asks(
                seq![
                    EffectView::Log("  已就绪(v"@ + text + ")"@),
                    EffectView::Log("[3/3] 启动 dsh 服务…"@),
                    EffectView::Publish(fine),
                ],
                RequestView::PortOpen(port),
            )
            &&& absent == asks(
                seq![
                    EffectView::Log("  未检测到 dsh，开始自动安装…"@),
                    EffectView::Publish(installing),
                ],
                RequestView::InstallDsh,
            )
            &&& c == at(SetupStage::Port, next)
            &&& done == asks(
                seq![
                    EffectView::Log("  dsh 安装完成("@ + text + ")"@),
                    EffectView::Publish(installed),
                    EffectView::Log("[3/3] 启动 dsh 服务…"@),
                    EffectView::Publish(next),
                ],
                RequestView::PortOpen(port),
            )
            &&& e.state == bad
            &&& failed == (TurnView {
                effects: seq![EffectView::Publish(bad)],
                next: NextView::Failed(text),
            })
        }),
{
    let going = "正在安装 dsh…"@;
    let begin = ("ok"@, "正在启动…"@);
    let fine = ("ok"@, "v"@ + text);
    let new = ("installed"@, text);
    law_each_row_has_its_key(phase, message, w, n, d, s, fine);
    law_each_row_has_its_key(phase, message, w, n, fine, s, begin);
    law_each_row_has_its_key(phase, message, w, n, d, s, on_its_way());
    law_each_row_has_its_key("installing"@, going, w, n, on_its_way(), s, new);
    law_each_row_has_its_key("installing"@, going, w, n, new, s, begin);
    law_each_row_has_its_key("installing"@, going, w, n, on_its_way(), s, ("failed"@, text));
    let up = "正在启动 dsh 服务…"@;
    let r = RunView {
        port,
        url,
        state: checklist(phase, message, w, n, d, s),
        stage: SetupStage::DshCheck,
    };
    let there = setup_step(r, ReplyView::Maybe(Some(text))).1;
    assert(there.effects =~= seq![
        EffectView::Log("  已就绪(v"@ + text + ")"@),
        EffectView::Log("[3/3] 启动 dsh 服务…"@),
        EffectView::Publish(checklist("starting"@, up, w, n, fine, begin)),
    ]);
    let b = setup_step(r, ReplyView::Maybe(None)).0;
    assert(b.state == checklist("installing"@, going, w, n, on_its_way(), s));
    let done = setup_step(b, ReplyView::Captured(Ok(text))).1;
    assert(done.effects =~= seq![
        EffectView::Log("  dsh 安装完成("@ + text + ")"@),
        EffectView::Publish(checklist("installing"@, going, w, n, new, s)),
        EffectView::Log("[3/3] 启动 dsh 服务…"@),
        EffectView::Publish(checklist("starting"@, up, w, n, new, begin)),
    ]);
    let failed = setup_step(b, ReplyView::Captured(Err(text))).1;
    assert(failed.effects =~= seq![
        EffectView::Publish(
            checklist(
                "error"@,
                "dsh 安装失败"@ + ":"@ + text,
                w,
                n,
                ("failed"@, text),
                s,
            ),
        ),
    ]);
}

/// The server is started on the port of the run unless something listens there by now, and
/// is waited for on that port for three minutes. Then the page goes to it. A server that
/// cannot be started, or does not listen in time, ends the run with the reason.
pub proof fn law_startup_sees_to_the_server(
    port: u16,
    url: Seq<char>,
    phase: Seq<char>,
    message: Seq<char>,
    w: Row,
    n: Row,
    d: Row,
    s: Row,
    text: Seq<char>,
)
    ensures
        ({
            let old = checklist(phase, message, w, n, d, s);
            let at = |stage: SetupStage, state: SetupView| RunView { port, url, state, stage };
            let (a, open) = setup_step(at(SetupStage::Port, old), ReplyView::Flag(true));
            let (b, closed) = setup_step(at(SetupStage::Port, old), ReplyView::Flag(false));
            let (c, started) = setup_step(b, ReplyView::Done(Ok(())));
            let (e, refused) = setup_step(b, ReplyView::Done(Err(text)));
            let (f, up) = setup_step(c, ReplyView::Flag(true));
            let (g, down) = setup_step(c, ReplyView::Flag(false));
            let (h, over) = setup_step(g, ReplyView::Text(text));
            let wait = asks(Seq::empty(), RequestView::WaitReady { port, secs: 180 });
            let ready = checklist(
                "ready"@,
                "启动完成"@,
                w,
                n,
                d,
                ("installed"@, local_address(port)),
            );
            let why = "启动 dsh 服务进程失败:"@ + text;
            let bad = checklist(
                "error"@,
                "dsh 服务启动失败"@ + ":"@ + why,
                w,
                n,
                d,
                ("failed"@, why),
            );
            let silent = if text.len() == 0 {
                "dsh 服务启动失败(端口 "@ + decimal(port as nat) + " 未就绪)"@
            } else {
                "dsh 服务启动失败，最近输出：\n"@ + text
            };
            let dead = checklist(
                "error"@,
                "dsh 服务启动失败"@ + ":"@ + silent,
                w,
                n,
                d,
                ("failed"@, silent),
            );
            &&& open == wait
            &&& a == c
            &&& closed == asks(Seq::empty(), RequestView::SpawnServer(port))
            &&& started == wait
            &&& e.state == bad
            &&& refused == (TurnView {
                effects: seq![EffectView::Log("  "@ + why), EffectView::Publish(bad)],
                next: NextView::Failed(why),
            })
            &&& f.state == ready
            &&& up == (TurnView {
                effects: seq![
                    EffectView::Log("  服务已就绪("@ + local_address(port) + ")"@),
                    EffectView::Publish(ready),
                    EffectView::Navigate(url),
                ],
                next: NextView::Finished(Seq::empty()),
            })
            &&& down == asks(Seq::empty(), RequestView::LogTail { port, count: 10 })
            &&& h.state == dead
            &&& over == (TurnView {
                effects: seq![EffectView::Log("  "@ + silent), EffectView::Publish(dead)],
                next: NextView::Failed(silent),
            })
        }),
{
    let why = "启动 dsh 服务进程失败:"@ + text;
    let silent = if text.len() == 0 {
        "dsh 服务启动失败(端口 "@ + decimal(port as nat) + " 未就绪)"@
    } else {
        "dsh 服务启动失败，最近输出：\n"@ + text
    };
    law_each_row_has_its_key(phase, message, w, n, d, s, ("installed"@, local_address(port)));
    law_each_row_has_its_key(phase, message, w, n, d, s, ("failed"@, why));
    law_each_row_has_its_key(phase, message, w, n, d, s, ("failed"@, silent));
    let r = RunView {
        port,
        url,
        state: checklist(phase, message, w, n, d, s),
        stage: SetupStage::Port,
    };
    let b = setup_step(r, ReplyView::Flag(false)).0;
    let c = setup_step(b, ReplyView::Done(Ok(()))).0;
    let g = setup_step(c, ReplyView::Flag(false)).0;
    assert(setup_step(b, ReplyView::Done(Err(text))).1.effects =~= seq![
        EffectView::Log("  "@ + why),
        EffectView::Publish(
            checklist(
                "error"@,
                "dsh 服务启动失败"@ + ":"@ + why,
                w,
                n,
                d,
                ("failed"@, why),
            ),
        ),
    ]);
    assert(setup_step(g, ReplyView::Text(text)).1.effects =~= seq![
        EffectView::Log("  "@ + silent),
        EffectView::Publish(
            checklist(
                "error"@,
                "dsh 服务启动失败"@ + ":"@ + silent,
                w,
                n,
                d,
                ("failed"@, silent),
            ),
        ),
    ]);
}

/// Every request of the startup run that names a port names the port that the run was
/// started with, and every page that it leads to is the one that it was started with.
pub proof fn law_startup_keeps_to_its_port(r: RunView, reply: ReplyView)
    ensures
        ({
            let (post, turn) = setup_step(r, reply);
            &&& post.port == r.port && post.url == r.url
            &&& match turn.next {
                NextView::Ask(RequestView::PortOpen(p)) => p == r.port,
                NextView::Ask(RequestView::SpawnServer(p)) => p == r.port,
                NextView::Ask(RequestView::WaitReady { port, secs }) => port == r.port && secs == 180,
                NextView::Ask(RequestView::LogTail { port, count }) => port == r.port && count == 10,
                _ => true,
            }
            &&& forall|i: int|
                0 <= i < turn.effects.len() ==> ((#[trigger] turn.effects[i]) matches
                    EffectView::Navigate(to) ==> to == r.url)
            &&& r.stage == SetupStage::Spawn && (reply matches ReplyView::Done(Ok(_))) ==> turn.next
                == NextView::Ask(RequestView::WaitReady { port: r.port, secs: 180 })
        }),
{
}

} // verus!
