//! What holds of the checklist and of the runs as wholes.

use crate::command::{npm_install, npm_list, npm_list_prefix};
use crate::download::{download_step, failed_note, measurable, DownloadStage, DownloadView};
use crate::dsh::{
    dsh_outcome, is_shown, restart_step, update_dsh_step, RestartStage, RestartView, UpdateDshStage,
    UpdateDshView,
};
use crate::environment::{prepare_step, Prepare, PrepareStage};
use crate::node::{node_step, NodeStage, NodeView};
use crate::npm::{
    installed_version, listed_version, look_up_start, look_up_step, looked_up, trimmed_output,
    LookUpStage, LookUpView,
};
use crate::protocol::{
    amended, ignored, AmendmentView, Child, EffectView, Exit, NextView, ReleaseErrorView,
    ReleaseView, ReplyView, RequestView,
};
use crate::release::{
    dsh_outdated, finding, finding_shown, newer, plain_version, UpdateInfoView,
};
use crate::scripts::swap_text;
use crate::server::url_of;
use crate::setup::{
    no_server, ready, row_installed, row_ok, setup_start, setup_step, RunView, SetupStage,
};
use crate::state::{
    active_phase, failed_update, initial_setup, pending_rows, plain_update, row_from, rows_with,
    with_item, ItemView, SetupView, UpdateView,
};
use crate::text::trim;
use crate::update::{auto_step, update_app_step, AutoStage, AutoView, UpdateAppStage, UpdateAppView};
use crate::wait::{
    exit_reason, port_step, ready_step, timeout_reason, waiting_report, PortStage, ReadyStage,
    WaitPort, WaitReady, REPORT_EVERY,
};
use vstd::prelude::*;

verus! {

// ---- the checklist ----

/// Whether two lists of rows have the same keys and labels in the same order.
pub open spec fn same_rows(a: Seq<ItemView>, b: Seq<ItemView>) -> bool {
    &&& a.len() == b.len()
    &&& forall|i: int|
        0 <= i < a.len() ==> (#[trigger] a[i]).key == b[i].key && a[i].label == b[i].label
}

/// Whether some row has the key `key`.
pub open spec fn has_row(items: Seq<ItemView>, key: Seq<char>) -> bool {
    exists|i: int| 0 <= i < items.len() && (#[trigger] items[i]).key == key
}

proof fn lemma_first_row(items: Seq<ItemView>, key: Seq<char>, i: int)
    requires
        0 <= i,
    ensures
        match row_from(items, key, i) {
            Some(k) => {
                &&& i <= k < items.len()
                &&& items[k].key == key
                &&& forall|j: int| i <= j < k ==> (#[trigger] items[j]).key != key
            },
            None => forall|j: int| i <= j < items.len() ==> (#[trigger] items[j]).key != key,
        },
    decreases items.len() - i,
{
    if i < items.len() && items[i].key != key {
        lemma_first_row(items, key, i + 1);
    }
}

proof fn lemma_row_from_keys(a: Seq<ItemView>, b: Seq<ItemView>, key: Seq<char>, i: int)
    requires
        same_rows(a, b),
        0 <= i,
    ensures
        row_from(a, key, i) == row_from(b, key, i),
    decreases a.len() - i,
{
    if i < a.len() {
        assert(a[i].key == b[i].key);
        lemma_row_from_keys(a, b, key, i + 1);
    }
}

/// A new status changes no key, no label and no row of another key, and the number of
/// rows stays what it was.
pub proof fn law_status_keeps_the_rest(
    items: Seq<ItemView>,
    key: Seq<char>,
    status: Seq<char>,
    detail: Seq<char>,
)
    ensures
        same_rows(rows_with(items, key, status, detail), items),
        forall|i: int|
            0 <= i < items.len() && (#[trigger] items[i]).key != key ==> rows_with(
                items,
                key,
                status,
                detail,
            )[i] == items[i],
{
    lemma_first_row(items, key, 0);
}

/// A new status for a key that no row has changes nothing.
pub proof fn law_unknown_key_is_ignored(
    items: Seq<ItemView>,
    key: Seq<char>,
    status: Seq<char>,
    detail: Seq<char>,
)
    requires
        !has_row(items, key),
    ensures
        rows_with(items, key, status, detail) == items,
{
    lemma_first_row(items, key, 0);
}

/// A new status is found in the first row of its key.
pub proof fn law_status_is_set(
    items: Seq<ItemView>,
    key: Seq<char>,
    status: Seq<char>,
    detail: Seq<char>,
)
    requires
        has_row(items, key),
    ensures
        row_from(rows_with(items, key, status, detail), key, 0) == row_from(items, key, 0),
        row_from(items, key, 0) matches Some(i) && 0 <= i < items.len() && rows_with(
            items,
            key,
            status,
            detail,
        )[i] == (ItemView { status, detail, ..items[i] }),
{
    lemma_first_row(items, key, 0);
    law_status_keeps_the_rest(items, key, status, detail);
    lemma_row_from_keys(rows_with(items, key, status, detail), items, key, 0);
}

/// Of two statuses for one key the second is kept.
pub proof fn law_last_status_wins(
    items: Seq<ItemView>,
    key: Seq<char>,
    status1: Seq<char>,
    detail1: Seq<char>,
    status2: Seq<char>,
    detail2: Seq<char>,
)
    ensures
        rows_with(rows_with(items, key, status1, detail1), key, status2, detail2) == rows_with(
            items,
            key,
            status2,
            detail2,
        ),
{
    lemma_first_row(items, key, 0);
    law_status_keeps_the_rest(items, key, status1, detail1);
    lemma_row_from_keys(rows_with(items, key, status1, detail1), items, key, 0);
    assert(rows_with(rows_with(items, key, status1, detail1), key, status2, detail2) =~= rows_with(
        items,
        key,
        status2,
        detail2,
    ));
}

/// Statuses for different keys can be set in any order.
pub proof fn law_statuses_commute(
    items: Seq<ItemView>,
    key1: Seq<char>,
    status1: Seq<char>,
    detail1: Seq<char>,
    key2: Seq<char>,
    status2: Seq<char>,
    detail2: Seq<char>,
)
    requires
        key1 != key2,
    ensures
        rows_with(rows_with(items, key1, status1, detail1), key2, status2, detail2) == rows_with(
            rows_with(items, key2, status2, detail2),
            key1,
            status1,
            detail1,
        ),
{
    let a = rows_with(items, key1, status1, detail1);
    let b = rows_with(items, key2, status2, detail2);
    lemma_first_row(items, key1, 0);
    lemma_first_row(items, key2, 0);
    law_status_keeps_the_rest(items, key1, status1, detail1);
    law_status_keeps_the_rest(items, key2, status2, detail2);
    lemma_row_from_keys(a, items, key2, 0);
    lemma_row_from_keys(b, items, key1, 0);
    assert(rows_with(a, key2, status2, detail2) =~= rows_with(b, key1, status1, detail1));
}

/// A change to the checklist on show touches no row.
pub proof fn law_amendment_keeps_rows(state: SetupView, change: AmendmentView)
    ensures
        amended(state, change).items == state.items,
        amended(state, change).message == change.message,
{
}

// ---- the startup run ----

/// How far the startup run has come.
pub open spec fn setup_rank(stage: SetupStage) -> nat {
    match stage {
        SetupStage::Running => 0,
        SetupStage::NodeCheck => 1,
        SetupStage::NodeVersion => 2,
        SetupStage::NodeInstall => 2,
        SetupStage::DshCheck => 3,
        SetupStage::DshInstall => 4,
        SetupStage::Port => 5,
        SetupStage::Spawn => 6,
        SetupStage::Wait => 7,
        SetupStage::Tail => 8,
        SetupStage::Over => 9,
    }
}

/// Every reply that the startup run takes brings it nearer to its end, and the run is over
/// exactly when it has told how it ended. So a run asks nine questions at most.
pub proof fn law_setup_comes_to_an_end(r: RunView, reply: ReplyView)
    ensures
        ({
            let (post, turn) = setup_step(r, reply);
            &&& turn.next is Ignored ==> post == r && turn == ignored()
            &&& !(turn.next is Ignored) ==> setup_rank(post.stage) > setup_rank(r.stage)
            &&& turn.next is Ask ==> post.stage != SetupStage::Over
            &&& turn.next is Finished || turn.next is Failed ==> post.stage == SetupStage::Over
            &&& post.port == r.port && post.url == r.url
        }),
{
}

/// A startup run that is over takes no reply.
pub proof fn law_setup_over_stays_over(r: RunView, reply: ReplyView)
    requires
        r.stage == SetupStage::Over,
    ensures
        setup_step(r, reply) == (r, ignored()),
{
}

/// Whether every checklist that `list` puts on show has the rows of `items`.
pub open spec fn shows_rows(list: Seq<EffectView>, items: Seq<ItemView>) -> bool {
    forall|i: int|
        0 <= i < list.len() ==> ((#[trigger] list[i]) matches EffectView::Publish(s) ==> same_rows(
            s.items,
            items,
        ))
}

proof fn lemma_with_item(s: SetupView, key: Seq<char>, status: Seq<char>, detail: Seq<char>)
    ensures
        same_rows(with_item(s, key, status, detail).items, s.items),
{
    law_status_keeps_the_rest(s.items, key, status, detail);
}

proof fn lemma_same_rows_trans(a: Seq<ItemView>, b: Seq<ItemView>, c: Seq<ItemView>)
    requires
        same_rows(a, b),
        same_rows(b, c),
    ensures
        same_rows(a, c),
{
    assert forall|i: int| 0 <= i < a.len() implies (#[trigger] a[i]).key == c[i].key && a[i].label
        == c[i].label by {
        assert(a[i].key == b[i].key);
        assert(b[i].key == c[i].key);
    }
}

proof fn lemma_two_items(
    s: SetupView,
    m: SetupView,
    key: Seq<char>,
    status: Seq<char>,
    detail: Seq<char>,
)
    requires
        same_rows(m.items, s.items),
    ensures
        same_rows(with_item(m, key, status, detail).items, s.items),
{
    lemma_with_item(m, key, status, detail);
    lemma_same_rows_trans(with_item(m, key, status, detail).items, m.items, s.items);
}

/// The startup run keeps the rows of its checklist: their number, their order, their keys
/// and their labels, also in everything that it puts on show.
pub proof fn law_setup_keeps_the_rows(r: RunView, reply: ReplyView)
    ensures
        same_rows(setup_step(r, reply).0.state.items, r.state.items),
        shows_rows(setup_step(r, reply).1.effects, r.state.items),
{
    let s = r.state;
    match (r.stage, reply) {
        (SetupStage::Running, ReplyView::Flag(open)) => {
            let a = row_ok(s, "webview2"@, "已就绪"@);
            lemma_with_item(s, "webview2"@, "ok"@, "已就绪"@);
            if open {
                let b = row_ok(a, "node"@, "已就绪"@);
                let c = row_ok(b, "dsh"@, "已就绪"@);
                lemma_two_items(s, a, "node"@, "ok"@, "已就绪"@);
                lemma_two_items(s, b, "dsh"@, "ok"@, "已就绪"@);
                lemma_two_items(s, c, "service"@, "installed"@, url_of(r.port));
            } else {
                lemma_two_items(s, a, "node"@, "checking"@, "检测中…"@);
            }
        },
        (SetupStage::NodeCheck, ReplyView::Flag(available)) => {
            lemma_with_item(s, "node"@, "installing"@, "正在自动安装…"@);
        },
        (SetupStage::NodeVersion, ReplyView::Text(v)) => {
            lemma_with_item(s, "node"@, "ok"@, v);
            lemma_two_items(s, row_ok(s, "node"@, v), "dsh"@, "checking"@, "检测中…"@);
        },
        (SetupStage::NodeInstall, ReplyView::Captured(Ok(v))) => {
            lemma_with_item(s, "node"@, "installed"@, v);
            lemma_two_items(s, row_installed(s, "node"@, v), "dsh"@, "checking"@, "检测中…"@);
        },
        (SetupStage::NodeInstall, ReplyView::Captured(Err(e))) => {
            lemma_with_item(s, "node"@, "failed"@, e);
        },
        (SetupStage::DshCheck, ReplyView::Maybe(Some(v))) => {
            lemma_with_item(s, "dsh"@, "ok"@, "v"@ + v);
            lemma_two_items(s, row_ok(s, "dsh"@, "v"@ + v), "service"@, "ok"@, "正在启动…"@);
        },
        (SetupStage::DshCheck, ReplyView::Maybe(None)) => {
            lemma_with_item(s, "dsh"@, "installing"@, "正在自动安装…"@);
        },
        (SetupStage::DshInstall, ReplyView::Captured(Ok(v))) => {
            lemma_with_item(s, "dsh"@, "installed"@, v);
            lemma_two_items(s, row_installed(s, "dsh"@, v), "service"@, "ok"@, "正在启动…"@);
        },
        (SetupStage::DshInstall, ReplyView::Captured(Err(e))) => {
            lemma_with_item(s, "dsh"@, "failed"@, e);
        },
        (SetupStage::Spawn, ReplyView::Done(Err(e))) => {
            lemma_with_item(s, "service"@, "failed"@, "启动 dsh 服务进程失败:"@ + e);
        },
        (SetupStage::Wait, ReplyView::Flag(up)) => {
            lemma_with_item(s, "service"@, "installed"@, url_of(r.port));
        },
        (SetupStage::Tail, ReplyView::Text(tail)) => {
            lemma_with_item(s, "service"@, "failed"@, no_server(r.port, tail));
        },
        _ => {},
    }
}

/// The checklist starts with a row for each of the steps, and keeps them.
pub proof fn law_setup_has_all_rows(a: Seq<ItemView>, b: Seq<ItemView>, key: Seq<char>)
    requires
        same_rows(a, b),
    ensures
        has_row(initial_setup().items, "webview2"@),
        has_row(initial_setup().items, "node"@),
        has_row(initial_setup().items, "dsh"@),
        has_row(initial_setup().items, "service"@),
        has_row(a, key) <==> has_row(b, key),
{
    let p = pending_rows();
    assert(p[0].key == "webview2"@);
    assert(p[1].key == "node"@);
    assert(p[2].key == "dsh"@);
    assert(p[3].key == "service"@);
    assert forall|i: int| 0 <= i < b.len() implies (#[trigger] b[i]).key == a[i].key by {
        assert(a[i].key == b[i].key);
    }
}

/// A startup run that ends well has the server's row say where it listens, puts that
/// checklist on show as ready, and then leads the harness page to the server.
pub proof fn law_setup_success(r: RunView, reply: ReplyView)
    requires
        setup_step(r, reply).1.next is Finished,
        has_row(r.state.items, "service"@),
    ensures
        ({
            let (post, turn) = setup_step(r, reply);
            let n = turn.effects.len();
            &&& post.state.phase == "ready"@
            &&& post.state.progress is None
            &&& n >= 2
            &&& turn.effects[n - 2] == EffectView::Publish(post.state)
            &&& turn.effects[n - 1] == EffectView::Navigate(r.url)
            &&& row_from(post.state.items, "service"@, 0) matches Some(i)
            &&& post.state.items[i].status == "installed"@
            &&& post.state.items[i].detail == url_of(r.port)
        }),
{
    law_setup_keeps_the_rows(r, reply);
    if r.stage == SetupStage::Running {
        let s = r.state;
        let a = row_ok(s, "webview2"@, "已就绪"@);
        let b = row_ok(a, "node"@, "已就绪"@);
        let c = row_ok(b, "dsh"@, "已就绪"@);
        lemma_with_item(s, "webview2"@, "ok"@, "已就绪"@);
        lemma_two_items(s, a, "node"@, "ok"@, "已就绪"@);
        lemma_two_items(s, b, "dsh"@, "ok"@, "已就绪"@);
        let i = choose|i: int| 0 <= i < s.items.len() && (#[trigger] s.items[i]).key == "service"@;
        assert(c.items[i].key == s.items[i].key);
        law_status_is_set(c.items, "service"@, "installed"@, url_of(r.port));
    } else {
        law_status_is_set(r.state.items, "service"@, "installed"@, url_of(r.port));
    }
}

/// A startup run that fails says why: the checklist that it puts on show last is an error
/// whose message ends with the reason, and the row of the failed step is marked and holds
/// the reason.
pub proof fn law_setup_failure(r: RunView, reply: ReplyView)
    requires
        setup_step(r, reply).1.next is Failed,
        has_row(r.state.items, "node"@),
        has_row(r.state.items, "dsh"@),
        has_row(r.state.items, "service"@),
    ensures
        ({
            let (post, turn) = setup_step(r, reply);
            let reason = turn.next->Failed_0;
            &&& post.state.phase == "error"@
            &&& post.state.progress is None
            &&& exists|title: Seq<char>| post.state.message == #[trigger] (title + ":"@) + reason
            &&& turn.effects.len() > 0
            &&& turn.effects.last() == EffectView::Publish(post.state)
            &&& exists|i: int|
                0 <= i < post.state.items.len() && (#[trigger] post.state.items[i]).status
                    == "failed"@ && post.state.items[i].detail == reason
        }),
{
    let (post, turn) = setup_step(r, reply);
    let reason = turn.next->Failed_0;
    match r.stage {
        SetupStage::NodeInstall => {
            law_status_is_set(r.state.items, "node"@, "failed"@, reason);
            let i = row_from(r.state.items, "node"@, 0)->0;
            assert(post.state.items[i].status == "failed"@);
            assert(post.state.message == ("Node.js 安装失败"@ + ":"@) + reason);
        },
        SetupStage::DshInstall => {
            law_status_is_set(r.state.items, "dsh"@, "failed"@, reason);
            let i = row_from(r.state.items, "dsh"@, 0)->0;
            assert(post.state.items[i].status == "failed"@);
            assert(post.state.message == ("dsh 安装失败"@ + ":"@) + reason);
        },
        _ => {
            law_status_is_set(r.state.items, "service"@, "failed"@, reason);
            let i = row_from(r.state.items, "service"@, 0)->0;
            assert(post.state.items[i].status == "failed"@);
            assert(post.state.message == ("dsh 服务启动失败"@ + ":"@) + reason);
        },
    }
}

/// dsh is installed by the startup run only after Node.js was found or installed, and the
/// server is started only when nothing listens on its port.
pub proof fn law_setup_order(r: RunView, reply: ReplyView)
    ensures
        setup_step(r, reply).1.next == NextView::Ask(RequestView::DshVersion) ==> (r.stage
            == SetupStage::NodeVersion || (r.stage == SetupStage::NodeInstall && reply matches
            ReplyView::Captured(Ok(_)))),
        setup_step(r, reply).1.next == NextView::Ask(RequestView::InstallDsh) ==> r.stage
            == SetupStage::DshCheck && reply == ReplyView::Maybe(None),
        setup_step(r, reply).1.next matches NextView::Ask(RequestView::SpawnServer(p)) ==> r.stage
            == SetupStage::Port && reply == ReplyView::Flag(false) && p == r.port,
{
}

/// The startup run begins with the four rows and is connected at once where the server
/// runs already: nothing is checked and nothing is installed.
pub proof fn law_running_server_is_used(port: u16, url: Seq<char>)
    ensures
        ({
            let start = setup_start(port, url);
            let (post, turn) = setup_step(start.0, ReplyView::Flag(true));
            &&& start.0.state.items == pending_rows()
            &&& start.1.next == NextView::Ask(RequestView::PortOpen(port))
            &&& post.stage == SetupStage::Over
            &&& turn.next is Finished
            &&& turn.effects.last() == EffectView::Navigate(url)
        }),
{
}

// ---- waiting ----

/// A server process that ends before its port opens ends the wait at once, whatever time
/// is left, and the reason holds its exit code and the end of its log.
pub proof fn law_wait_fails_fast(w: WaitReady, exit: Exit, tail: Seq<char>)
    requires
        w.stage == ReadyStage::Process,
    ensures
        ({
            let (mid, asked) = ready_step(w, ReplyView::Ended(Some(exit)));
            let (post, turn) = ready_step(mid, ReplyView::Text(tail));
            &&& asked.next == NextView::Ask(RequestView::LogTail { port: w.port, count: 10 })
            &&& turn.next == NextView::Failed(exit_reason(exit, tail))
            &&& post.stage == ReadyStage::Over
        }),
{
}

/// As long as time is left and the server process has not ended, the wait looks at the
/// port again; when time is up, it fails and says so.
pub proof fn law_wait_lasts_as_long_as_told(w: WaitReady, now: u64, tail: Seq<char>)
    requires
        w.stage == ReadyStage::Clock,
    ensures
        ({
            let (mid, turn) = ready_step(w, ReplyView::Nanos(now));
            let (post, last) = ready_step(mid, ReplyView::Text(tail));
            &&& now < w.timeout ==> turn.next == NextView::Ask(RequestView::PortOpen(w.port))
            &&& now >= w.timeout ==> last.next == NextView::Failed(timeout_reason(w.port, tail))
                && post.stage == ReadyStage::Over
        }),
{
}

/// The wait is reported whenever five seconds have passed since the last report.
pub proof fn law_wait_is_reported(w: WaitReady, now: u64)
    requires
        w.stage == ReadyStage::Clock,
        now < w.timeout,
        now - w.reported >= REPORT_EVERY,
    ensures
        ready_step(w, ReplyView::Nanos(now)).1.effects[0] == waiting_report(now),
        ready_step(w, ReplyView::Nanos(now)).0.reported == now,
{
}

/// An open port ends either wait well.
pub proof fn law_open_port_ends_the_wait(w: WaitReady, p: WaitPort)
    requires
        w.stage == ReadyStage::Port,
        p.stage == PortStage::Port,
    ensures
        ready_step(w, ReplyView::Flag(true)).1.next is Finished,
        port_step(p, ReplyView::Flag(true)).1.next is Finished,
{
}

// ---- downloads ----

/// A download ends well only after its script has succeeded and has left a file that is
/// not empty, and it gives the path of that file.
pub proof fn law_download_success(d: DownloadView, reply: ReplyView)
    ensures
        download_step(d, reply).1.next matches NextView::Finished(path) ==> {
            &&& path == d.dest
            &&& d.stage == DownloadStage::Length
            &&& reply matches ReplyView::Number(n)
            &&& n > 0
        },
        download_step(d, reply).0.stage == DownloadStage::Length && d.stage
            != DownloadStage::Length ==> reply == ReplyView::Child(Child::Exited { success: true }),
{
}

/// The script of a download is removed as soon as it has ended or can no longer be watched.
pub proof fn law_download_cleans_up(d: DownloadView, child: Child)
    requires
        d.stage == DownloadStage::Poll,
        child != Child::Running,
    ensures
        download_step(d, ReplyView::Child(child)).1.effects == seq![
            EffectView::RemoveFile(d.script),
        ],
{
}

/// A download that fails for a reason that its script gives tells that reason; one whose
/// script gives none still says that it failed.
pub proof fn law_download_gives_a_reason(d: DownloadView, text: Seq<char>)
    requires
        d.stage == DownloadStage::Reason,
    ensures
        download_step(d, ReplyView::Text(text)).1.next matches NextView::Failed(reason) && if trim(
            text,
        ).len() > 0 {
            reason == trim(text)
        } else {
            reason == failed_note(d.kind)
        },
{
}

/// A download shows a progress exactly where its total is known to be more than nothing;
/// else the bar on show has no length.
pub proof fn law_progress_only_where_it_can_be_measured(d: DownloadView, reply: ReplyView)
    ensures
        forall|i: int|
            0 <= i < download_step(d, reply).1.effects.len() ==> match (#[trigger] download_step(
                d,
                reply,
            ).1.effects[i]) {
                EffectView::PublishUpdate(s) => s.progress is Some <==> measurable(d.total) is Some,
                EffectView::Amend(c) => c.progress matches Some(p) && (p is Some <==> measurable(
                    d.total,
                ) is Some),
                _ => true,
            },
{
}

// ---- dsh ----

/// The lookup of the installed dsh finds the version in the global prefix, or else the one
/// in the user's prefix, which is asked only where the global one has none.
pub proof fn law_look_up_asks_the_user_prefix_last(
    prefix: Seq<char>,
    global: Result<Seq<char>, Seq<char>>,
    user: Result<Seq<char>, Seq<char>>,
)
    ensures
        ({
            let (a, t0) = look_up_start(prefix);
            let (b, t1) = look_up_step(a, ReplyView::Captured(global));
            let (_, t2) = look_up_step(b, ReplyView::Captured(user));
            &&& t0.next == NextView::Ask(RequestView::Capture(npm_list()))
            &&& if listed_version(global) is Some {
                t1 == looked_up(installed_version(global, user))
            } else {
                &&& t1.next == NextView::Ask(RequestView::Capture(npm_list_prefix(prefix)))
                &&& t2 == looked_up(installed_version(global, user))
            }
        }),
{
}

// ---- Node.js ----

/// The ways to install Node.js are tried in order: the official installer after winget was
/// missing or has not done it, the portable archive after the installer has failed.
pub proof fn law_node_ways_in_order(n: NodeView, reply: ReplyView)
    ensures
        node_step(n, reply).0.stage == NodeStage::Latest && n.stage != NodeStage::Latest ==> (n.stage
            == NodeStage::FindWinget || n.stage == NodeStage::Winget || n.stage
            == NodeStage::WingetCheck),
        node_step(n, reply).1.next matches NextView::Ask(RequestView::InstallNodeMsi { .. })
            ==> n.stage == NodeStage::Latest,
        node_step(n, reply).1.next matches NextView::Ask(RequestView::InstallNodeZip { .. })
            ==> n.stage == NodeStage::Installer && reply matches ReplyView::Captured(Err(_)),
        node_step(n, reply).1.next is Failed ==> n.stage == NodeStage::Latest || n.stage
            == NodeStage::Archive,
{
}

// ---- updates ----

/// Whether every update state that `list` puts on show is one of an update under way.
pub open spec fn shows_active(list: Seq<EffectView>) -> bool {
    forall|i: int|
        0 <= i < list.len() ==> ((#[trigger] list[i]) matches EffectView::PublishUpdate(s)
            ==> active_phase(s.phase))
}

/// As long as an update of dsh or of the application, or the download for it, has not
/// ended, what it puts on show is the state of an update under way, so that no second
/// update can begin.
pub proof fn law_updates_show_that_they_run(
    d: UpdateDshView,
    u: UpdateAppView,
    f: DownloadView,
    reply: ReplyView,
)
    ensures
        shows_active(update_dsh_step(d, reply).1.effects),
        shows_active(update_app_step(u, reply).1.effects),
        shows_active(download_step(f, reply).1.effects),
{
}

/// The state of an update that is on show after some effects, where `before` was on show.
pub open spec fn shown_after(before: UpdateView, list: Seq<EffectView>) -> UpdateView
    decreases list.len(),
{
    if list.len() == 0 {
        before
    } else {
        match list.last() {
            EffectView::PublishUpdate(s) => s,
            _ => shown_after(before, list.drop_last()),
        }
    }
}

proof fn lemma_shown_toast(before: UpdateView, list: Seq<EffectView>, note: Seq<char>)
    ensures
        shown_after(before, list + seq![EffectView::Toast(note)]) == shown_after(before, list),
{
    let all = list + seq![EffectView::Toast(note)];
    assert(all.drop_last() =~= list);
}

proof fn lemma_shown_first(
    before: UpdateView,
    list: Seq<EffectView>,
    s: UpdateView,
    note: Seq<char>,
)
    ensures
        shown_after(
            before,
            list + seq![EffectView::PublishUpdate(s), EffectView::Toast(note)],
        ) == s,
{
    let all = list + seq![EffectView::PublishUpdate(s), EffectView::Toast(note)];
    assert(all.drop_last() =~= list.push(EffectView::PublishUpdate(s)));
    assert(shown_after(before, all.drop_last()) == s);
}

proof fn lemma_resting_phases()
    ensures
        !active_phase("done"@),
        !active_phase("error"@),
        !active_phase("idle"@),
{
    reveal_strlit("done");
    reveal_strlit("error");
    reveal_strlit("idle");
    reveal_strlit("checking");
    reveal_strlit("downloading");
    reveal_strlit("installing");
    reveal_strlit("restarting");
    reveal_strlit("finalizing");
    assert("done"@.len() == 4 && "error"@.len() == 5 && "idle"@.len() == 4);
    assert("checking"@.len() == 8 && "downloading"@.len() == 11 && "installing"@.len() == 10);
    assert("restarting"@.len() == 10 && "finalizing"@.len() == 10);
}

/// An update or a check that has ended is not shown as under way, whatever was on show
/// before, so that it keeps no later one out: an update of dsh, an update of the
/// application that has failed, a check, and what the look for updates tells of an update
/// of the application that has failed.
#[verifier::spinoff_prover]
#[verifier::rlimit(60)]
pub proof fn law_ended_updates_are_not_active(
    before: UpdateView,
    outcome: Result<Seq<char>, Seq<char>>,
    title: Seq<char>,
    reason: Seq<char>,
    found: Result<UpdateInfoView, Seq<char>>,
    a: AutoView,
)
    ensures
        !active_phase(shown_after(before, dsh_outcome(outcome)).phase),
        !active_phase(failed_update(title, reason).phase),
        !active_phase(finding_shown(found).phase),
        a.stage == AutoStage::App ==> !active_phase(
            shown_after(before, auto_step(a, ReplyView::Done(Err(reason))).1.effects).phase,
        ),
{
    lemma_resting_phases();
    match outcome {
        Ok(note) => {
            lemma_shown_first(before, Seq::empty(), plain_update("done"@, note), note);
        },
        Err(e) => {
            lemma_shown_first(
                before,
                Seq::empty(),
                failed_update("dsh 更新失败"@, e),
                "dsh 更新失败:"@ + e,
            );
        },
    }
    lemma_shown_first(
        before,
        Seq::empty(),
        failed_update("自动更新应用失败"@, reason),
        "自动更新应用失败:"@ + reason,
    );
}

/// Whether the state `shown` of an update can be on show while the look for updates waits:
/// one under way only while the application or dsh is updated, and of dsh only once its
/// update has put itself on show.
pub open spec fn auto_shows(a: AutoView, shown: UpdateView) -> bool {
    active_phase(shown.phase) ==> a.stage == AutoStage::App || (a.stage == AutoStage::Dsh
        && is_shown(a.update.stage))
}

/// Where no update is on show as under way when the look for updates begins, one is only
/// while the application or dsh is updated, and none is when the look ends. An application
/// that was updated ends itself, so that case is left out.
#[verifier::spinoff_prover]
#[verifier::rlimit(60)]
pub proof fn law_auto_update_ends_at_rest(shown: UpdateView, a: AutoView, reply: ReplyView)
    requires
        auto_shows(a, shown),
        !(a.stage == AutoStage::App && reply matches ReplyView::Done(Ok(_))),
    ensures
        ({
            let (post, turn) = auto_step(a, reply);
            let after = shown_after(shown, turn.effects);
            &&& auto_shows(post, after)
            &&& turn.next is Finished ==> !active_phase(after.phase)
        }),
{
    let turn = auto_step(a, reply).1;
    match (a.stage, reply) {
        (AutoStage::Release, ReplyView::Release(Ok(r))) => {
            if newer(plain_version(r.tag_name), a.current) {
                lemma_shown_toast(shown, Seq::empty(), "发现新版本，正在后台更新应用…"@);
            }
        },
        (AutoStage::App, ReplyView::Done(Err(e))) => {
            law_ended_updates_are_not_active(
                shown,
                Ok(e),
                Seq::empty(),
                e,
                Err(Seq::empty()),
                a,
            );
        },
        (AutoStage::Dsh, _) => {
            let inner = update_dsh_step(a.update, reply).1;
            lemma_resting_phases();
            match inner.next {
                NextView::Finished(note) => {
                    lemma_shown_first(shown, inner.effects, plain_update("done"@, note), note);
                },
                NextView::Failed(e) => {
                    let toast = "自动更新 dsh 失败:"@ + e;
                    lemma_shown_first(
                        shown,
                        inner.effects,
                        failed_update("自动更新 dsh 失败"@, e),
                        toast,
                    );
                    lemma_shown_toast(shown, inner.effects, toast);
                },
                _ => {},
            }
        },
        _ => {},
    }
}

/// An automatic update of dsh that fails before it has put itself on show leaves what is on
/// show as it was, and is told of by a note alone.
#[verifier::spinoff_prover]
#[verifier::rlimit(60)]
pub proof fn law_unseen_failure_changes_nothing_on_show(
    shown: UpdateView,
    a: AutoView,
    reply: ReplyView,
)
    requires
        a.stage == AutoStage::Dsh,
        !is_shown(a.update.stage),
        update_dsh_step(a.update, reply).1.next is Failed,
    ensures
        shown_after(shown, auto_step(a, reply).1.effects) == shown,
        auto_step(a, reply).1.effects == seq![
            EffectView::Toast(
                "自动更新 dsh 失败:"@ + update_dsh_step(a.update, reply).1.next->Failed_0,
            ),
        ],
{
    let e = update_dsh_step(a.update, reply).1.next->Failed_0;
    let toast = "自动更新 dsh 失败:"@ + e;
    lemma_shown_toast(shown, Seq::empty(), toast);
    assert(auto_step(a, reply).1.effects =~= seq![EffectView::Toast(toast)]);
    assert(Seq::<EffectView>::empty() + seq![EffectView::Toast(toast)] =~= seq![
        EffectView::Toast(toast),
    ]);
}

/// Where the newest dsh is installed already, nothing is stopped and nothing is installed.
pub proof fn law_current_dsh_is_left_alone(d: UpdateDshView, out: Seq<char>)
    requires
        d.stage == UpdateDshStage::Latest,
        trim(out).len() > 0,
        d.current == Some(trim(out)),
    ensures
        update_dsh_step(d, ReplyView::Captured(Ok(out))).1.effects.len() == 0,
        update_dsh_step(d, ReplyView::Captured(Ok(out))).1.next is Finished,
{
}

/// dsh is installed by an update only after its server was stopped, and the server is
/// started again only after the installation has succeeded.
pub proof fn law_update_stops_the_server_first(d: UpdateDshView, reply: ReplyView)
    ensures
        update_dsh_step(d, reply).1.next == NextView::Ask(RequestView::Capture(npm_install()))
            && d.stage == UpdateDshStage::Latest ==> update_dsh_step(d, reply).1.effects.last()
            == EffectView::StopServer(d.port),
        update_dsh_step(d, reply).0.stage == UpdateDshStage::Install && d.stage
            != UpdateDshStage::Install ==> update_dsh_step(d, reply).1.effects.last()
            == EffectView::StopServer(d.port),
        update_dsh_step(d, reply).1.next matches NextView::Ask(RequestView::SpawnServer(p)) ==> {
            &&& d.stage == UpdateDshStage::Install
            &&& reply matches ReplyView::Captured(Ok(_))
            &&& p == d.port
        },
{
}

/// From the downloaded file on, the update of the application writes a helper that puts
/// that file in the place of the executable that runs, starts the helper and ends.
pub proof fn law_update_replaces_the_executable(
    u: UpdateAppView,
    path: Seq<char>,
    log: Seq<char>,
    helper: Seq<char>,
)
    requires
        u.stage == UpdateAppStage::Download,
    ensures
        ({
            let (a, _) = update_app_step(u, ReplyView::Captured(Ok(path)));
            let (b, _) = update_app_step(a, ReplyView::Text(log));
            let (c, write) = update_app_step(b, ReplyView::Text(helper));
            let (_, end) = update_app_step(c, ReplyView::Done(Ok(())));
            &&& write.next == NextView::Ask(
                RequestView::WriteFile {
                    path: helper,
                    text: swap_text(u.exe, path, u.target, log),
                },
            )
            &&& end.effects == seq![EffectView::LaunchHelper(helper), EffectView::Exit(0)]
            &&& end.next is Finished
        }),
{
}

/// The application ends itself for an update only after the helper was written.
pub proof fn law_update_exits_last(u: UpdateAppView, reply: ReplyView)
    ensures
        forall|i: int|
            0 <= i < update_app_step(u, reply).1.effects.len() && (#[trigger] update_app_step(
                u,
                reply,
            ).1.effects[i]) is Exit ==> u.stage == UpdateAppStage::Write && reply matches
                ReplyView::Done(Ok(_)),
{
}

/// The look for updates says nothing and changes nothing where neither the application nor
/// dsh has anything newer, or where the release cannot be looked up.
#[verifier::spinoff_prover]
#[verifier::rlimit(60)]
pub proof fn law_auto_update_is_silent(
    a: AutoView,
    release: Result<ReleaseView, ReleaseErrorView>,
    dsh: Option<Seq<char>>,
    published: Result<Seq<char>, Seq<char>>,
)
    requires
        a.stage == AutoStage::Release,
        release matches Ok(r) ==> !newer(plain_version(r.tag_name), a.current),
        !dsh_outdated(dsh, trimmed_output(published)),
    ensures
        ({
            let (b, t1) = auto_step(a, ReplyView::Release(release));
            let (c, t2) = auto_step(b, ReplyView::Maybe(dsh));
            let (_, t3) = auto_step(c, ReplyView::Captured(published));
            &&& t1.effects.len() == 0
            &&& t2.effects.len() == 0
            &&& t3.effects.len() == 0
            &&& t3.next is Finished
        }),
{
}

/// The look for updates goes on to dsh whatever became of the application.
pub proof fn law_auto_update_reaches_dsh(a: AutoView, outcome: Result<(), Seq<char>>)
    requires
        a.stage == AutoStage::App,
    ensures
        auto_step(a, ReplyView::Done(outcome)).1.next == NextView::Ask(RequestView::DshVersion),
{
}

/// Where nothing is published yet, a check finds that what runs is up to date.
pub proof fn law_no_release_is_up_to_date(current: Seq<char>)
    ensures
        finding(current, Err(ReleaseErrorView::NoRelease)) matches Ok(i) && !i.update_available
            && i.current == current && i.latest == current,
{
}

/// A run that is over takes no reply.
#[verifier::spinoff_prover]
#[verifier::rlimit(60)]
pub proof fn law_ended_runs_stay_ended(
    w: WaitReady,
    p: WaitPort,
    f: DownloadView,
    d: UpdateDshView,
    u: UpdateAppView,
    a: AutoView,
    s: RestartView,
    n: NodeView,
    l: LookUpView,
    reply: ReplyView,
)
    ensures
        l.stage == LookUpStage::Over ==> look_up_step(l, reply) == (l, ignored()),
        w.stage == ReadyStage::Over ==> ready_step(w, reply) == (w, ignored()),
        p.stage == PortStage::Over ==> port_step(p, reply) == (p, ignored()),
        f.stage == DownloadStage::Over ==> download_step(f, reply) == (f, ignored()),
        d.stage == UpdateDshStage::Over ==> update_dsh_step(d, reply) == (d, ignored()),
        u.stage == UpdateAppStage::Over ==> update_app_step(u, reply) == (u, ignored()),
        a.stage == AutoStage::Over ==> auto_step(a, reply) == (a, ignored()),
        s.stage == RestartStage::Over ==> restart_step(s, reply) == (s, ignored()),
        n.stage == NodeStage::Over ==> node_step(n, reply) == (n, ignored()),
{
}

// ---- before the first page ----

/// The application goes on to its pages only where the WebView2 runtime was found or
/// installed; else it tells the user and ends.
pub proof fn law_no_pages_without_webview2(p: Prepare, reply: ReplyView)
    ensures
        prepare_step(p, reply).1.next is Finished ==> (p.stage == PrepareStage::Check && reply
            == ReplyView::Flag(true)) || (p.stage == PrepareStage::Install && (reply matches
            ReplyView::Done(Ok(_)))),
        prepare_step(p, reply).1.next is Failed ==> prepare_step(p, reply).1.effects.last()
            == EffectView::Exit(1),
{
}

} // verus!
