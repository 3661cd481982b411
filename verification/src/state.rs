//! What the windows show: the startup checklist, the state of an update, the settings.

use crate::text::{join2, join3, same};
use vstd::prelude::*;

verus! {

/// What the string of an optional string holds.
pub open spec fn maybe_text(o: Option<String>) -> Option<Seq<char>> {
    match o {
        Some(s) => Some(s@),
        None => None,
    }
}

/// What the strings of a result hold.
pub open spec fn result_text(r: Result<String, String>) -> Result<Seq<char>, Seq<char>> {
    match r {
        Ok(s) => Ok(s@),
        Err(e) => Err(e@),
    }
}

/// The error text of a result that carries no value.
pub open spec fn unit_text(r: Result<(), String>) -> Result<(), Seq<char>> {
    match r {
        Ok(_) => Ok(()),
        Err(e) => Err(e@),
    }
}

/// How far a measurable piece of work has come.
#[derive(Clone, Copy, Debug, PartialEq, Eq, Structural)]
pub enum Progress {
    /// Nothing has arrived yet.
    Start,
    /// `done` of `total` bytes have arrived.
    Bytes { done: u64, total: u64 },
    /// Everything has arrived.
    Complete,
}

// ---- the startup checklist ----

/// One row of the startup checklist.
#[derive(Debug)]
pub struct SetupItem {
    /// webview2, node, dsh or service
    pub key: String,
    /// The name that is shown.
    pub label: String,
    /// pending, checking, ok, installing, installed or failed
    pub status: String,
    /// A version, or the reason of a failure.
    pub detail: String,
}

/// What a row of the checklist holds.
pub struct ItemView {
    pub key: Seq<char>,
    pub label: Seq<char>,
    pub status: Seq<char>,
    pub detail: Seq<char>,
}

impl View for SetupItem {
    type V = ItemView;

    open spec fn view(&self) -> ItemView {
        ItemView {
            key: self.key@,
            label: self.label@,
            status: self.status@,
            detail: self.detail@,
        }
    }
}

impl Clone for SetupItem {
    fn clone(&self) -> (r: Self)
        ensures
            r@ == self@,
    {
        SetupItem {
            key: self.key.clone(),
            label: self.label.clone(),
            status: self.status.clone(),
            detail: self.detail.clone(),
        }
    }
}

/// The startup checklist and what is said above it.
#[derive(Debug)]
pub struct SetupState {
    /// detecting, installing, starting, ready or error
    pub phase: String,
    pub message: String,
    /// The progress of a download; `None` where there is none to measure.
    pub progress: Option<Progress>,
    pub items: Vec<SetupItem>,
}

/// What the startup checklist holds.
pub struct SetupView {
    pub phase: Seq<char>,
    pub message: Seq<char>,
    pub progress: Option<Progress>,
    pub items: Seq<ItemView>,
}

/// What the rows of a checklist hold.
pub open spec fn rows(items: Seq<SetupItem>) -> Seq<ItemView> {
    items.map_values(|i: SetupItem| i@)
}

impl View for SetupState {
    type V = SetupView;

    open spec fn view(&self) -> SetupView {
        SetupView {
            phase: self.phase@,
            message: self.message@,
            progress: self.progress,
            items: rows(self.items@),
        }
    }
}

impl Clone for SetupState {
    fn clone(&self) -> (r: Self)
        ensures
            r@ == self@,
    {
        let mut items: Vec<SetupItem> = Vec::new();
        let mut i: usize = 0;
        while i < self.items.len()
            invariant
                i <= self.items@.len(),
                items@.len() == i,
                forall|k: int| 0 <= k < i ==> #[trigger] items@[k]@ == self.items@[k]@,
            decreases self.items@.len() - i,
        {
            items.push(self.items[i].clone());
            i = i + 1;
        }
        assert(rows(items@) =~= rows(self.items@));
        SetupState {
            phase: self.phase.clone(),
            message: self.message.clone(),
            progress: self.progress,
            items,
        }
    }
}

/// A row of which nothing is known yet.
pub open spec fn pending_row(key: Seq<char>, label: Seq<char>) -> ItemView {
    ItemView { key, label, status: "pending"@, detail: Seq::empty() }
}

/// The rows that the checklist starts with.
pub open spec fn pending_rows() -> Seq<ItemView> {
    seq![
        pending_row("webview2"@, "WebView2 运行时"@),
        pending_row("node"@, "Node.js"@),
        pending_row("dsh"@, "dsh"@),
        pending_row("service"@, "dsh 服务"@),
    ]
}

/// The checklist before anything was checked.
pub open spec fn initial_setup() -> SetupView {
    SetupView {
        phase: "detecting"@,
        message: "正在检测运行环境…"@,
        progress: None,
        items: pending_rows(),
    }
}

fn pending_item(key: &str, label: &str) -> (r: SetupItem)
    ensures
        r@ == pending_row(key@, label@),
{
    SetupItem {
        key: key.to_owned(),
        label: label.to_owned(),
        status: "pending".to_owned(),
        detail: String::new(),
    }
}

/// The rows that the checklist starts with.
pub fn default_setup_items() -> (r: Vec<SetupItem>)
    ensures
        rows(r@) == pending_rows(),
{
    let mut items: Vec<SetupItem> = Vec::new();
    items.push(pending_item("webview2", "WebView2 运行时"));
    items.push(pending_item("node", "Node.js"));
    items.push(pending_item("dsh", "dsh"));
    items.push(pending_item("service", "dsh 服务"));
    assert(rows(items@) =~= pending_rows());
    items
}

/// The checklist before anything was checked.
pub fn default_setup_state() -> (r: SetupState)
    ensures
        r@ == initial_setup(),
{
    SetupState {
        phase: "detecting".to_owned(),
        message: "正在检测运行环境…".to_owned(),
        progress: None,
        items: default_setup_items(),
    }
}

/// The first row from `i` on whose key is `key`.
pub open spec fn row_from(items: Seq<ItemView>, key: Seq<char>, i: int) -> Option<int>
    decreases items.len() - i,
{
    if i < 0 || i >= items.len() {
        None
    } else if items[i].key == key {
        Some(i)
    } else {
        row_from(items, key, i + 1)
    }
}

/// The rows with a new status and detail in the first one whose key is `key`; the
/// same rows where no row has that key.
pub open spec fn rows_with(
    items: Seq<ItemView>,
    key: Seq<char>,
    status: Seq<char>,
    detail: Seq<char>,
) -> Seq<ItemView> {
    match row_from(items, key, 0) {
        Some(i) => items.update(i, ItemView { status, detail, ..items[i] }),
        None => items,
    }
}

/// The checklist with a new status and detail in one row.
pub open spec fn with_item(
    state: SetupView,
    key: Seq<char>,
    status: Seq<char>,
    detail: Seq<char>,
) -> SetupView {
    SetupView { items: rows_with(state.items, key, status, detail), ..state }
}

/// Gives the row with key `key` a new status and detail; other keys are ignored.
pub fn set_setup_item(state: &mut SetupState, key: &str, status: &str, detail: &str)
    ensures
        final(state)@ == with_item(old(state)@, key@, status@, detail@),
{
    let n: usize = state.items.len();
    let ghost all = rows(state.items@);
    let mut i: usize = 0;
    while i < n
        invariant
            i <= n == state.items@.len(),
            all == rows(state.items@),
            *state == *old(state),
            row_from(all, key@, 0) == row_from(all, key@, i as int),
        decreases n - i,
    {
        assert(all[i as int] == state.items@[i as int]@);
        if same(state.items[i].key.as_str(), key) {
            let item = SetupItem {
                key: state.items[i].key.clone(),
                label: state.items[i].label.clone(),
                status: status.to_owned(),
                detail: detail.to_owned(),
            };
            state.items.set(i, item);
            assert(rows(state.items@) =~= rows_with(all, key@, status@, detail@));
            return;
        }
        i = i + 1;
    }
    assert(rows(state.items@) =~= all);
}

/// The checklist after the step `key` has failed: the row says why, and so does the
/// message, after `title`.
pub open spec fn failed_setup(
    state: SetupView,
    key: Seq<char>,
    title: Seq<char>,
    detail: Seq<char>,
) -> SetupView {
    SetupView {
        phase: "error"@,
        message: title + ":"@ + detail,
        progress: None,
        ..with_item(state, key, "failed"@, detail)
    }
}

/// Marks the row `key` as failed and turns the checklist into an error that says why.
pub fn setup_error(state: &mut SetupState, key: &str, title: &str, detail: &str)
    ensures
        final(state)@ == failed_setup(old(state)@, key@, title@, detail@),
{
    set_setup_item(state, key, "failed", detail);
    state.phase = "error".to_owned();
    state.message = join3(title, ":", detail);
    state.progress = None;
}

// ---- the state of an update ----

/// The state of an update or of a check for one.
#[derive(Debug)]
pub struct UpdateState {
    /// idle, checking, downloading, installing, restarting, finalizing, done or error;
    /// empty before the first check
    pub phase: String,
    /// `None` where there is nothing to measure.
    pub progress: Option<Progress>,
    pub message: String,
    pub error: Option<String>,
    pub latest: Option<String>,
    pub update_available: bool,
    pub release_notes: String,
}

/// What the state of an update holds.
pub struct UpdateView {
    pub phase: Seq<char>,
    pub progress: Option<Progress>,
    pub message: Seq<char>,
    pub error: Option<Seq<char>>,
    pub latest: Option<Seq<char>>,
    pub update_available: bool,
    pub release_notes: Seq<char>,
}

impl View for UpdateState {
    type V = UpdateView;

    open spec fn view(&self) -> UpdateView {
        UpdateView {
            phase: self.phase@,
            progress: self.progress,
            message: self.message@,
            error: maybe_text(self.error),
            latest: maybe_text(self.latest),
            update_available: self.update_available,
            release_notes: self.release_notes@,
        }
    }
}

impl Clone for UpdateState {
    fn clone(&self) -> (r: Self)
        ensures
            r@ == self@,
    {
        UpdateState {
            phase: self.phase.clone(),
            progress: self.progress,
            message: self.message.clone(),
            error: match &self.error {
                Some(e) => Some(e.clone()),
                None => None,
            },
            latest: match &self.latest {
                Some(l) => Some(l.clone()),
                None => None,
            },
            update_available: self.update_available,
            release_notes: self.release_notes.clone(),
        }
    }
}

/// The update state that holds a phase and a message and nothing else.
pub open spec fn plain_update(phase: Seq<char>, message: Seq<char>) -> UpdateView {
    UpdateView {
        phase,
        progress: None,
        message,
        error: None,
        latest: None,
        update_available: false,
        release_notes: Seq::empty(),
    }
}

impl Default for UpdateState {
    fn default() -> (r: Self)
        ensures
            r@ == plain_update(Seq::empty(), Seq::empty()),
    {
        UpdateState {
            phase: String::new(),
            progress: None,
            message: String::new(),
            error: None,
            latest: None,
            update_available: false,
            release_notes: String::new(),
        }
    }
}

/// The update state that holds a phase and a message and nothing else.
pub fn update_in(phase: &str, message: String) -> (r: UpdateState)
    ensures
        r@ == plain_update(phase@, message@),
{
    UpdateState {
        phase: phase.to_owned(),
        progress: None,
        message,
        error: None,
        latest: None,
        update_available: false,
        release_notes: String::new(),
    }
}

/// The update state that holds a phase, a message and the version it is about.
pub open spec fn version_update(
    phase: Seq<char>,
    message: Seq<char>,
    latest: Seq<char>,
) -> UpdateView {
    UpdateView { latest: Some(latest), ..plain_update(phase, message) }
}

/// The update state that holds a phase, a message and the version it is about.
pub fn update_to(phase: &str, message: String, latest: String) -> (r: UpdateState)
    ensures
        r@ == version_update(phase@, message@, latest@),
{
    let mut state = update_in(phase, message);
    state.latest = Some(latest);
    state
}

/// The update state that holds a phase, a message and a progress.
pub open spec fn measured_update(
    phase: Seq<char>,
    message: Seq<char>,
    progress: Progress,
) -> UpdateView {
    UpdateView { progress: Some(progress), ..plain_update(phase, message) }
}

/// The update state that holds a phase, a message and a progress.
pub fn update_at(phase: &str, message: String, progress: Progress) -> (r: UpdateState)
    ensures
        r@ == measured_update(phase@, message@, progress),
{
    let mut state = update_in(phase, message);
    state.progress = Some(progress);
    state
}

/// The update state of a failure: the error, and a message that puts `title` before it.
pub open spec fn failed_update(title: Seq<char>, error: Seq<char>) -> UpdateView {
    UpdateView { error: Some(error), ..plain_update("error"@, title + ":"@ + error) }
}

/// The update state of a failure: the error, and a message that puts `title` before it.
pub fn update_error(title: &str, error: &str) -> (r: UpdateState)
    ensures
        r@ == failed_update(title@, error@),
{
    let mut state = update_in("error", join3(title, ":", error));
    state.error = Some(error.to_owned());
    state
}

/// Whether a check or an update is under way in phase `phase`.
pub open spec fn active_phase(phase: Seq<char>) -> bool {
    ||| phase == "checking"@
    ||| phase == "downloading"@
    ||| phase == "installing"@
    ||| phase == "restarting"@
    ||| phase == "finalizing"@
}

/// Whether a check or an update is under way.
pub fn update_active(state: &UpdateState) -> (r: bool)
    ensures
        r == active_phase(state@.phase),
{
    let p = state.phase.as_str();
    same(p, "checking") || same(p, "downloading") || same(p, "installing") || same(p, "restarting")
        || same(p, "finalizing")
}

// ---- settings ----

/// What the user can set.
#[derive(Clone, Copy, Debug, PartialEq, Eq, Structural)]
pub struct Settings {
    /// Stop the dsh server when the window closes.
    pub close_stops_dsh: bool,
    /// At startup, look for a newer dsh and a newer desktop application.
    pub auto_update: bool,
}

/// The settings of a user who has set nothing.
pub open spec fn default_settings() -> Settings {
    Settings { close_stops_dsh: false, auto_update: true }
}

impl Default for Settings {
    fn default() -> (r: Self)
        ensures
            r == default_settings(),
    {
        Settings { close_stops_dsh: false, auto_update: true }
    }
}

/// The settings that were read from the file; the defaults where there is no file, or
/// none that could be read.
pub fn load_settings(stored: Option<Settings>) -> (r: Settings)
    ensures
        r == match stored {
            Some(s) => s,
            None => default_settings(),
        },
{
    match stored {
        Some(s) => s,
        None => Settings::default(),
    }
}

/// The steps in which settings are saved.
#[derive(Clone, Copy, Debug, PartialEq, Eq, Structural)]
pub enum SaveStep {
    /// The directory is created.
    Directory,
    /// The settings are put into text.
    Encode,
    /// The file is written.
    Write,
}

/// What the saving of settings comes to: each step that can fail says so in its own way.
pub fn save_settings(failure: Option<(SaveStep, String)>) -> (r: Result<(), String>)
    ensures
        unit_text(r) == match failure {
            None => Ok(()),
            Some((SaveStep::Directory, e)) => Err("创建设置目录失败:"@ + e@),
            Some((SaveStep::Encode, e)) => Err(e@),
            Some((SaveStep::Write, e)) => Err("写入设置失败:"@ + e@),
        },
{
    match failure {
        None => Ok(()),
        Some((SaveStep::Directory, e)) => Err(
            join2("创建设置目录失败:", e.as_str()),
        ),
        Some((SaveStep::Encode, e)) => Err(e),
        Some((SaveStep::Write, e)) => Err(join2("写入设置失败:", e.as_str())),
    }
}

} // verus!
