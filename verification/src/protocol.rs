//! The words in which a run talks to the world around it.
//!
//! A run is a state that takes a reply and gives a turn: effects to carry out in
//! order, and then what comes next, which is one more question or the end of the run.

use crate::state::{
    maybe_text, result_text, unit_text, Progress, SetupState, SetupView, UpdateState, UpdateView,
};
use crate::text::texts;
use vstd::prelude::*;

verus! {

/// A program and its arguments.
#[derive(Debug)]
pub struct Command {
    pub program: String,
    pub args: Vec<String>,
}

/// What a command holds.
pub struct CommandView {
    pub program: Seq<char>,
    pub args: Seq<Seq<char>>,
}

impl View for Command {
    type V = CommandView;

    open spec fn view(&self) -> CommandView {
        CommandView { program: self.program@, args: texts(self.args@) }
    }
}

/// How a program ended.
#[derive(Clone, Copy, Debug, PartialEq, Eq, Structural)]
pub struct Exit {
    pub success: bool,
    pub code: Option<i32>,
}

/// What a look at a running child process shows.
#[derive(Clone, Copy, Debug, PartialEq, Eq, Structural)]
pub enum Child {
    Running,
    Exited { success: bool },
    /// The state of the process could not be read.
    Unreadable,
}

/// A change to the checklist that is on show.
#[derive(Debug)]
pub struct Amendment {
    /// The new phase; `None` keeps the phase.
    pub phase: Option<String>,
    pub message: String,
    /// The new progress; `None` keeps the progress.
    pub progress: Option<Option<Progress>>,
}

/// What a change to the checklist holds.
pub struct AmendmentView {
    pub phase: Option<Seq<char>>,
    pub message: Seq<char>,
    pub progress: Option<Option<Progress>>,
}

impl View for Amendment {
    type V = AmendmentView;

    open spec fn view(&self) -> AmendmentView {
        AmendmentView {
            phase: maybe_text(self.phase),
            message: self.message@,
            progress: self.progress,
        }
    }
}

/// The checklist after a change.
pub open spec fn amended(state: SetupView, change: AmendmentView) -> SetupView {
    SetupView {
        phase: match change.phase {
            Some(p) => p,
            None => state.phase,
        },
        message: change.message,
        progress: match change.progress {
            Some(p) => p,
            None => state.progress,
        },
        ..state
    }
}

/// Makes a change to the checklist.
pub fn amend(state: &mut SetupState, change: Amendment)
    ensures
        final(state)@ == amended(old(state)@, change@),
{
    match change.phase {
        Some(p) => {
            state.phase = p;
        },
        None => {},
    }
    state.message = change.message;
    match change.progress {
        Some(p) => {
            state.progress = p;
        },
        None => {},
    }
}

/// What a file is downloaded for.
#[derive(Debug)]
pub enum DownloadKind {
    /// Nobody is shown the progress.
    Silent,
    /// The installer of this Node.js version.
    NodeInstaller(String),
    /// The portable archive of this Node.js version.
    NodeArchive(String),
    /// A new version of this application.
    AppUpdate,
}

/// What the purpose of a download holds.
pub enum KindView {
    Silent,
    NodeInstaller(Seq<char>),
    NodeArchive(Seq<char>),
    AppUpdate,
}

impl View for DownloadKind {
    type V = KindView;

    open spec fn view(&self) -> KindView {
        match self {
            DownloadKind::Silent => KindView::Silent,
            DownloadKind::NodeInstaller(v) => KindView::NodeInstaller(v@),
            DownloadKind::NodeArchive(v) => KindView::NodeArchive(v@),
            DownloadKind::AppUpdate => KindView::AppUpdate,
        }
    }
}

/// The newest published release of the desktop application.
#[derive(Debug)]
pub struct LatestRelease {
    pub tag_name: String,
    pub body: Option<String>,
    pub asset_url: String,
}

/// What a release holds.
pub struct ReleaseView {
    pub tag_name: Seq<char>,
    pub body: Option<Seq<char>>,
    pub asset_url: Seq<char>,
}

impl View for LatestRelease {
    type V = ReleaseView;

    open spec fn view(&self) -> ReleaseView {
        ReleaseView {
            tag_name: self.tag_name@,
            body: maybe_text(self.body),
            asset_url: self.asset_url@,
        }
    }
}

/// Why there is no release to speak of.
#[derive(Debug)]
pub enum ReleaseError {
    /// Nothing has been published yet.
    NoRelease,
    /// The release could not be looked up.
    Failed(String),
}

/// What the reason holds.
pub enum ReleaseErrorView {
    NoRelease,
    Failed(Seq<char>),
}

impl View for ReleaseError {
    type V = ReleaseErrorView;

    open spec fn view(&self) -> ReleaseErrorView {
        match self {
            ReleaseError::NoRelease => ReleaseErrorView::NoRelease,
            ReleaseError::Failed(e) => ReleaseErrorView::Failed(e@),
        }
    }
}

/// What a lookup of the newest release holds.
pub open spec fn release_text(
    r: Result<LatestRelease, ReleaseError>,
) -> Result<ReleaseView, ReleaseErrorView> {
    match r {
        Ok(v) => Ok(v@),
        Err(e) => Err(e@),
    }
}

/// The executable of this process.
#[derive(Debug)]
pub struct RunningExe {
    /// Its file name, where it has one that is text.
    pub name: Option<String>,
    pub path: String,
}

/// What the executable's description holds.
pub struct ExeView {
    pub name: Option<Seq<char>>,
    pub path: Seq<char>,
}

impl View for RunningExe {
    type V = ExeView;

    open spec fn view(&self) -> ExeView {
        ExeView { name: maybe_text(self.name), path: self.path@ }
    }
}

// ---- effects ----

/// Something to carry out, whatever comes of it.
#[derive(Debug)]
pub enum Effect {
    /// Adds a line to the log of the loading page.
    Log(String),
    /// Puts a checklist on show.
    Publish(SetupState),
    /// Changes the checklist that is on show.
    Amend(Amendment),
    /// Puts the state of an update on show.
    PublishUpdate(UpdateState),
    /// Shows a short note.
    Toast(String),
    /// Leads the harness page to an address.
    Navigate(String),
    /// Stops the dsh server on a port.
    StopServer(u16),
    /// Removes a file.
    RemoveFile(String),
    /// Waits for some milliseconds.
    Sleep(u64),
    /// Takes over the search path that new processes get.
    RefreshPath,
    /// Runs a PowerShell script.
    RunScript(String),
    /// Shows a native message box and waits for it.
    Message { title: String, text: String, is_error: bool },
    /// Starts a batch file that outlives this process.
    LaunchHelper(String),
    /// Ends the application.
    Exit(i32),
}

/// What an effect holds.
pub enum EffectView {
    Log(Seq<char>),
    Publish(SetupView),
    Amend(AmendmentView),
    PublishUpdate(UpdateView),
    Toast(Seq<char>),
    Navigate(Seq<char>),
    StopServer(u16),
    RemoveFile(Seq<char>),
    Sleep(u64),
    RefreshPath,
    RunScript(Seq<char>),
    Message { title: Seq<char>, text: Seq<char>, is_error: bool },
    LaunchHelper(Seq<char>),
    Exit(i32),
}

impl View for Effect {
    type V = EffectView;

    open spec fn view(&self) -> EffectView {
        match self {
            Effect::Log(t) => EffectView::Log(t@),
            Effect::Publish(s) => EffectView::Publish(s@),
            Effect::Amend(a) => EffectView::Amend(a@),
            Effect::PublishUpdate(s) => EffectView::PublishUpdate(s@),
            Effect::Toast(t) => EffectView::Toast(t@),
            Effect::Navigate(t) => EffectView::Navigate(t@),
            Effect::StopServer(p) => EffectView::StopServer(*p),
            Effect::RemoveFile(t) => EffectView::RemoveFile(t@),
            Effect::Sleep(n) => EffectView::Sleep(*n),
            Effect::RefreshPath => EffectView::RefreshPath,
            Effect::RunScript(t) => EffectView::RunScript(t@),
            Effect::Message { title, text, is_error } => EffectView::Message {
                title: title@,
                text: text@,
                is_error: *is_error,
            },
            Effect::LaunchHelper(t) => EffectView::LaunchHelper(t@),
            Effect::Exit(n) => EffectView::Exit(*n),
        }
    }
}

/// What a list of effects holds.
pub open spec fn effects(list: Seq<Effect>) -> Seq<EffectView> {
    list.map_values(|e: Effect| e@)
}

/// No effect.
pub fn none() -> (r: Vec<Effect>)
    ensures
        effects(r@) == Seq::<EffectView>::empty(),
{
    let r: Vec<Effect> = Vec::new();
    assert(effects(r@) =~= Seq::<EffectView>::empty());
    r
}

/// One effect.
pub fn one(a: Effect) -> (r: Vec<Effect>)
    ensures
        effects(r@) == seq![a@],
{
    let mut r: Vec<Effect> = Vec::new();
    r.push(a);
    assert(effects(r@) =~= seq![a@]);
    r
}

/// Two effects.
pub fn two(a: Effect, b: Effect) -> (r: Vec<Effect>)
    ensures
        effects(r@) == seq![a@, b@],
{
    let mut r: Vec<Effect> = Vec::new();
    r.push(a);
    r.push(b);
    assert(effects(r@) =~= seq![a@, b@]);
    r
}

/// Three effects.
pub fn three(a: Effect, b: Effect, c: Effect) -> (r: Vec<Effect>)
    ensures
        effects(r@) == seq![a@, b@, c@],
{
    let mut r: Vec<Effect> = Vec::new();
    r.push(a);
    r.push(b);
    r.push(c);
    assert(effects(r@) =~= seq![a@, b@, c@]);
    r
}

/// The effects of `a`, then those of `b`.
pub fn both(a: Vec<Effect>, b: Vec<Effect>) -> (r: Vec<Effect>)
    ensures
        effects(r@) == effects(a@) + effects(b@),
{
    let mut r = a;
    let mut rest = b;
    r.append(&mut rest);
    assert(effects(r@) =~= effects(a@) + effects(b@));
    r
}

// ---- requests and replies ----

/// Something to find out or to do, to which there is a reply.
#[derive(Debug)]
pub enum Request {
    /// Whether something listens on the port: `Reply::Flag`.
    PortOpen(u16),
    /// How the server process that was started here has ended, if it has: `Reply::Ended`.
    ChildExit,
    /// The time since the run began: `Reply::Nanos`.
    Elapsed,
    /// The last lines of the server's log: `Reply::Text`.
    LogTail { port: u16, count: usize },
    /// Runs a program and takes its output: `Reply::Captured`.
    Capture(Command),
    /// Runs a program and waits for it: `Reply::Exited`.
    Status(Command),
    /// Runs a PowerShell script and takes its output: `Reply::Captured`.
    PowerShell(String),
    /// Starts the dsh server, whose output goes to its log: `Reply::Done`.
    SpawnServer(u16),
    /// Waits for the dsh server, with reports on the way: `Reply::Flag`.
    WaitReady { port: u16, secs: u32 },
    /// Waits for something to listen on a port: `Reply::Flag`.
    WaitPort { port: u16, secs: u32 },
    /// Downloads into a file of the temporary directory: `Reply::Captured` with the
    /// path of the file.
    Download { url: String, file: String, log_name: Option<String>, kind: DownloadKind },
    /// The path of a file of the temporary directory: `Reply::Text`.
    TempPath(String),
    /// Writes a file: `Reply::Done`.
    WriteFile { path: String, text: String },
    /// The text of a file, empty where it cannot be read: `Reply::Text`.
    ReadFile(String),
    /// The length of a file, zero where there is none: `Reply::Number`.
    FileLength(String),
    /// Creates a directory and those above it: `Reply::Done`.
    CreateDir(String),
    /// Whether there is anything in the directory whose path has these parts:
    /// `Reply::Flag`.
    HasEntries(Vec<String>),
    /// Starts a PowerShell script whose output goes to a log: `Reply::Done`.
    SpawnScript { script: String, log: String },
    /// A look at the script that was started: `Reply::Child`.
    PollChild,
    /// How far a file has grown: `Reply::Measured`.
    Measure { file: String, total: Option<u64>, last: Option<u64> },
    /// Whether node and npm can be found: `Reply::Flag`.
    NodeAvailable,
    /// The version that node gives: `Reply::Text`.
    NodeVersion,
    /// Installs Node.js: `Reply::Captured`.
    InstallNode,
    /// Installs Node.js from its installer: `Reply::Captured`.
    InstallNodeMsi { version: String, base_url: String },
    /// Installs Node.js from its archive: `Reply::Captured`.
    InstallNodeZip { version: String, base_url: String },
    /// The version of dsh that is installed: `Reply::Maybe`.
    DshVersion,
    /// Installs dsh: `Reply::Captured`.
    InstallDsh,
    /// Looks up the newest release of this application: `Reply::Release`.
    FetchRelease,
    /// The executable of this process: `Reply::Exe`.
    CurrentExe,
    /// Updates this application: `Reply::Done`.
    UpdateApp,
    /// Whether the WebView2 runtime is installed: `Reply::Flag`.
    Webview2Installed,
    /// Installs the WebView2 runtime: `Reply::Done`.
    InstallWebview2,
}

/// What a request holds.
pub enum RequestView {
    PortOpen(u16),
    ChildExit,
    Elapsed,
    LogTail { port: u16, count: usize },
    Capture(CommandView),
    Status(CommandView),
    PowerShell(Seq<char>),
    SpawnServer(u16),
    WaitReady { port: u16, secs: u32 },
    WaitPort { port: u16, secs: u32 },
    Download { url: Seq<char>, file: Seq<char>, log_name: Option<Seq<char>>, kind: KindView },
    TempPath(Seq<char>),
    WriteFile { path: Seq<char>, text: Seq<char> },
    ReadFile(Seq<char>),
    FileLength(Seq<char>),
    CreateDir(Seq<char>),
    HasEntries(Seq<Seq<char>>),
    SpawnScript { script: Seq<char>, log: Seq<char> },
    PollChild,
    Measure { file: Seq<char>, total: Option<u64>, last: Option<u64> },
    NodeAvailable,
    NodeVersion,
    InstallNode,
    InstallNodeMsi { version: Seq<char>, base_url: Seq<char> },
    InstallNodeZip { version: Seq<char>, base_url: Seq<char> },
    DshVersion,
    InstallDsh,
    FetchRelease,
    CurrentExe,
    UpdateApp,
    Webview2Installed,
    InstallWebview2,
}

impl View for Request {
    type V = RequestView;

    open spec fn view(&self) -> RequestView {
        match self {
            Request::PortOpen(p) => RequestView::PortOpen(*p),
            Request::ChildExit => RequestView::ChildExit,
            Request::Elapsed => RequestView::Elapsed,
            Request::LogTail { port, count } => RequestView::LogTail { port: *port, count: *count },
            Request::Capture(c) => RequestView::Capture(c@),
            Request::Status(c) => RequestView::Status(c@),
            Request::PowerShell(t) => RequestView::PowerShell(t@),
            Request::SpawnServer(p) => RequestView::SpawnServer(*p),
            Request::WaitReady { port, secs } => RequestView::WaitReady { port: *port, secs: *secs },
            Request::WaitPort { port, secs } => RequestView::WaitPort { port: *port, secs: *secs },
            Request::Download { url, file, log_name, kind } => RequestView::Download {
                url: url@,
                file: file@,
                log_name: maybe_text(*log_name),
                kind: kind@,
            },
            Request::TempPath(t) => RequestView::TempPath(t@),
            Request::WriteFile { path, text } => RequestView::WriteFile {
                path: path@,
                text: text@,
            },
            Request::ReadFile(t) => RequestView::ReadFile(t@),
            Request::FileLength(t) => RequestView::FileLength(t@),
            Request::CreateDir(t) => RequestView::CreateDir(t@),
            Request::HasEntries(p) => RequestView::HasEntries(texts(p@)),
            Request::SpawnScript { script, log } => RequestView::SpawnScript {
                script: script@,
                log: log@,
            },
            Request::PollChild => RequestView::PollChild,
            Request::Measure { file, total, last } => RequestView::Measure {
                file: file@,
                total: *total,
                last: *last,
            },
            Request::NodeAvailable => RequestView::NodeAvailable,
            Request::NodeVersion => RequestView::NodeVersion,
            Request::InstallNode => RequestView::InstallNode,
            Request::InstallNodeMsi { version, base_url } => RequestView::InstallNodeMsi {
                version: version@,
                base_url: base_url@,
            },
            Request::InstallNodeZip { version, base_url } => RequestView::InstallNodeZip {
                version: version@,
                base_url: base_url@,
            },
            Request::DshVersion => RequestView::DshVersion,
            Request::InstallDsh => RequestView::InstallDsh,
            Request::FetchRelease => RequestView::FetchRelease,
            Request::CurrentExe => RequestView::CurrentExe,
            Request::UpdateApp => RequestView::UpdateApp,
            Request::Webview2Installed => RequestView::Webview2Installed,
            Request::InstallWebview2 => RequestView::InstallWebview2,
        }
    }
}

/// The reply to a request.
#[derive(Debug)]
pub enum Reply {
    Flag(bool),
    Ended(Option<Exit>),
    Nanos(u64),
    Text(String),
    Captured(Result<String, String>),
    Exited(Result<Exit, String>),
    Done(Result<(), String>),
    Number(u64),
    Child(Child),
    /// The length of the file, the time since the download began, whether its share of
    /// the total has moved by at least one percent since the last report, and the share
    /// as a whole number of percent.
    Measured { len: u64, nanos: u64, moved: bool, percent: String },
    Maybe(Option<String>),
    Release(Result<LatestRelease, ReleaseError>),
    Exe(Result<RunningExe, String>),
}

/// What a reply holds.
pub enum ReplyView {
    Flag(bool),
    Ended(Option<Exit>),
    Nanos(u64),
    Text(Seq<char>),
    Captured(Result<Seq<char>, Seq<char>>),
    Exited(Result<Exit, Seq<char>>),
    Done(Result<(), Seq<char>>),
    Number(u64),
    Child(Child),
    Measured { len: u64, nanos: u64, moved: bool, percent: Seq<char> },
    Maybe(Option<Seq<char>>),
    Release(Result<ReleaseView, ReleaseErrorView>),
    Exe(Result<ExeView, Seq<char>>),
}

impl View for Reply {
    type V = ReplyView;

    open spec fn view(&self) -> ReplyView {
        match self {
            Reply::Flag(b) => ReplyView::Flag(*b),
            Reply::Ended(e) => ReplyView::Ended(*e),
            Reply::Nanos(n) => ReplyView::Nanos(*n),
            Reply::Text(t) => ReplyView::Text(t@),
            Reply::Captured(r) => ReplyView::Captured(result_text(*r)),
            Reply::Exited(r) => ReplyView::Exited(
                match r {
                    Ok(e) => Ok(*e),
                    Err(t) => Err(t@),
                },
            ),
            Reply::Done(r) => ReplyView::Done(unit_text(*r)),
            Reply::Number(n) => ReplyView::Number(*n),
            Reply::Child(c) => ReplyView::Child(*c),
            Reply::Measured { len, nanos, moved, percent } => ReplyView::Measured {
                len: *len,
                nanos: *nanos,
                moved: *moved,
                percent: percent@,
            },
            Reply::Maybe(t) => ReplyView::Maybe(maybe_text(*t)),
            Reply::Release(r) => ReplyView::Release(release_text(*r)),
            Reply::Exe(r) => ReplyView::Exe(
                match r {
                    Ok(e) => Ok(e@),
                    Err(t) => Err(t@),
                },
            ),
        }
    }
}

/// What comes after the effects of a turn.
#[derive(Debug)]
pub enum Next {
    /// A question.
    Ask(Request),
    /// The run has ended well; the text is what it has to say, or empty.
    Finished(String),
    /// The run has failed for this reason.
    Failed(String),
    /// The reply is none to what was asked, or the run is over: nothing has changed.
    Ignored,
}

/// What the next thing holds.
pub enum NextView {
    Ask(RequestView),
    Finished(Seq<char>),
    Failed(Seq<char>),
    Ignored,
}

impl View for Next {
    type V = NextView;

    open spec fn view(&self) -> NextView {
        match self {
            Next::Ask(r) => NextView::Ask(r@),
            Next::Finished(t) => NextView::Finished(t@),
            Next::Failed(t) => NextView::Failed(t@),
            Next::Ignored => NextView::Ignored,
        }
    }
}

/// One turn of a run.
#[derive(Debug)]
pub struct Turn {
    pub effects: Vec<Effect>,
    pub next: Next,
}

/// What a turn holds.
pub struct TurnView {
    pub effects: Seq<EffectView>,
    pub next: NextView,
}

impl View for Turn {
    type V = TurnView;

    open spec fn view(&self) -> TurnView {
        TurnView { effects: effects(self.effects@), next: self.next@ }
    }
}

/// The turn that a reply to another question gets.
pub open spec fn ignored() -> TurnView {
    TurnView { effects: Seq::empty(), next: NextView::Ignored }
}

/// A turn without effects.
pub open spec fn just(next: NextView) -> TurnView {
    TurnView { effects: Seq::empty(), next }
}

/// A turn that asks something after some effects.
pub open spec fn asking(list: Seq<EffectView>, request: RequestView) -> TurnView {
    TurnView { effects: list, next: NextView::Ask(request) }
}

/// The turn that a reply to another question gets.
pub fn turn_ignored() -> (r: Turn)
    ensures
        r@ == ignored(),
{
    Turn { effects: none(), next: Next::Ignored }
}

/// A turn that asks something after some effects.
pub fn turn_ask(list: Vec<Effect>, request: Request) -> (r: Turn)
    ensures
        r@ == asking(effects(list@), request@),
{
    Turn { effects: list, next: Next::Ask(request) }
}

/// A turn that asks something and does nothing else.
pub fn turn_just_ask(request: Request) -> (r: Turn)
    ensures
        r@ == just(NextView::Ask(request@)),
{
    Turn { effects: none(), next: Next::Ask(request) }
}

/// A turn that ends a run well.
pub fn turn_finished(list: Vec<Effect>, text: String) -> (r: Turn)
    ensures
        r@ == (TurnView { effects: effects(list@), next: NextView::Finished(text@) }),
{
    Turn { effects: list, next: Next::Finished(text) }
}

/// A turn that ends a run in failure.
pub fn turn_failed(list: Vec<Effect>, reason: String) -> (r: Turn)
    ensures
        r@ == (TurnView { effects: effects(list@), next: NextView::Failed(reason@) }),
{
    Turn { effects: list, next: Next::Failed(reason) }
}

/// What a command comes to: the effects to carry out, and whether its work begins.
#[derive(Debug)]
pub struct Gate {
    pub effects: Vec<Effect>,
    pub go: bool,
}

} // verus!
