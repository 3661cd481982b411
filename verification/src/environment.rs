//! The machine around the application: the search path, the user's directories and the
//! WebView2 runtime, without which no page can be shown.

use crate::command::{program, registry_query_command};
use crate::node::{code_text, exit_code};
use crate::protocol::{
    asking, effects, ignored, just, none, one, turn_ask, turn_failed, turn_finished, turn_ignored,
    turn_just_ask, two, Command, CommandView, DownloadKind, Effect, EffectView, KindView, NextView,
    Reply, ReplyView, Request, RequestView, Turn, TurnView,
};
use crate::state::maybe_text;
use crate::text::{
    blank, cut_text, is_blank, join2, join3, join_from, joined, pieces, same, texts, trim, trimmed,
    Cut,
};
use vstd::prelude::*;

verus! {

// ---- the search path ----

/// Whether `list` has the entry `e`.
pub open spec fn has(list: Seq<Seq<char>>, e: Seq<char>) -> bool {
    exists|i: int| 0 <= i < list.len() && #[trigger] list[i] == e
}

/// `list`, and behind it the new ones of `more` without white space around them, each
/// once and none of them empty.
pub open spec fn extended(list: Seq<Seq<char>>, more: Seq<Seq<char>>) -> Seq<Seq<char>>
    decreases more.len(),
{
    if more.len() == 0 {
        list
    } else {
        let before = extended(list, more.drop_last());
        let e = trim(more.last());
        if e.len() == 0 || has(before, e) {
            before
        } else {
            before.push(e)
        }
    }
}

/// The entries of a search path.
pub open spec fn entries(path: Seq<char>) -> Seq<Seq<char>> {
    pieces(path, Cut::At(';'))
}

/// The entries of the search path that new processes get, then those of this process.
pub open spec fn merged_entries(registry: Seq<char>, current: Option<Seq<char>>) -> Seq<Seq<char>> {
    let first = extended(Seq::empty(), entries(registry));
    match current {
        Some(c) => extended(first, entries(c)),
        None => first,
    }
}

fn has_text_in(list: &Vec<String>, e: &str) -> (r: bool)
    ensures
        r == has(texts(list@), e@),
{
    let mut i: usize = 0;
    while i < list.len()
        invariant
            i <= list@.len(),
            forall|k: int| 0 <= k < i ==> #[trigger] texts(list@)[k] != e@,
        decreases list@.len() - i,
    {
        assert(texts(list@)[i as int] == list@[i as int]@);
        if same(list[i].as_str(), e) {
            return true;
        }
        i = i + 1;
    }
    false
}

fn extend(list: &mut Vec<String>, path: &str)
    ensures
        texts(final(list)@) == extended(texts(old(list)@), entries(path@)),
{
    let more = cut_text(path, Cut::At(';'));
    let ghost start = texts(list@);
    let mut i: usize = 0;
    assert(texts(more@).take(0) =~= Seq::empty());
    while i < more.len()
        invariant
            i <= more@.len(),
            texts(list@) == extended(start, texts(more@).take(i as int)),
        decreases more@.len() - i,
    {
        proof {
            assert(texts(more@).take(i + 1).drop_last() =~= texts(more@).take(i as int));
            assert(texts(more@).take(i + 1).last() == more@[i as int]@);
        }
        let e = trimmed(more[i].as_str());
        if !e.as_str().is_empty() && !has_text_in(list, e.as_str()) {
            let ghost before = list@;
            list.push(e);
            assert(texts(list@) =~= texts(before).push(e@));
        }
        i = i + 1;
    }
    assert(texts(more@).take(more@.len() as int) =~= texts(more@));
}

/// The search path for this process after something was installed: what new processes
/// get, which is read from the registry, and behind it what this process had besides.
/// `None` where the registry tells nothing, and then nothing changes.
pub fn refresh_process_path(registry: &Result<String, String>, current: Option<&str>) -> (r: Option<
    String,
>)
    ensures
        maybe_text(r) == match registry {
            Ok(reg) => if blank(reg@) {
                None
            } else {
                Some(
                    joined(
                        merged_entries(
                            reg@,
                            match current {
                                Some(c) => Some(c@),
                                None => None,
                            },
                        ),
                        ";"@,
                    ),
                )
            },
            Err(_) => None,
        },
{
    match registry {
        Ok(reg) => {
            if is_blank(reg.as_str()) {
                return None;
            }
            let mut list: Vec<String> = Vec::new();
            assert(texts(list@) =~= Seq::empty());
            extend(&mut list, reg.as_str());
            match current {
                Some(c) => {
                    extend(&mut list, c);
                },
                None => {},
            }
            assert(texts(list@).skip(0) =~= texts(list@));
            Some(join_from(&list, 0, ";"))
        },
        Err(_) => None,
    }
}

// ---- directories ----

/// The user's directory for the data of applications; the working directory where the
/// environment names none.
pub open spec fn local_data(variable: Option<Seq<char>>) -> Seq<char> {
    match variable {
        Some(v) => v,
        None => "."@,
    }
}

fn local_dir(variable: Option<&str>) -> (r: String)
    ensures
        r@ == local_data(
            match variable {
                Some(v) => Some(v@),
                None => None,
            },
        ),
{
    match variable {
        Some(v) => v.to_owned(),
        None => ".".to_owned(),
    }
}

fn parts3(a: String, b: &str, c: &str) -> (r: Vec<String>)
    ensures
        texts(r@) == seq![a@, b@, c@],
{
    let mut r: Vec<String> = Vec::new();
    r.push(a);
    r.push(b.to_owned());
    r.push(c.to_owned());
    assert(texts(r@) =~= seq![a@, b@, c@]);
    r
}

/// The parts of the path of the npm prefix that needs no administrator.
pub fn user_npm_prefix(local: Option<&str>) -> (r: Vec<String>)
    ensures
        texts(r@) == seq![
            local_data(
                match local {
                    Some(v) => Some(v@),
                    None => None,
                },
            ),
            "deepseek-harness"@,
            "npm"@,
        ],
{
    parts3(local_dir(local), "deepseek-harness", "npm")
}

/// The parts of the path that the portable Node.js is unpacked into.
pub fn portable_node_dir(local: Option<&str>) -> (r: Vec<String>)
    ensures
        texts(r@) == seq![
            local_data(
                match local {
                    Some(v) => Some(v@),
                    None => None,
                },
            ),
            "Programs"@,
            "nodejs"@,
        ],
{
    parts3(local_dir(local), "Programs", "nodejs")
}

// ---- whether WebView2 is installed ----

/// The registry key under which a hive tells of the WebView2 runtime.
pub open spec fn webview2_key(hive: Seq<char>) -> Seq<char> {
    hive + "\\{F3017226-FE2A-4295-8BDF-00C3A9A7E4C5}"@
}

/// The question for the version that a registry key tells.
pub open spec fn registry_query(key: Seq<char>) -> CommandView {
    program("reg"@).with("query"@).with(key).with("/v"@).with("pv"@)
}

/// The places that tell of the WebView2 runtime: three registry keys, then the directories
/// that it is found in, the user's one among them where the environment names it.
pub open spec fn webview2_probes(local: Option<Seq<char>>) -> Seq<RequestView> {
    let fixed = seq![
        RequestView::Capture(
            registry_query(
                webview2_key("HKLM\\SOFTWARE\\WOW6432Node\\Microsoft\\EdgeUpdate\\Clients"@),
            ),
        ),
        RequestView::Capture(
            registry_query(webview2_key("HKLM\\SOFTWARE\\Microsoft\\EdgeUpdate\\Clients"@)),
        ),
        RequestView::Capture(
            registry_query(webview2_key("HKCU\\SOFTWARE\\Microsoft\\EdgeUpdate\\Clients"@)),
        ),
        RequestView::HasEntries(
            seq!["C:\\Program Files (x86)\\Microsoft\\EdgeWebView\\Application"@],
        ),
        RequestView::HasEntries(seq!["C:\\Program Files\\Microsoft\\EdgeWebView\\Application"@]),
    ];
    match local {
        Some(l) => fixed.push(
            RequestView::HasEntries(seq![l, "Microsoft"@, "EdgeWebView"@, "Application"@]),
        ),
        None => fixed,
    }
}

/// Whether the reply to a probe says that the runtime is there; `None` where it is no
/// reply to the probe.
pub open spec fn probe_found(probe: RequestView, reply: ReplyView) -> Option<bool> {
    match (probe, reply) {
        (RequestView::Capture(_), ReplyView::Captured(out)) => Some(out is Ok),
        (RequestView::HasEntries(_), ReplyView::Flag(b)) => Some(b),
        _ => None,
    }
}

/// The search for the WebView2 runtime. It ends well at the first place that tells of it,
/// and fails when none does.
#[derive(Debug)]
pub struct FindWebview2 {
    /// The user's directory for the data of applications, where there is one.
    pub local: Option<String>,
    /// The place that is being looked at; behind the last one when the search is over.
    pub index: usize,
}

/// What the search holds.
pub struct FindView {
    pub local: Option<Seq<char>>,
    pub index: usize,
}

impl View for FindWebview2 {
    type V = FindView;

    open spec fn view(&self) -> FindView {
        FindView { local: maybe_text(self.local), index: self.index }
    }
}

/// The start of the search.
pub open spec fn find_start(local: Option<Seq<char>>) -> (FindView, TurnView) {
    (FindView { local, index: 0 }, just(NextView::Ask(webview2_probes(local)[0])))
}

/// One step of the search.
pub open spec fn find_step(f: FindView, reply: ReplyView) -> (FindView, TurnView) {
    let probes = webview2_probes(f.local);
    if f.index >= probes.len() {
        (f, ignored())
    } else {
        match probe_found(probes[f.index as int], reply) {
            None => (f, ignored()),
            Some(true) => (
                FindView { index: probes.len() as usize, ..f },
                TurnView { effects: Seq::empty(), next: NextView::Finished(Seq::empty()) },
            ),
            Some(false) => (
                FindView { index: (f.index + 1) as usize, ..f },
                just(
                    if f.index + 1 < probes.len() {
                        NextView::Ask(probes[f.index + 1])
                    } else {
                        NextView::Failed(Seq::empty())
                    },
                ),
            ),
        }
    }
}

fn key_query(hive: &str) -> (r: Request)
    ensures
        r@ == RequestView::Capture(registry_query(webview2_key(hive@))),
{
    Request::Capture(
        registry_query_command(
            join2(hive, "\\{F3017226-FE2A-4295-8BDF-00C3A9A7E4C5}").as_str(),
        ),
    )
}

fn dir_query(dir: &str) -> (r: Request)
    ensures
        r@ == RequestView::HasEntries(seq![dir@]),
{
    let mut parts: Vec<String> = Vec::new();
    parts.push(dir.to_owned());
    assert(texts(parts@) =~= seq![dir@]);
    Request::HasEntries(parts)
}

fn local_query(local: &String) -> (r: Request)
    ensures
        r@ == RequestView::HasEntries(
            seq![local@, "Microsoft"@, "EdgeWebView"@, "Application"@],
        ),
{
    let mut parts = parts3(local.clone(), "Microsoft", "EdgeWebView");
    let ghost before = texts(parts@);
    parts.push("Application".to_owned());
    assert(texts(parts@) =~= before.push("Application"@));
    assert(texts(parts@) =~= seq![local@, "Microsoft"@, "EdgeWebView"@, "Application"@]);
    Request::HasEntries(parts)
}

impl FindWebview2 {
    /// Begins the search; `local` is the user's directory for the data of applications.
    pub fn start(local: Option<String>) -> (r: (FindWebview2, Turn))
        ensures
            (r.0@, r.1@) == find_start(maybe_text(local)),
    {
        let turn = turn_just_ask(
            key_query("HKLM\\SOFTWARE\\WOW6432Node\\Microsoft\\EdgeUpdate\\Clients"),
        );
        (FindWebview2 { local, index: 0 }, turn)
    }

    fn count(&self) -> (r: usize)
        ensures
            r == webview2_probes(self@.local).len(),
    {
        match &self.local {
            Some(_) => 6,
            None => 5,
        }
    }

    fn probe(&self) -> (r: Request)
        requires
            self@.index < webview2_probes(self@.local).len(),
        ensures
            r@ == webview2_probes(self@.local)[self@.index as int],
    {
        match &self.local {
            Some(l) => {
                if self.index == 5 {
                    return local_query(l);
                }
            },
            None => {},
        }
        if self.index == 0 {
            key_query("HKLM\\SOFTWARE\\WOW6432Node\\Microsoft\\EdgeUpdate\\Clients")
        } else if self.index == 1 {
            key_query("HKLM\\SOFTWARE\\Microsoft\\EdgeUpdate\\Clients")
        } else if self.index == 2 {
            key_query("HKCU\\SOFTWARE\\Microsoft\\EdgeUpdate\\Clients")
        } else if self.index == 3 {
            dir_query("C:\\Program Files (x86)\\Microsoft\\EdgeWebView\\Application")
        } else {
            dir_query("C:\\Program Files\\Microsoft\\EdgeWebView\\Application")
        }
    }

    /// Takes the reply to what was asked last and goes on.
    pub fn step(&mut self, reply: Reply) -> (r: Turn)
        ensures
            (final(self)@, r@) == find_step(old(self)@, reply@),
    {
        let count: usize = self.count();
        if self.index >= count {
            return turn_ignored();
        }
        let found = match reply {
            Reply::Captured(out) => {
                if self.index >= 3 {
                    return turn_ignored();
                }
                out.is_ok()
            },
            Reply::Flag(b) => {
                if self.index < 3 {
                    return turn_ignored();
                }
                b
            },
            _ => {
                return turn_ignored();
            },
        };
        if found {
            self.index = count;
            return turn_finished(none(), String::new());
        }
        self.index = self.index + 1;
        if self.index < count {
            turn_just_ask(self.probe())
        } else {
            turn_failed(none(), String::new())
        }
    }
}

// ---- the installation of WebView2 ----

/// What the installation of WebView2 waits for.
#[derive(Clone, Copy, Debug, PartialEq, Eq, Structural)]
pub enum Webview2Stage {
    /// The end of the download.
    Download,
    /// The end of the installer.
    Run,
    /// Whether the runtime is there now.
    Check,
    Over,
}

/// The installation of the WebView2 runtime by the official installer, whose own window
/// shows how far it has come.
#[derive(Clone, Copy, Debug, PartialEq, Eq, Structural)]
pub struct InstallWebview2 {
    pub stage: Webview2Stage,
}

/// The start of the installation: the download of the installer.
pub open spec fn webview2_start() -> (InstallWebview2, TurnView) {
    (
        InstallWebview2 { stage: Webview2Stage::Download },
        just(
            NextView::Ask(
                RequestView::Download {
                    url: "https://go.microsoft.com/fwlink/p/?LinkId=2124703"@,
                    file: "MicrosoftEdgeWebview2Setup.exe"@,
                    log_name: None,
                    kind: KindView::Silent,
                },
            ),
        ),
    )
}

/// The end of the installation in failure.
pub open spec fn webview2_failed(reason: Seq<char>) -> (InstallWebview2, TurnView) {
    (
        InstallWebview2 { stage: Webview2Stage::Over },
        TurnView { effects: Seq::empty(), next: NextView::Failed(reason) },
    )
}

/// One step of the installation.
pub open spec fn webview2_step(w: InstallWebview2, reply: ReplyView) -> (InstallWebview2, TurnView) {
    match (w.stage, reply) {
        (Webview2Stage::Download, ReplyView::Captured(Ok(path))) => (
            InstallWebview2 { stage: Webview2Stage::Run },
            just(NextView::Ask(RequestView::Status(program(path).with("/install"@)))),
        ),
        (Webview2Stage::Download, ReplyView::Captured(Err(e))) => webview2_failed(e),
        (Webview2Stage::Run, ReplyView::Exited(Ok(exit))) => if exit.success {
            (
                InstallWebview2 { stage: Webview2Stage::Check },
                just(NextView::Ask(RequestView::Webview2Installed)),
            )
        } else {
            webview2_failed("WebView2 安装程序退出码:"@ + code_text(exit))
        },
        (Webview2Stage::Run, ReplyView::Exited(Err(e))) => webview2_failed(
            "启动 WebView2 安装程序失败:"@ + e,
        ),
        (Webview2Stage::Check, ReplyView::Flag(found)) => if found {
            (
                InstallWebview2 { stage: Webview2Stage::Over },
                TurnView { effects: Seq::empty(), next: NextView::Finished(Seq::empty()) },
            )
        } else {
            webview2_failed("安装完成后仍未检测到 WebView2 运行时"@)
        },
        _ => (w, ignored()),
    }
}

impl InstallWebview2 {
    /// Begins the installation of the WebView2 runtime.
    pub fn start() -> (r: (InstallWebview2, Turn))
        ensures
            (r.0, r.1@) == webview2_start(),
    {
        (
            InstallWebview2 { stage: Webview2Stage::Download },
            turn_just_ask(
                Request::Download {
                    url: "https://go.microsoft.com/fwlink/p/?LinkId=2124703".to_owned(),
                    file: "MicrosoftEdgeWebview2Setup.exe".to_owned(),
                    log_name: None,
                    kind: DownloadKind::Silent,
                },
            ),
        )
    }

    fn fail(&mut self, reason: String) -> (r: Turn)
        ensures
            (*final(self), r@) == webview2_failed(reason@),
    {
        self.stage = Webview2Stage::Over;
        turn_failed(none(), reason)
    }

    /// Takes the reply to what was asked last and goes on.
    pub fn step(&mut self, reply: Reply) -> (r: Turn)
        ensures
            (*final(self), r@) == webview2_step(*old(self), reply@),
    {
        match (self.stage, reply) {
            (Webview2Stage::Download, Reply::Captured(Ok(path))) => {
                self.stage = Webview2Stage::Run;
                turn_just_ask(Request::Status(Command::new(path.as_str()).with("/install")))
            },
            (Webview2Stage::Download, Reply::Captured(Err(e))) => self.fail(e),
            (Webview2Stage::Run, Reply::Exited(Ok(exit))) => {
                if exit.success {
                    self.stage = Webview2Stage::Check;
                    turn_just_ask(Request::Webview2Installed)
                } else {
                    self.fail(join2("WebView2 安装程序退出码:", exit_code(exit).as_str()))
                }
            },
            (Webview2Stage::Run, Reply::Exited(Err(e))) => {
                self.fail(join2("启动 WebView2 安装程序失败:", e.as_str()))
            },
            (Webview2Stage::Check, Reply::Flag(found)) => {
                if found {
                    self.stage = Webview2Stage::Over;
                    turn_finished(none(), String::new())
                } else {
                    self.fail("安装完成后仍未检测到 WebView2 运行时".to_owned())
                }
            },
            _ => turn_ignored(),
        }
    }
}

// ---- before the first page ----

/// What the preparation waits for.
#[derive(Clone, Copy, Debug, PartialEq, Eq, Structural)]
pub enum PrepareStage {
    /// Whether the WebView2 runtime is there.
    Check,
    /// The end of its installation.
    Install,
    Over,
}

/// The preparation before the first page: the WebView2 runtime has to be there, and the
/// search path is brought up to date. Where the runtime cannot be installed, the user is
/// told, and the application ends.
#[derive(Clone, Copy, Debug, PartialEq, Eq, Structural)]
pub struct Prepare {
    pub stage: PrepareStage,
}

/// What the user is told before the WebView2 runtime is installed.
pub open spec fn webview2_notice() -> EffectView {
    EffectView::Message {
        title: "需要 WebView2 运行时"@,
        text: "DeepSeek Harness Desktop 依赖 Microsoft WebView2 运行时。\n\n当前未检测到该组件，将自动下载并安装（约 100MB，会弹出系统管理员授权，请点击“是”）。\n\n随后会打开 WebView2 运行时安装窗口，请在窗口中等待下载安装完成（完成后点“关闭”即可），应用会自动继续启动。"@,
        is_error: false,
    }
}

/// What the user is told when the WebView2 runtime could not be installed.
pub open spec fn webview2_apology(reason: Seq<char>) -> EffectView {
    EffectView::Message {
        title: "WebView2 安装失败"@,
        text: "自动安装 WebView2 运行时失败:"@ + reason
            + "\n\n请手动下载并安装后重新运行本应用:\nhttps://developer.microsoft.com/microsoft-edge/webview2/"@,
        is_error: true,
    }
}

/// The end of the preparation: pages can be shown.
pub open spec fn prepared() -> (Prepare, TurnView) {
    (
        Prepare { stage: PrepareStage::Over },
        TurnView {
            effects: seq![EffectView::RefreshPath],
            next: NextView::Finished(Seq::empty()),
        },
    )
}

/// One step of the preparation.
pub open spec fn prepare_step(p: Prepare, reply: ReplyView) -> (Prepare, TurnView) {
    match (p.stage, reply) {
        (PrepareStage::Check, ReplyView::Flag(found)) => if found {
            prepared()
        } else {
            (
                Prepare { stage: PrepareStage::Install },
                asking(seq![webview2_notice()], RequestView::InstallWebview2),
            )
        },
        (PrepareStage::Install, ReplyView::Done(Ok(_))) => prepared(),
        (PrepareStage::Install, ReplyView::Done(Err(e))) => (
            Prepare { stage: PrepareStage::Over },
            TurnView {
                effects: seq![webview2_apology(e), EffectView::Exit(1)],
                next: NextView::Failed(e),
            },
        ),
        _ => (p, ignored()),
    }
}

impl Prepare {
    /// Begins the preparation.
    pub fn start() -> (r: (Prepare, Turn))
        ensures
            r.0 == (Prepare { stage: PrepareStage::Check }),
            r.1@ == just(NextView::Ask(RequestView::Webview2Installed)),
    {
        (Prepare { stage: PrepareStage::Check }, turn_just_ask(Request::Webview2Installed))
    }

    fn end(&mut self) -> (r: Turn)
        ensures
            (*final(self), r@) == prepared(),
    {
        self.stage = PrepareStage::Over;
        turn_finished(one(Effect::RefreshPath), String::new())
    }

    /// Takes the reply to what was asked last and goes on.
    pub fn step(&mut self, reply: Reply) -> (r: Turn)
        ensures
            (*final(self), r@) == prepare_step(*old(self), reply@),
    {
        match (self.stage, reply) {
            (PrepareStage::Check, Reply::Flag(found)) => {
                if found {
                    return self.end();
                }
                self.stage = PrepareStage::Install;
                turn_ask(
                    one(
                        Effect::Message {
                            title: "需要 WebView2 运行时".to_owned(),
                            text: "DeepSeek Harness Desktop 依赖 Microsoft WebView2 运行时。\n\n当前未检测到该组件，将自动下载并安装（约 100MB，会弹出系统管理员授权，请点击“是”）。\n\n随后会打开 WebView2 运行时安装窗口，请在窗口中等待下载安装完成（完成后点“关闭”即可），应用会自动继续启动。".to_owned(),
                            is_error: false,
                        },
                    ),
                    Request::InstallWebview2,
                )
            },
            (PrepareStage::Install, Reply::Done(Ok(_))) => self.end(),
            (PrepareStage::Install, Reply::Done(Err(e))) => {
                self.stage = PrepareStage::Over;
                let note = Effect::Message {
                    title: "WebView2 安装失败".to_owned(),
                    text: join3(
                        "自动安装 WebView2 运行时失败:",
                        e.as_str(),
                        "\n\n请手动下载并安装后重新运行本应用:\nhttps://developer.microsoft.com/microsoft-edge/webview2/",
                    ),
                    is_error: true,
                };
                turn_failed(two(note, Effect::Exit(1)), e)
            },
            _ => turn_ignored(),
        }
    }
}

} // verus!
