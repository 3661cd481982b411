//! The installation of Node.js: by winget, else from the official installer, else from
//! the portable archive, which needs no administrator.

use crate::command::{
    msi_install, msi_install_command, unpack, unpack_command, where_command, where_is,
    winget_install, winget_install_command,
};
use crate::npm::{latest_node_version, looked_up_node};
use crate::protocol::{
    asking, effects, ignored, just, none, one, two, turn_ask, turn_failed, turn_finished,
    turn_ignored, turn_just_ask, DownloadKind, Effect, EffectView, Exit, KindView, NextView, Reply,
    ReplyView, Request, RequestView, Turn, TurnView,
};
use crate::scripts::{add_path_script, add_user_path, NODE_QUERY};
use crate::text::{join2, join3, signed_decimal, signed_decimal_of};
use vstd::prelude::*;

verus! {

// ---- the three ways ----

/// What the installation of Node.js waits for.
#[derive(Clone, Copy, Debug, PartialEq, Eq, Structural)]
pub enum NodeStage {
    /// Whether there is winget.
    FindWinget,
    /// The end of winget.
    Winget,
    /// Whether Node.js can be used after winget.
    WingetCheck,
    /// The version that winget has installed.
    WingetVersion,
    /// The newest version.
    Latest,
    /// The end of the installer.
    Installer,
    /// The end of the portable installation.
    Archive,
    Over,
}

/// The installation of Node.js.
#[derive(Debug)]
pub struct InstallNode {
    /// The version to install, once it is known.
    pub version: String,
    pub stage: NodeStage,
}

/// What the installation of Node.js holds.
pub struct NodeView {
    pub version: Seq<char>,
    pub stage: NodeStage,
}

impl View for InstallNode {
    type V = NodeView;

    open spec fn view(&self) -> NodeView {
        NodeView { version: self.version@, stage: self.stage }
    }
}

/// Where the files of a Node.js version are found.
pub open spec fn dist_url(version: Seq<char>) -> Seq<char> {
    "https://nodejs.org/dist/"@ + version
}

/// The question for the newest version, after some effects.
pub open spec fn node_lookup(n: NodeView, list: Seq<EffectView>) -> (NodeView, TurnView) {
    (
        NodeView { stage: NodeStage::Latest, ..n },
        asking(list, RequestView::PowerShell(NODE_QUERY@)),
    )
}

/// The end of the installation with a version.
pub open spec fn node_finished(n: NodeView, version: Seq<char>) -> (NodeView, TurnView) {
    (
        NodeView { stage: NodeStage::Over, ..n },
        TurnView { effects: Seq::empty(), next: NextView::Finished(version) },
    )
}

/// The end of the installation in failure.
pub open spec fn node_failed(n: NodeView, reason: Seq<char>) -> (NodeView, TurnView) {
    (
        NodeView { stage: NodeStage::Over, ..n },
        TurnView { effects: Seq::empty(), next: NextView::Failed(reason) },
    )
}

/// What is said when winget has not done it.
pub open spec fn winget_note() -> EffectView {
    EffectView::Log("    winget 未成功，改用官方安装包…"@)
}

/// One step of the installation.
pub open spec fn node_step(n: NodeView, reply: ReplyView) -> (NodeView, TurnView) {
    match (n.stage, reply) {
        (NodeStage::FindWinget, ReplyView::Captured(Ok(_))) => (
            NodeView { stage: NodeStage::Winget, ..n },
            asking(
                seq![EffectView::Log("    正在通过 winget 安装 Node.js LTS…"@)],
                RequestView::Status(winget_install()),
            ),
        ),
        (NodeStage::FindWinget, ReplyView::Captured(Err(_))) => node_lookup(n, Seq::empty()),
        (NodeStage::Winget, ReplyView::Exited(Ok(exit))) => if exit.success {
            (
                NodeView { stage: NodeStage::WingetCheck, ..n },
                asking(seq![EffectView::RefreshPath], RequestView::NodeAvailable),
            )
        } else {
            node_lookup(n, seq![winget_note()])
        },
        (NodeStage::Winget, ReplyView::Exited(Err(_))) => node_lookup(n, seq![winget_note()]),
        (NodeStage::WingetCheck, ReplyView::Flag(available)) => if available {
            (
                NodeView { stage: NodeStage::WingetVersion, ..n },
                just(NextView::Ask(RequestView::NodeVersion)),
            )
        } else {
            node_lookup(n, seq![winget_note()])
        },
        (NodeStage::WingetVersion, ReplyView::Text(v)) => node_finished(n, v),
        (NodeStage::Latest, ReplyView::Captured(out)) => match looked_up_node(out) {
            Ok(v) => (
                NodeView { version: v, stage: NodeStage::Installer },
                just(
                    NextView::Ask(
                        RequestView::InstallNodeMsi { version: v, base_url: dist_url(v) },
                    ),
                ),
            ),
            Err(e) => node_failed(n, e),
        },
        (NodeStage::Installer, ReplyView::Captured(Ok(v))) => node_finished(n, v),
        (NodeStage::Installer, ReplyView::Captured(Err(e))) => (
            NodeView { stage: NodeStage::Archive, ..n },
            asking(
                seq![EffectView::Log("    官方安装包失败("@ + e + ")，改用便携版(免管理员)…"@)],
                RequestView::InstallNodeZip {
                    version: n.version,
                    base_url: dist_url(n.version),
                },
            ),
        ),
        (NodeStage::Archive, ReplyView::Captured(Ok(v))) => node_finished(n, v),
        (NodeStage::Archive, ReplyView::Captured(Err(e))) => node_failed(n, e),
        _ => (n, ignored()),
    }
}

impl InstallNode {
    /// Begins the installation of Node.js.
    pub fn start() -> (r: (InstallNode, Turn))
        ensures
            r.0@ == (NodeView { version: Seq::empty(), stage: NodeStage::FindWinget }),
            r.1@ == just(NextView::Ask(RequestView::Capture(where_is("winget"@)))),
    {
        (
            InstallNode { version: String::new(), stage: NodeStage::FindWinget },
            turn_just_ask(Request::Capture(where_command("winget"))),
        )
    }

    fn look_up(&mut self, list: Vec<Effect>) -> (r: Turn)
        ensures
            (final(self)@, r@) == node_lookup(old(self)@, effects(list@)),
    {
        self.stage = NodeStage::Latest;
        turn_ask(list, Request::PowerShell(NODE_QUERY.to_owned()))
    }

    fn without_winget(&mut self) -> (r: Turn)
        ensures
            (final(self)@, r@) == node_lookup(old(self)@, seq![winget_note()]),
    {
        self.look_up(one(Effect::Log("    winget 未成功，改用官方安装包…".to_owned())))
    }

    fn finish(&mut self, version: String) -> (r: Turn)
        ensures
            (final(self)@, r@) == node_finished(old(self)@, version@),
    {
        self.stage = NodeStage::Over;
        turn_finished(none(), version)
    }

    fn fail(&mut self, reason: String) -> (r: Turn)
        ensures
            (final(self)@, r@) == node_failed(old(self)@, reason@),
    {
        self.stage = NodeStage::Over;
        turn_failed(none(), reason)
    }

    /// Takes the reply to what was asked last and goes on.
    pub fn step(&mut self, reply: Reply) -> (r: Turn)
        ensures
            (final(self)@, r@) == node_step(old(self)@, reply@),
    {
        match (self.stage, reply) {
            (NodeStage::FindWinget, Reply::Captured(Ok(_))) => {
                self.stage = NodeStage::Winget;
                turn_ask(
                    one(Effect::Log("    正在通过 winget 安装 Node.js LTS…".to_owned())),
                    Request::Status(winget_install_command()),
                )
            },
            (NodeStage::FindWinget, Reply::Captured(Err(_))) => self.look_up(none()),
            (NodeStage::Winget, Reply::Exited(Ok(exit))) => {
                if exit.success {
                    self.stage = NodeStage::WingetCheck;
                    turn_ask(one(Effect::RefreshPath), Request::NodeAvailable)
                } else {
                    self.without_winget()
                }
            },
            (NodeStage::Winget, Reply::Exited(Err(_))) => self.without_winget(),
            (NodeStage::WingetCheck, Reply::Flag(available)) => {
                if available {
                    self.stage = NodeStage::WingetVersion;
                    turn_just_ask(Request::NodeVersion)
                } else {
                    self.without_winget()
                }
            },
            (NodeStage::WingetVersion, Reply::Text(v)) => self.finish(v),
            (NodeStage::Latest, Reply::Captured(out)) => {
                match latest_node_version(out) {
                    Ok(v) => {
                        let base_url = join2("https://nodejs.org/dist/", v.as_str());
                        self.version = v.clone();
                        self.stage = NodeStage::Installer;
                        turn_just_ask(Request::InstallNodeMsi { version: v, base_url })
                    },
                    Err(e) => self.fail(e),
                }
            },
            (NodeStage::Installer, Reply::Captured(Ok(v))) => self.finish(v),
            (NodeStage::Installer, Reply::Captured(Err(e))) => {
                self.stage = NodeStage::Archive;
                let version = self.version.clone();
                let base_url = join2("https://nodejs.org/dist/", version.as_str());
                turn_ask(
                    one(
                        Effect::Log(
                            join3(
                                "    官方安装包失败(",
                                e.as_str(),
                                ")，改用便携版(免管理员)…",
                            ),
                        ),
                    ),
                    Request::InstallNodeZip { version, base_url },
                )
            },
            (NodeStage::Archive, Reply::Captured(Ok(v))) => self.finish(v),
            (NodeStage::Archive, Reply::Captured(Err(e))) => self.fail(e),
            _ => turn_ignored(),
        }
    }
}

// ---- from the installer ----

/// What the installation from the installer waits for.
#[derive(Clone, Copy, Debug, PartialEq, Eq, Structural)]
pub enum MsiStage {
    /// The end of the download.
    Download,
    /// The end of the installer.
    Run,
    /// Whether Node.js can be used.
    Check,
    /// The version that was installed.
    Version,
    Over,
}

/// The exit code of an installer that asks for a restart.
pub const RESTART_CODE: i32 = 3010;

/// Whether an installer has done its work, though it may ask for a restart.
pub open spec fn installed(exit: Exit) -> bool {
    exit.success || exit.code == Some(RESTART_CODE)
}

/// The exit code in words; -1 where there is none.
pub open spec fn code_text(exit: Exit) -> Seq<char> {
    signed_decimal(
        match exit.code {
            Some(c) => c as int,
            None => -1,
        },
    )
}

/// The exit code in words; -1 where there is none.
pub fn exit_code(exit: Exit) -> (r: String)
    ensures
        r@ == code_text(exit),
{
    signed_decimal_of(
        match exit.code {
            Some(c) => c,
            None => -1,
        },
    )
}

/// The installation of Node.js from its official installer.
#[derive(Clone, Copy, Debug, PartialEq, Eq, Structural)]
pub struct InstallNodeMsi {
    pub stage: MsiStage,
}

/// The start of the installation: the download of the installer.
pub open spec fn msi_start(version: Seq<char>, base_url: Seq<char>) -> (InstallNodeMsi, TurnView) {
    (
        InstallNodeMsi { stage: MsiStage::Download },
        asking(
            seq![EffectView::Log("    正在下载 Node.js "@ + version + " 安装包…"@)],
            RequestView::Download {
                url: base_url + "/node-"@ + version + "-x64.msi"@,
                file: "node-"@ + version + "-x64.msi"@,
                log_name: None,
                kind: KindView::NodeInstaller(version),
            },
        ),
    )
}

/// The end of the installation in failure.
pub open spec fn msi_failed(reason: Seq<char>) -> (InstallNodeMsi, TurnView) {
    (
        InstallNodeMsi { stage: MsiStage::Over },
        TurnView { effects: Seq::empty(), next: NextView::Failed(reason) },
    )
}

/// One step of the installation.
pub open spec fn msi_step(m: InstallNodeMsi, reply: ReplyView) -> (InstallNodeMsi, TurnView) {
    match (m.stage, reply) {
        (MsiStage::Download, ReplyView::Captured(Ok(path))) => (
            InstallNodeMsi { stage: MsiStage::Run },
            asking(
                seq![EffectView::Log("    正在静默安装(msiexec /qn)，可能需要几分钟…"@)],
                RequestView::Status(msi_install(path)),
            ),
        ),
        (MsiStage::Download, ReplyView::Captured(Err(e))) => msi_failed(e),
        (MsiStage::Run, ReplyView::Exited(Ok(exit))) => if installed(exit) {
            (
                InstallNodeMsi { stage: MsiStage::Check },
                asking(seq![EffectView::RefreshPath], RequestView::NodeAvailable),
            )
        } else {
            msi_failed("Node.js 安装失败(退出码 "@ + code_text(exit) + ")"@)
        },
        (MsiStage::Run, ReplyView::Exited(Err(e))) => msi_failed("启动 Node.js 安装失败:"@ + e),
        (MsiStage::Check, ReplyView::Flag(available)) => if available {
            (
                InstallNodeMsi { stage: MsiStage::Version },
                just(NextView::Ask(RequestView::NodeVersion)),
            )
        } else {
            msi_failed("Node.js 安装完成但仍无法在 PATH 中找到 node/npm"@)
        },
        (MsiStage::Version, ReplyView::Text(v)) => (
            InstallNodeMsi { stage: MsiStage::Over },
            TurnView { effects: Seq::empty(), next: NextView::Finished(v) },
        ),
        _ => (m, ignored()),
    }
}

impl InstallNodeMsi {
    /// Begins the installation of a version whose files are found under `base_url`.
    pub fn start(version: String, base_url: &str) -> (r: (InstallNodeMsi, Turn))
        ensures
            (r.0, r.1@) == msi_start(version@, base_url@),
    {
        let url = join3(base_url, "/node-", version.as_str()).concat("-x64.msi");
        let file = join3("node-", version.as_str(), "-x64.msi");
        let note = join3("    正在下载 Node.js ", version.as_str(), " 安装包…");
        (
            InstallNodeMsi { stage: MsiStage::Download },
            turn_ask(
                one(Effect::Log(note)),
                Request::Download {
                    url,
                    file,
                    log_name: None,
                    kind: DownloadKind::NodeInstaller(version),
                },
            ),
        )
    }

    fn fail(&mut self, reason: String) -> (r: Turn)
        ensures
            (*final(self), r@) == msi_failed(reason@),
    {
        self.stage = MsiStage::Over;
        turn_failed(none(), reason)
    }

    /// Takes the reply to what was asked last and goes on.
    pub fn step(&mut self, reply: Reply) -> (r: Turn)
        ensures
            (*final(self), r@) == msi_step(*old(self), reply@),
    {
        match (self.stage, reply) {
            (MsiStage::Download, Reply::Captured(Ok(path))) => {
                self.stage = MsiStage::Run;
                turn_ask(
                    one(
                        Effect::Log("    正在静默安装(msiexec /qn)，可能需要几分钟…".to_owned()),
                    ),
                    Request::Status(msi_install_command(path.as_str())),
                )
            },
            (MsiStage::Download, Reply::Captured(Err(e))) => self.fail(e),
            (MsiStage::Run, Reply::Exited(Ok(exit))) => {
                let restart = match exit.code {
                    Some(c) => c == RESTART_CODE,
                    None => false,
                };
                if exit.success || restart {
                    self.stage = MsiStage::Check;
                    turn_ask(one(Effect::RefreshPath), Request::NodeAvailable)
                } else {
                    self.fail(
                        join3("Node.js 安装失败(退出码 ", exit_code(exit).as_str(), ")"),
                    )
                }
            },
            (MsiStage::Run, Reply::Exited(Err(e))) => {
                self.fail(join2("启动 Node.js 安装失败:", e.as_str()))
            },
            (MsiStage::Check, Reply::Flag(available)) => {
                if available {
                    self.stage = MsiStage::Version;
                    turn_just_ask(Request::NodeVersion)
                } else {
                    self.fail("Node.js 安装完成但仍无法在 PATH 中找到 node/npm".to_owned())
                }
            },
            (MsiStage::Version, Reply::Text(v)) => {
                self.stage = MsiStage::Over;
                turn_finished(none(), v)
            },
            _ => turn_ignored(),
        }
    }
}

// ---- from the archive ----

/// What the installation from the archive waits for.
#[derive(Clone, Copy, Debug, PartialEq, Eq, Structural)]
pub enum ZipStage {
    /// The end of the download.
    Download,
    /// The directory to be created.
    Directory,
    /// The end of the unpacking.
    Unpack,
    /// Whether Node.js can be used.
    Check,
    /// The version that was installed.
    Version,
    Over,
}

/// The installation of Node.js from its portable archive.
#[derive(Debug)]
pub struct InstallNodeZip {
    /// The directory to install into.
    pub dir: String,
    /// The archive, once it has arrived.
    pub archive: String,
    pub stage: ZipStage,
}

/// What the installation holds.
pub struct ZipView {
    pub dir: Seq<char>,
    pub archive: Seq<char>,
    pub stage: ZipStage,
}

impl View for InstallNodeZip {
    type V = ZipView;

    open spec fn view(&self) -> ZipView {
        ZipView { dir: self.dir@, archive: self.archive@, stage: self.stage }
    }
}

/// The start of the installation: the download of the archive.
pub open spec fn zip_start(
    version: Seq<char>,
    base_url: Seq<char>,
    dir: Seq<char>,
) -> (ZipView, TurnView) {
    (
        ZipView { dir, archive: Seq::empty(), stage: ZipStage::Download },
        asking(
            seq![EffectView::Log("    正在下载便携版 Node.js "@ + version + "…"@)],
            RequestView::Download {
                url: base_url + "/node-"@ + version + "-win-x64.zip"@,
                file: "node-"@ + version + "-win-x64.zip"@,
                log_name: None,
                kind: KindView::NodeArchive(version),
            },
        ),
    )
}

/// The end of the installation in failure.
pub open spec fn zip_failed(z: ZipView, reason: Seq<char>) -> (ZipView, TurnView) {
    (
        ZipView { stage: ZipStage::Over, ..z },
        TurnView { effects: Seq::empty(), next: NextView::Failed(reason) },
    )
}

/// One step of the installation.
pub open spec fn zip_step(z: ZipView, reply: ReplyView) -> (ZipView, TurnView) {
    match (z.stage, reply) {
        (ZipStage::Download, ReplyView::Captured(Ok(path))) => (
            ZipView { archive: path, stage: ZipStage::Directory, ..z },
            just(NextView::Ask(RequestView::CreateDir(z.dir))),
        ),
        (ZipStage::Download, ReplyView::Captured(Err(e))) => zip_failed(z, e),
        (ZipStage::Directory, ReplyView::Done(Ok(_))) => (
            ZipView { stage: ZipStage::Unpack, ..z },
            asking(
                seq![EffectView::Log("    正在解压并配置…"@)],
                RequestView::Status(unpack(z.archive, z.dir)),
            ),
        ),
        (ZipStage::Directory, ReplyView::Done(Err(e))) => zip_failed(z, "创建安装目录失败:"@ + e),
        (ZipStage::Unpack, ReplyView::Exited(Ok(exit))) => if exit.success {
            (
                ZipView { stage: ZipStage::Check, ..z },
                asking(
                    seq![EffectView::RunScript(add_path_script(z.dir)), EffectView::RefreshPath],
                    RequestView::NodeAvailable,
                ),
            )
        } else {
            zip_failed(z, "解压 Node.js 失败"@)
        },
        (ZipStage::Unpack, ReplyView::Exited(Err(e))) => zip_failed(z, "解压 Node.js 失败:"@ + e),
        (ZipStage::Check, ReplyView::Flag(available)) => if available {
            (
                ZipView { stage: ZipStage::Version, ..z },
                just(NextView::Ask(RequestView::NodeVersion)),
            )
        } else {
            zip_failed(z, "便携版 Node.js 未能生效"@)
        },
        (ZipStage::Version, ReplyView::Text(v)) => (
            ZipView { stage: ZipStage::Over, ..z },
            TurnView { effects: Seq::empty(), next: NextView::Finished(v) },
        ),
        _ => (z, ignored()),
    }
}

impl InstallNodeZip {
    /// Begins the installation of a version whose files are found under `base_url` into a
    /// directory.
    pub fn start(version: String, base_url: &str, dir: String) -> (r: (InstallNodeZip, Turn))
        ensures
            (r.0@, r.1@) == zip_start(version@, base_url@, dir@),
    {
        let url = join3(base_url, "/node-", version.as_str()).concat("-win-x64.zip");
        let file = join3("node-", version.as_str(), "-win-x64.zip");
        let note = join3("    正在下载便携版 Node.js ", version.as_str(), "…");
        (
            InstallNodeZip { dir, archive: String::new(), stage: ZipStage::Download },
            turn_ask(
                one(Effect::Log(note)),
                Request::Download {
                    url,
                    file,
                    log_name: None,
                    kind: DownloadKind::NodeArchive(version),
                },
            ),
        )
    }

    fn fail(&mut self, reason: String) -> (r: Turn)
        ensures
            (final(self)@, r@) == zip_failed(old(self)@, reason@),
    {
        self.stage = ZipStage::Over;
        turn_failed(none(), reason)
    }

    /// Takes the reply to what was asked last and goes on.
    pub fn step(&mut self, reply: Reply) -> (r: Turn)
        ensures
            (final(self)@, r@) == zip_step(old(self)@, reply@),
    {
        match (self.stage, reply) {
            (ZipStage::Download, Reply::Captured(Ok(path))) => {
                self.archive = path;
                self.stage = ZipStage::Directory;
                turn_just_ask(Request::CreateDir(self.dir.clone()))
            },
            (ZipStage::Download, Reply::Captured(Err(e))) => self.fail(e),
            (ZipStage::Directory, Reply::Done(Ok(_))) => {
                self.stage = ZipStage::Unpack;
                turn_ask(
                    one(Effect::Log("    正在解压并配置…".to_owned())),
                    Request::Status(unpack_command(self.archive.as_str(), self.dir.as_str())),
                )
            },
            (ZipStage::Directory, Reply::Done(Err(e))) => {
                self.fail(join2("创建安装目录失败:", e.as_str()))
            },
            (ZipStage::Unpack, Reply::Exited(Ok(exit))) => {
                if exit.success {
                    self.stage = ZipStage::Check;
                    turn_ask(
                        two(
                            Effect::RunScript(add_user_path(self.dir.as_str())),
                            Effect::RefreshPath,
                        ),
                        Request::NodeAvailable,
                    )
                } else {
                    self.fail("解压 Node.js 失败".to_owned())
                }
            },
            (ZipStage::Unpack, Reply::Exited(Err(e))) => {
                self.fail(join2("解压 Node.js 失败:", e.as_str()))
            },
            (ZipStage::Check, Reply::Flag(available)) => {
                if available {
                    self.stage = ZipStage::Version;
                    turn_just_ask(Request::NodeVersion)
                } else {
                    self.fail("便携版 Node.js 未能生效".to_owned())
                }
            },
            (ZipStage::Version, Reply::Text(v)) => {
                self.stage = ZipStage::Over;
                turn_finished(none(), v)
            },
            _ => turn_ignored(),
        }
    }
}

} // verus!
