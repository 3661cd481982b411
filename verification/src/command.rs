//! The programs that are run, and what their output comes to.

use crate::outside::{lossy, lossy_form};
use crate::protocol::{Command, CommandView};
use crate::state::result_text;
use crate::text::{decimal, decimal_of, join3, texts, trim, trimmed};
use vstd::prelude::*;
use vstd::utf8::{decode_utf8, valid_utf8};

verus! {

impl CommandView {
    /// The command with one more argument.
    pub open spec fn with(self, arg: Seq<char>) -> CommandView {
        CommandView { args: self.args.push(arg), ..self }
    }
}

/// A program without arguments.
pub open spec fn program(name: Seq<char>) -> CommandView {
    CommandView { program: name, args: Seq::empty() }
}

impl Command {
    /// A program without arguments.
    pub fn new(name: &str) -> (r: Command)
        ensures
            r@ == program(name@),
    {
        let args: Vec<String> = Vec::new();
        assert(texts(args@) =~= Seq::empty());
        Command { program: name.to_owned(), args }
    }

    /// The command with one more argument.
    pub fn with(self, arg: &str) -> (r: Command)
        ensures
            r@ == self@.with(arg@),
    {
        let mut args = self.args;
        args.push(arg.to_owned());
        assert(texts(args@) =~= texts(self.args@).push(arg@));
        Command { program: self.program, args }
    }
}

/// A program that the command shell looks up.
pub open spec fn shell(name: Seq<char>) -> CommandView {
    program("cmd"@).with("/c"@).with(name)
}

/// A program that the command shell looks up.
pub fn shell_command(name: &str) -> (r: Command)
    ensures
        r@ == shell(name@),
{
    Command::new("cmd").with("/c").with(name)
}

/// The question where a program is found on the search path.
pub open spec fn where_is(name: Seq<char>) -> CommandView {
    shell("where"@).with(name)
}

/// The question where a program is found on the search path.
pub fn where_command(name: &str) -> (r: Command)
    ensures
        r@ == where_is(name@),
{
    shell_command("where").with(name)
}

/// The question for the version of node.
pub fn node_version_command() -> (r: Command)
    ensures
        r@ == shell("node"@).with("--version"@),
{
    shell_command("node").with("--version")
}

/// The question for the dsh package in the global npm prefix.
pub open spec fn npm_list() -> CommandView {
    shell("npm"@).with("ls"@).with("-g"@).with("@deepseek-ai/dsh"@).with("--depth=0"@)
}

/// The question for the dsh package in the global npm prefix.
pub fn npm_list_command() -> (r: Command)
    ensures
        r@ == npm_list(),
{
    shell_command("npm").with("ls").with("-g").with("@deepseek-ai/dsh").with("--depth=0")
}

/// The question for the dsh package in another npm prefix.
pub open spec fn npm_list_prefix(prefix: Seq<char>) -> CommandView {
    shell("npm"@).with("ls"@).with("-g"@).with("--prefix"@).with(prefix).with(
        "@deepseek-ai/dsh"@,
    ).with("--depth=0"@)
}

/// The question for the dsh package in another npm prefix.
pub fn npm_list_prefix_command(prefix: &str) -> (r: Command)
    ensures
        r@ == npm_list_prefix(prefix@),
{
    shell_command("npm").with("ls").with("-g").with("--prefix").with(prefix).with(
        "@deepseek-ai/dsh",
    ).with("--depth=0")
}

/// The question for the newest dsh version of the npm registry.
pub open spec fn npm_view() -> CommandView {
    shell("npm"@).with("view"@).with("@deepseek-ai/dsh"@).with("version"@)
}

/// The question for the newest dsh version of the npm registry.
pub fn npm_view_command() -> (r: Command)
    ensures
        r@ == npm_view(),
{
    shell_command("npm").with("view").with("@deepseek-ai/dsh").with("version")
}

/// The installation of the newest dsh into the global npm prefix.
pub open spec fn npm_install() -> CommandView {
    shell("npm"@).with("install"@).with("-g"@).with("@deepseek-ai/dsh@latest"@)
}

/// The installation of the newest dsh into the global npm prefix.
pub fn npm_install_command() -> (r: Command)
    ensures
        r@ == npm_install(),
{
    shell_command("npm").with("install").with("-g").with("@deepseek-ai/dsh@latest")
}

/// The installation of the newest dsh into another npm prefix, as one shell line.
pub open spec fn npm_install_prefix(prefix: Seq<char>) -> CommandView {
    shell("npm install -g --prefix \""@ + prefix + "\" @deepseek-ai/dsh@latest"@)
}

/// The installation of the newest dsh into another npm prefix, as one shell line.
pub fn npm_install_prefix_command(prefix: &str) -> (r: Command)
    ensures
        r@ == npm_install_prefix(prefix@),
{
    shell_command(
        join3("npm install -g --prefix \"", prefix, "\" @deepseek-ai/dsh@latest").as_str(),
    )
}

/// The start of the dsh web server on a port.
pub open spec fn server_program(port: u16) -> CommandView {
    program("cmd.exe"@).with("/c"@).with("npx"@).with("@deepseek-ai/dsh"@).with("web"@).with(
        "--no-open"@,
    ).with("--port"@).with(decimal(port as nat))
}

/// The start of the dsh web server on a port.
pub fn spawn_server(port: u16) -> (r: Command)
    ensures
        r@ == server_program(port),
{
    Command::new("cmd.exe").with("/c").with("npx").with("@deepseek-ai/dsh").with("web").with(
        "--no-open",
    ).with("--port").with(decimal_of(port as u64).as_str())
}

/// The listing of all TCP connections and listeners with their processes.
pub fn netstat_command() -> (r: Command)
    ensures
        r@ == program("netstat"@).with("-ano"@).with("-p"@).with("tcp"@),
{
    Command::new("netstat").with("-ano").with("-p").with("tcp")
}

/// The end of a process and of all that it has started.
pub fn kill_tree_command(pid: u32) -> (r: Command)
    ensures
        r@ == program("taskkill"@).with("/PID"@).with(decimal(pid as nat)).with("/T"@).with("/F"@),
{
    Command::new("taskkill").with("/PID").with(decimal_of(pid as u64).as_str()).with("/T").with(
        "/F",
    )
}

/// A PowerShell that runs a script file without profile and without questions.
pub open spec fn powershell_file(script: Seq<char>) -> CommandView {
    program("powershell"@).with("-NoProfile"@).with("-NonInteractive"@).with(
        "-ExecutionPolicy"@,
    ).with("Bypass"@).with("-File"@).with(script)
}

/// A PowerShell that runs a script file without profile and without questions.
pub fn powershell_file_command(script: &str) -> (r: Command)
    ensures
        r@ == powershell_file(script@),
{
    Command::new("powershell").with("-NoProfile").with("-NonInteractive").with(
        "-ExecutionPolicy",
    ).with("Bypass").with("-File").with(script)
}

/// The systems that know how to open an address.
#[derive(Clone, Copy, Debug, PartialEq, Eq, Structural)]
pub enum Platform {
    Windows,
    MacOs,
    Linux,
}

/// The opening of an address in the system's browser.
pub fn open_url(platform: Platform, url: &str) -> (r: Command)
    ensures
        r@ == match platform {
            Platform::Windows => shell("start"@).with(""@).with(url@),
            Platform::MacOs => program("open"@).with(url@),
            Platform::Linux => program("xdg-open"@).with(url@),
        },
{
    match platform {
        Platform::Windows => shell_command("start").with("").with(url),
        Platform::MacOs => Command::new("open").with(url),
        Platform::Linux => Command::new("xdg-open").with(url),
    }
}

/// The question for a value of a registry key.
pub fn registry_query_command(key: &str) -> (r: Command)
    ensures
        r@ == program("reg"@).with("query"@).with(key@).with("/v"@).with("pv"@),
{
    Command::new("reg").with("query").with(key).with("/v").with("pv")
}

/// The silent installation of Node.js by winget.
pub open spec fn winget_install() -> CommandView {
    program("winget"@).with("install"@).with("--id"@).with("OpenJS.NodeJS.LTS"@).with(
        "--silent"@,
    ).with("--accept-package-agreements"@).with("--accept-source-agreements"@).with(
        "--disable-interactivity"@,
    )
}

/// The silent installation of Node.js by winget.
pub fn winget_install_command() -> (r: Command)
    ensures
        r@ == winget_install(),
{
    Command::new("winget").with("install").with("--id").with("OpenJS.NodeJS.LTS").with(
        "--silent",
    ).with("--accept-package-agreements").with("--accept-source-agreements").with(
        "--disable-interactivity",
    )
}

/// The silent installation of an installer package.
pub open spec fn msi_install(package: Seq<char>) -> CommandView {
    program("msiexec"@).with("/i"@).with(package).with("/qn"@).with("/norestart"@)
}

/// The silent installation of an installer package.
pub fn msi_install_command(package: &str) -> (r: Command)
    ensures
        r@ == msi_install(package@),
{
    Command::new("msiexec").with("/i").with(package).with("/qn").with("/norestart")
}

/// The unpacking of an archive into a directory, without its outermost directory.
pub open spec fn unpack(archive: Seq<char>, dir: Seq<char>) -> CommandView {
    program("tar"@).with("-xf"@).with(archive).with("-C"@).with(dir).with("--strip-components=1"@)
}

/// The unpacking of an archive into a directory, without its outermost directory.
pub fn unpack_command(archive: &str, dir: &str) -> (r: Command)
    ensures
        r@ == unpack(archive@, dir@),
{
    Command::new("tar").with("-xf").with(archive).with("-C").with(dir).with("--strip-components=1")
}

/// What a program that has ended comes to: its output where it succeeded; else what it
/// wrote to its error output, without white space around it, or what it wrote to its
/// output where that is nothing.
pub open spec fn captured(
    success: bool,
    stdout: Seq<char>,
    stderr: Seq<char>,
) -> Result<Seq<char>, Seq<char>> {
    if success {
        Ok(stdout)
    } else if trim(stderr).len() > 0 {
        Err(trim(stderr))
    } else {
        Err(trim(stdout))
    }
}

/// What a program that has ended comes to.
pub fn run_capture(success: bool, stdout: String, stderr: &str) -> (r: Result<String, String>)
    ensures
        result_text(r) == captured(success, stdout@, stderr@),
{
    if success {
        return Ok(stdout);
    }
    let err = trimmed(stderr);
    if !err.as_str().is_empty() {
        return Err(err);
    }
    Err(trimmed(stdout.as_str()))
}

/// What a program that has ended comes to, out of the bytes that it has written.
pub fn run_capture_bytes(success: bool, stdout: &Vec<u8>, stderr: &Vec<u8>) -> (r: Result<
    String,
    String,
>)
    ensures
        result_text(r) == captured(success, lossy_form(stdout@), lossy_form(stderr@)),
        success && valid_utf8(stdout@) ==> result_text(r) == Ok::<Seq<char>, Seq<char>>(
            decode_utf8(stdout@),
        ),
{
    run_capture(success, lossy(stdout), lossy(stderr).as_str())
}

} // verus!
