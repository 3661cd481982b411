//! The forms that commands, scripts, addresses and states take, for whatever goes into them.

use crate::command::{
    captured, msi_install, npm_install, npm_install_prefix, npm_list, npm_list_prefix, npm_view,
    powershell_file, program, server_program, shell, unpack, where_is, winget_install,
};
use crate::dsh::dsh_outcome;
use crate::environment::{entries, extended, has, local_data, merged_entries, registry_query};
use crate::laws_runs::on_show;
use crate::laws_text::law_version_is_read_back;
use crate::order::{version_order, Precedence};
use crate::outside::{
    json_member, valid_version, version_of, version_text, ScalarView, VersionView,
};
use crate::protocol::{
    amended, AmendmentView, CommandView, EffectView, ReleaseErrorView, ReleaseView,
};
use crate::release::{
    differs, dsh_outdated, fetched, finding, finding_shown, newer, plain_version, read_version,
    release_note, told_release, ReleaseReplyView, UpdateInfoView,
};
use crate::scripts::{
    add_path_script, download_text, head_script, swap_text, NODE_QUERY, PATH_QUERY, RELEASE_QUERY,
};
use crate::server::{log_name, url_of};
use crate::state::{
    active_phase, failed_setup, failed_update, measured_update, plain_update, version_update,
    with_item, Progress, SetupView, UpdateView,
};
use crate::text::{decimal, pieces, strip_start, trim, Cut};
use crate::window::{bar_call, other_page, page_label, page_named, Page};
use vstd::prelude::*;

verus! {

// ---- commands ----

/// A program with its arguments.
pub open spec fn line(name: Seq<char>, args: Seq<Seq<char>>) -> CommandView {
    CommandView { program: name, args }
}

/// The commands that ask for something, with what they ask for in its place.
pub proof fn law_commands_that_ask(name: Seq<char>, prefix: Seq<char>, key: Seq<char>)
    ensures
        program(name) == line(name, Seq::empty()),
        shell(name) == line("cmd"@, seq!["/c"@, name]),
        where_is(name) == line("cmd"@, seq!["/c"@, "where"@, name]),
        npm_list() == line(
            "cmd"@,
            seq!["/c"@, "npm"@, "ls"@, "-g"@, "@deepseek-ai/dsh"@, "--depth=0"@],
        ),
        npm_list_prefix(prefix) == line(
            "cmd"@,
            seq![
                "/c"@,
                "npm"@,
                "ls"@,
                "-g"@,
                "--prefix"@,
                prefix,
                "@deepseek-ai/dsh"@,
                "--depth=0"@,
            ],
        ),
        npm_view() == line("cmd"@, seq!["/c"@, "npm"@, "view"@, "@deepseek-ai/dsh"@, "version"@]),
        registry_query(key) == line("reg"@, seq!["query"@, key, "/v"@, "pv"@]),
{
    assert(shell(name).args =~= seq!["/c"@, name]);
    assert(where_is(name).args =~= seq!["/c"@, "where"@, name]);
    assert(npm_list().args =~= seq![
        "/c"@,
        "npm"@,
        "ls"@,
        "-g"@,
        "@deepseek-ai/dsh"@,
        "--depth=0"@,
    ]);
    assert(npm_list_prefix(prefix).args =~= seq![
        "/c"@,
        "npm"@,
        "ls"@,
        "-g"@,
        "--prefix"@,
        prefix,
        "@deepseek-ai/dsh"@,
        "--depth=0"@,
    ]);
    assert(npm_view().args =~= seq!["/c"@, "npm"@, "view"@, "@deepseek-ai/dsh"@, "version"@]);
    assert(registry_query(key).args =~= seq!["query"@, key, "/v"@, "pv"@]);
}

/// The commands that change something, with what they change in its place.
pub proof fn law_commands_that_act(
    port: u16,
    prefix: Seq<char>,
    path: Seq<char>,
    dir: Seq<char>,
)
    ensures
        server_program(port) == line(
            "cmd.exe"@,
            seq![
                "/c"@,
                "npx"@,
                "@deepseek-ai/dsh"@,
                "web"@,
                "--no-open"@,
                "--port"@,
                decimal(port as nat),
            ],
        ),
        npm_install() == line(
            "cmd"@,
            seq!["/c"@, "npm"@, "install"@, "-g"@, "@deepseek-ai/dsh@latest"@],
        ),
        npm_install_prefix(prefix) == line(
            "cmd"@,
            seq![
                "/c"@,
                "npm install -g --prefix \""@ + prefix + "\" @deepseek-ai/dsh@latest"@,
            ],
        ),
        powershell_file(path) == line(
            "powershell"@,
            seq![
                "-NoProfile"@,
                "-NonInteractive"@,
                "-ExecutionPolicy"@,
                "Bypass"@,
                "-File"@,
                path,
            ],
        ),
        winget_install() == line(
            "winget"@,
            seq![
                "install"@,
                "--id"@,
                "OpenJS.NodeJS.LTS"@,
                "--silent"@,
                "--accept-package-agreements"@,
                "--accept-source-agreements"@,
                "--disable-interactivity"@,
            ],
        ),
        msi_install(path) == line("msiexec"@, seq!["/i"@, path, "/qn"@, "/norestart"@]),
        unpack(path, dir) == line(
            "tar"@,
            seq!["-xf"@, path, "-C"@, dir, "--strip-components=1"@],
        ),
{
    assert(server_program(port).args =~= seq![
        "/c"@,
        "npx"@,
        "@deepseek-ai/dsh"@,
        "web"@,
        "--no-open"@,
        "--port"@,
        decimal(port as nat),
    ]);
    assert(npm_install().args =~= seq![
        "/c"@,
        "npm"@,
        "install"@,
        "-g"@,
        "@deepseek-ai/dsh@latest"@,
    ]);
    assert(npm_install_prefix(prefix).args =~= seq![
        "/c"@,
        "npm install -g --prefix \""@ + prefix + "\" @deepseek-ai/dsh@latest"@,
    ]);
    assert(powershell_file(path).args =~= seq![
        "-NoProfile"@,
        "-NonInteractive"@,
        "-ExecutionPolicy"@,
        "Bypass"@,
        "-File"@,
        path,
    ]);
    assert(winget_install().args =~= seq![
        "install"@,
        "--id"@,
        "OpenJS.NodeJS.LTS"@,
        "--silent"@,
        "--accept-package-agreements"@,
        "--accept-source-agreements"@,
        "--disable-interactivity"@,
    ]);
    assert(msi_install(path).args =~= seq!["/i"@, path, "/qn"@, "/norestart"@]);
    assert(unpack(path, dir).args =~= seq!["-xf"@, path, "-C"@, dir, "--strip-components=1"@]);
}

/// A program that has succeeded gives what it has printed, unchanged. One that has failed
/// gives what it has complained of, or what it has printed where it has not complained.
pub proof fn law_output_of_a_program(out: Seq<char>, complaint: Seq<char>)
    ensures
        captured(true, out, complaint) == Ok::<Seq<char>, Seq<char>>(out),
        trim(complaint).len() > 0 ==> captured(false, out, complaint) == Err::<
            Seq<char>,
            Seq<char>,
        >(trim(complaint)),
        trim(complaint).len() == 0 ==> captured(false, out, complaint) == Err::<
            Seq<char>,
            Seq<char>,
        >(trim(out)),
{
}

// ---- scripts ----

/// The scripts that are the same for everybody.
pub proof fn law_fixed_scripts()
    ensures
        PATH_QUERY@ == "[Environment]::GetEnvironmentVariable('Path','Machine') + ';' + [Environment]::GetEnvironmentVariable('Path','User')"@,
        NODE_QUERY@ == "$ProgressPreference='SilentlyContinue'\r\ntry {\r\n  $r = Invoke-RestMethod -UseBasicParsing -Headers @{ 'User-Agent'='deepseek-harness-desktop' } 'https://nodejs.org/dist/index.json'\r\n  ($r | Where-Object { $_.lts } | Select-Object -First 1).version\r\n} catch { }"@,
        RELEASE_QUERY@ == "$ProgressPreference='SilentlyContinue'\r\ntry {\r\n  $r = Invoke-RestMethod -UseBasicParsing -Headers @{ 'User-Agent'='deepseek-harness-desktop (wq3333/deepseek-harness-desktop)' } 'https://api.github.com/repos/wq3333/deepseek-harness-desktop/releases/latest'\r\n  $a = $r.assets | Where-Object { $_.name -ieq 'deepseek-harness.exe' } | Select-Object -First 1\r\n  if (-not $a) { $a = $r.assets | Where-Object { $_.name -like '*.exe' } | Select-Object -First 1 }\r\n  [pscustomobject]@{ ok=$true; tag=$r.tag_name; body=$r.body; asset=$a.browser_download_url } | ConvertTo-Json -Compress\r\n} catch {\r\n  $code = 0\r\n  try { $code = $_.Exception.Response.StatusCode.value__ } catch {}\r\n  if ($code -eq 404) { [pscustomobject]@{ ok=$false; code=404 } | ConvertTo-Json -Compress }\r\n  else { [pscustomobject]@{ ok=$false; code=0; message=($_.Exception.Message -replace '\\r?\\n',' ') } | ConvertTo-Json -Compress }\r\n}"@,
{
}

/// The scripts that are made for an address, a file or a directory have them in their
/// places.
pub proof fn law_scripts_for_something(
    url: Seq<char>,
    dest: Seq<char>,
    log: Seq<char>,
    dir: Seq<char>,
)
    ensures
        head_script(url) == "$ProgressPreference='SilentlyContinue'\r\ntry {\r\n  $r = Invoke-WebRequest -UseBasicParsing -Method Head -MaximumRedirection 10 -Headers @{ 'User-Agent'='deepseek-harness-desktop (wq3333/deepseek-harness-desktop)' } '"@ + url + "'\r\n  $r.Headers['Content-Length']\r\n} catch {}"@,
        download_text(url, dest, log) == "$ProgressPreference='SilentlyContinue'\r\ntry {\r\n  Invoke-WebRequest -UseBasicParsing -Headers @{ 'User-Agent'='deepseek-harness-desktop (wq3333/deepseek-harness-desktop)' } -OutFile '"@ + dest + "' '"@ + url + "'\r\n  exit 0\r\n} catch {\r\n  $_.Exception.Message | Out-File -FilePath '"@ + log + "' -Encoding utf8\r\n  exit 1\r\n}"@,
        add_path_script(dir)
            == "$p = [Environment]::GetEnvironmentVariable('Path','User')\r\nif ($p -split ';' -contains '"@
            + dir
            + "') { exit 0 }\r\n[Environment]::SetEnvironmentVariable('Path', ($p + ';' + '"@ + dir
            + "'), 'User')"@,
{
}

/// The helper waits for the executable to be gone, copies the new file over the old one,
/// starts the old path and removes the new file; a copy that fails is noted in the log.
pub proof fn law_swap_of_executables(
    exe: Seq<char>,
    new: Seq<char>,
    old: Seq<char>,
    log: Seq<char>,
)
    ensures
        swap_text(exe, new, old, log)
            == "@echo off\r\nsetlocal\r\n:wait\r\ntasklist /FI \"IMAGENAME eq "@ + exe
            + "\" 2>nul | find /I \""@ + exe
            + "\" >nul\r\nif not errorlevel 1 (timeout /t 1 /nobreak >nul & goto wait)\r\ncopy /y \""@
            + new + "\" \""@ + old
            + "\" >nul\r\nif errorlevel 1 (echo update-copy-failed > \""@ + log
            + "\" & exit /b 1)\r\nstart \"\" \""@ + old + "\"\r\ndel /q \""@ + new
            + "\" >nul 2>nul\r\nexit /b 0"@,
{
}

// ---- addresses and directories ----

/// The server of a port is found under that port, and so is its log.
pub proof fn law_server_of_a_port(port: u16)
    ensures
        url_of(port) == "http://127.0.0.1:"@ + decimal(port as nat),
        log_name(port) == "dsh-server-"@ + decimal(port as nat) + ".log"@,
{
}

/// The directory that the environment names is the user's one; the working directory stands
/// in for it.
pub proof fn law_directory_of_the_user(dir: Seq<char>)
    ensures
        local_data(Some(dir)) == dir,
        local_data(None) == "."@,
{
}

// ---- the search path ----

/// A further entry is added without the white space around it, unless nothing is left of it
/// or it is there already.
pub proof fn law_one_more_entry(list: Seq<Seq<char>>, more: Seq<Seq<char>>, x: Seq<char>)
    ensures
        extended(list, Seq::empty()) == list,
        ({
            let before = extended(list, more);
            extended(list, more.push(x)) == if trim(x).len() == 0 || has(before, trim(x)) {
                before
            } else {
                before.push(trim(x))
            }
        }),
{
    assert(more.push(x).drop_last() =~= more);
    assert(more.push(x).last() == x);
}

/// The entries of a search path stand between semicolons; those of new processes come before
/// those of this one.
pub proof fn law_entries_of_a_path(registry: Seq<char>, current: Seq<char>)
    ensures
        entries(registry) == pieces(registry, Cut::At(';')),
        merged_entries(registry, None) == extended(Seq::empty(), entries(registry)),
        merged_entries(registry, Some(current)) == extended(
            extended(Seq::empty(), entries(registry)),
            entries(current),
        ),
{
}

// ---- states ----

/// A change to the checklist sets the message, and the phase and the progress where it says
/// so; else they stay.
pub proof fn law_what_a_change_changes(
    state: SetupView,
    phase: Seq<char>,
    message: Seq<char>,
    progress: Option<Progress>,
)
    ensures
        amended(state, AmendmentView { phase: None, message, progress: None }) == (SetupView {
            phase: state.phase,
            message,
            progress: state.progress,
            items: state.items,
        }),
        amended(
            state,
            AmendmentView { phase: Some(phase), message, progress: Some(progress) },
        ) == (SetupView { phase, message, progress, items: state.items }),
        amended(state, AmendmentView { phase: Some(phase), message, progress: None }) == (
        SetupView { phase, message, progress: state.progress, items: state.items }),
        amended(state, AmendmentView { phase: None, message, progress: Some(progress) }) == (
        SetupView { phase: state.phase, message, progress, items: state.items }),
{
}

/// A new status of a row leaves the phase, the message and the progress alone; a failure
/// makes an error of them that says why.
pub proof fn law_what_a_row_leaves_alone(
    state: SetupView,
    key: Seq<char>,
    status: Seq<char>,
    title: Seq<char>,
    detail: Seq<char>,
)
    ensures
        with_item(state, key, status, detail).phase == state.phase,
        with_item(state, key, status, detail).message == state.message,
        with_item(state, key, status, detail).progress == state.progress,
        failed_setup(state, key, title, detail).phase == "error"@,
        failed_setup(state, key, title, detail).message == title + ":"@ + detail,
        failed_setup(state, key, title, detail).progress is None,
        failed_setup(state, key, title, detail).items == with_item(
            state,
            key,
            "failed"@,
            detail,
        ).items,
{
}

/// The states of an update hold what they are made of, and nothing else.
pub proof fn law_states_of_an_update(
    phase: Seq<char>,
    message: Seq<char>,
    latest: Seq<char>,
    progress: Progress,
    title: Seq<char>,
    error: Seq<char>,
)
    ensures
        EffectView::PublishUpdate(plain_update(phase, message)) == on_show(
            phase,
            message,
            None,
            None,
            None,
        ),
        EffectView::PublishUpdate(version_update(phase, message, latest)) == on_show(
            phase,
            message,
            None,
            None,
            Some(latest),
        ),
        EffectView::PublishUpdate(measured_update(phase, message, progress)) == on_show(
            phase,
            message,
            Some(progress),
            None,
            None,
        ),
        EffectView::PublishUpdate(failed_update(title, error)) == on_show(
            "error"@,
            title + ":"@ + error,
            None,
            Some(error),
            None,
        ),
{
}

/// An update or a check is under way in five phases, and in no other.
pub proof fn law_phases_under_way(phase: Seq<char>)
    ensures
        active_phase(phase) <==> seq![
            "checking"@,
            "downloading"@,
            "installing"@,
            "restarting"@,
            "finalizing"@,
        ].contains(phase),
{
    let all = seq![
        "checking"@,
        "downloading"@,
        "installing"@,
        "restarting"@,
        "finalizing"@,
    ];
    assert(all[0] == "checking"@ && all[1] == "downloading"@ && all[2] == "installing"@);
    assert(all[3] == "restarting"@ && all[4] == "finalizing"@);
}

/// What the user is shown and told of an update of dsh that was asked for.
pub proof fn law_end_of_an_update_of_dsh(note: Seq<char>)
    ensures
        dsh_outcome(Ok(note)) == seq![
            on_show("done"@, note, None, None, None),
            EffectView::Toast(note),
        ],
        dsh_outcome(Err(note)) == seq![
            on_show("error"@, "dsh 更新失败"@ + ":"@ + note, None, Some(note), None),
            EffectView::Toast("dsh 更新失败:"@ + note),
        ],
{
}

// ---- releases ----

/// The answer to the question for the newest release, member by member.
pub proof fn law_told_release(m: ReleaseReplyView, tag: Seq<char>, asset: Seq<char>, text: Seq<char>)
    ensures
        m.ok == ScalarView::Bool(true) ==> {
            &&& told_release(m) matches Ok(r)
            &&& m.tag == ScalarView::Text(tag) ==> r.tag_name == tag
            &&& !(m.tag is Text) ==> r.tag_name.len() == 0
            &&& m.asset == ScalarView::Text(asset) ==> r.asset_url == asset
            &&& !(m.asset is Text) ==> r.asset_url.len() == 0
            &&& m.body == ScalarView::Text(text) ==> r.body == Some(text)
            &&& !(m.body is Text) ==> r.body is None
        },
        m.ok != ScalarView::Bool(true) && m.code == ScalarView::Int(404) ==> told_release(m) == Err::<
            ReleaseView,
            ReleaseErrorView,
        >(ReleaseErrorView::NoRelease),
        m.ok != ScalarView::Bool(true) && m.code != ScalarView::Int(404) ==> {
            &&& told_release(m) matches Err(ReleaseErrorView::Failed(why))
            &&& m.message == ScalarView::Text(text) ==> why == "获取 GitHub 版本信息失败:"@ + text
            &&& !(m.message is Text) ==> why == "获取 GitHub 版本信息失败:"@ + "未知错误"@
        },
{
}

/// A lookup that failed, or gave no JSON, is a failure with the reason. What gave JSON is
/// told by its members.
pub proof fn law_fetched_release(out: Seq<char>)
    ensures
        fetched(Err(out)) == Err::<ReleaseView, ReleaseErrorView>(ReleaseErrorView::Failed(out)),
        json_member(trim(out), "ok"@) matches Err(e) ==> fetched(Ok(out)) == Err::<
            ReleaseView,
            ReleaseErrorView,
        >(ReleaseErrorView::Failed("解析更新信息失败:"@ + e)),
        json_member(trim(out), "ok"@) is Ok ==> {
            let m = |key: Seq<char>|
                match json_member(trim(out), key) {
                    Ok(s) => s,
                    Err(_) => ScalarView::Other,
                };
            fetched(Ok(out)) == told_release(
                ReleaseReplyView {
                    ok: m("ok"@),
                    tag: m("tag"@),
                    body: m("body"@),
                    asset: m("asset"@),
                    code: m("code"@),
                    message: m("message"@),
                },
            )
        },
{
}

/// Texts of well-formed versions are compared by the versions: one is newer where it comes
/// later in the order, and another where it is not the same; and dsh is due where it is
/// missing or older.
pub proof fn law_versions_decide(v: VersionView, w: VersionView, s: Seq<char>)
    requires
        valid_version(v),
        valid_version(w),
    ensures
        newer(version_text(v), version_text(w)) <==> version_order(v, w) == Precedence::Newer,
        differs(version_text(v), version_text(w)) <==> v != w,
        dsh_outdated(None, version_text(v)),
        dsh_outdated(Some(version_text(w)), version_text(v)) <==> version_order(v, w)
            == Precedence::Newer,
        read_version(s) is None ==> {
            &&& !newer(s, version_text(w))
            &&& !newer(version_text(w), s)
            &&& !differs(s, version_text(w))
            &&& !differs(version_text(w), s)
            &&& !dsh_outdated(None, s)
            &&& !dsh_outdated(Some(version_text(w)), s)
            &&& dsh_outdated(Some(s), version_text(v))
        },
{
    law_version_is_read_back(v);
    law_version_is_read_back(w);
}

/// The text of a version: the three numbers with dots between them, then the pre-release
/// part behind a hyphen and the build metadata behind a plus sign, where there are any.
pub proof fn law_text_of_a_version(v: VersionView)
    ensures
        ({
            let numbers = decimal(v.major as nat) + seq!['.'] + decimal(v.minor as nat) + seq!['.']
                + decimal(v.patch as nat);
            let none = Seq::<char>::empty();
            &&& v.pre == none && v.build == none ==> version_text(v) == numbers
            &&& v.pre.len() > 0 && v.build == none ==> version_text(v) == numbers + (seq!['-']
                + v.pre)
            &&& v.pre == none && v.build.len() > 0 ==> version_text(v) == numbers + (seq!['+']
                + v.build)
            &&& v.pre.len() > 0 && v.build.len() > 0 ==> version_text(v) == numbers + (seq!['-']
                + v.pre) + (seq!['+'] + v.build)
        }),
{
    let numbers = decimal(v.major as nat) + seq!['.'] + decimal(v.minor as nat) + seq!['.']
        + decimal(v.patch as nat);
    assert(numbers + Seq::<char>::empty() =~= numbers);
    assert(numbers + (seq!['-'] + v.pre) + Seq::<char>::empty() =~= numbers + (seq!['-'] + v.pre));
}

/// The bare form of a version has no white space around it and no v in front.
pub proof fn law_bare_form(s: Seq<char>)
    ensures
        plain_version(s) == strip_start(trim(s), 'v'),
        read_version(s) == version_of(plain_version(s)),
{
}

/// A check tells the version that runs and the one that is released, that there is an update
/// exactly where the two are different versions, and the notes and the address of the
/// release. Why a check failed is told as it is.
pub proof fn law_finding_of_a_check(current: Seq<char>, r: ReleaseView, e: Seq<char>)
    ensures
        finding(current, Ok(r)) matches Ok(i) && {
            &&& i.current == current
            &&& i.latest == plain_version(r.tag_name)
            &&& i.update_available == differs(i.latest, current)
            &&& i.asset_url == r.asset_url
            &&& r.body is Some ==> i.release_notes == r.body->0
            &&& r.body is None ==> i.release_notes.len() == 0
        },
        finding(current, Err(ReleaseErrorView::Failed(e))) == Err::<UpdateInfoView, Seq<char>>(e),
        release_note(ReleaseErrorView::Failed(e)) == e,
        release_note(ReleaseErrorView::NoRelease) == "暂无已发布版本"@,
{
}

/// What is shown of a check is what it has found.
pub proof fn law_shown_finding(i: UpdateInfoView, e: Seq<char>)
    ensures
        finding_shown(Ok(i)) == (UpdateView {
            phase: "idle"@,
            progress: None,
            message: if i.update_available {
                "发现新版本 v"@ + i.latest
            } else {
                "已是最新版本(v"@ + i.current + ")"@
            },
            error: None,
            latest: Some(i.latest),
            update_available: i.update_available,
            release_notes: i.release_notes,
        }),
        EffectView::PublishUpdate(finding_shown(Err(e))) == on_show(
            "error"@,
            "检查更新失败"@ + ":"@ + e,
            None,
            Some(e),
            None,
        ),
{
}

// ---- the window ----

/// There are two pages, each with its name and its view, and the one that is not on show is
/// the other one.
pub proof fn law_pages(name: Seq<char>, page: Page)
    ensures
        name == "harness"@ ==> page_named(name) == Some(Page::Harness),
        name == "chat"@ ==> page_named(name) == Some(Page::Chat),
        name != "harness"@ && name != "chat"@ ==> page_named(name) is None,
        page_label(Page::Harness) == "harness-content"@,
        page_label(Page::Chat) == "chat-content"@,
        other_page(page) != page,
        other_page(other_page(page)) == page,
        page_label(page) != page_label(other_page(page)),
{
    reveal_strlit("harness");
    reveal_strlit("chat");
    reveal_strlit("harness-content");
    reveal_strlit("chat-content");
    assert("harness"@.len() == 7 && "chat"@.len() == 4);
    assert("harness-content"@.len() == 15 && "chat-content"@.len() == 12);
}

/// The title bar is called with one text.
pub proof fn law_call_of_the_title_bar(function: Seq<char>, quoted: Seq<char>)
    ensures
        bar_call(function, quoted) == function + "("@ + quoted + ")"@,
{
}

} // verus!
