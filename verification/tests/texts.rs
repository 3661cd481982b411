use deepseek_harness::command::{
    kill_tree_command, netstat_command, node_version_command, npm_install_prefix_command,
    npm_list_prefix_command, open_url, powershell_file_command, run_capture, run_capture_bytes,
    spawn_server, where_command, Platform,
};
use deepseek_harness::environment::{portable_node_dir, refresh_process_path, user_npm_prefix};
use deepseek_harness::npm::{
    dsh_version, latest_node_version, node_available, node_version, npm_latest_dsh, parse_listing,
    parse_npm_version,
};
use deepseek_harness::protocol::Command;
use deepseek_harness::scripts::{
    add_user_path, content_length_script, download_log_name, download_script, download_script_name,
    head_content_length, script_name, swap_script, NODE_QUERY, PATH_QUERY, RELEASE_QUERY,
};
use deepseek_harness::server::{
    active_port, kill_port_owners, kill_port_owners_bytes, log_tail, server_log_name, server_start,
    server_url, DEFAULT_PORT,
};
use deepseek_harness::state::{
    default_setup_items, default_setup_state, load_settings, save_settings, set_setup_item,
    setup_error, update_active, update_error, update_in, SaveStep, Settings, UpdateState,
};
use deepseek_harness::text::{
    cut_text, decimal_of, has_text, is_blank, is_white, join_from, lines_of, parse_unsigned,
    signed_decimal_of, stripped_start, text_after_last, text_ends_with, trimmed, wide, words_of, Cut,
};
use deepseek_harness::window::native_msg;

fn line(c: &Command) -> String {
    format!("{} {}", c.program, c.args.join(" "))
}

#[test]
fn trimming() {
    assert_eq!(trimmed(" \t a b \u{3000}\r\n"), "a b");
    assert_eq!(trimmed(""), "");
    assert_eq!(trimmed(" \n "), "");
    let once = trimmed("\u{a0} x y ");
    assert_eq!(trimmed(&once), once);
    assert!(is_blank(" \t\n"));
    assert!(!is_blank(" x "));
    assert_eq!(stripped_start("vv1.2v", 'v'), "1.2v");
}

#[test]
fn white_space_is_that_of_the_standard_library() {
    for n in 0..0x11_0000u32 {
        if let Some(c) = char::from_u32(n) {
            assert_eq!(is_white(c), c.is_whitespace(), "{n:x}");
        }
    }
}

#[test]
fn lines_and_words_are_those_of_the_standard_library() {
    for s in ["", "\n", "a", "a\n", "a\r\n", "a\r", "\r\n\r", "a\n\nb\r\nc\r", "x y\n z ", "\n\n"] {
        let l: Vec<String> = s.lines().map(|l| l.to_string()).collect();
        assert_eq!(lines_of(s), l, "{s:?}");
        let w: Vec<String> = s.split_whitespace().map(|l| l.to_string()).collect();
        assert_eq!(words_of(s), w, "{s:?}");
        let p: Vec<String> = s.split('\n').map(|l| l.to_string()).collect();
        assert_eq!(cut_text(s, Cut::At('\n')), p, "{s:?}");
    }
}

#[test]
fn searching() {
    assert_eq!(text_after_last("a@b@c", "@").as_deref(), Some("c"));
    assert_eq!(text_after_last("abc", "@"), None);
    assert_eq!(text_after_last("a", "abc"), None);
    assert_eq!(text_after_last("aaa", "aa").as_deref(), Some(""));
    assert!(has_text("xLISTENINGy", "LISTENING"));
    assert!(has_text("x", ""));
    assert!(!has_text("LISTENIN", "LISTENING"));
    assert!(text_ends_with("0.0.0.0:3080", ":3080"));
    assert!(!text_ends_with(":30801", ":3080"));
    let list = vec!["a".to_string(), "b".to_string(), "c".to_string()];
    assert_eq!(join_from(&list, 1, "--"), "b--c");
    assert_eq!(join_from(&list, 3, "--"), "");
}

#[test]
fn numbers() {
    assert_eq!(decimal_of(0), "0");
    assert_eq!(decimal_of(u64::MAX), "18446744073709551615");
    assert_eq!(signed_decimal_of(-1), "-1");
    assert_eq!(signed_decimal_of(i32::MIN), "-2147483648");
    assert_eq!(signed_decimal_of(3010), "3010");
    assert_eq!(parse_unsigned("18446744073709551615", u64::MAX), Some(u64::MAX));
    assert_eq!(parse_unsigned("18446744073709551616", u64::MAX), None);
    assert_eq!(parse_unsigned("+7", 9), Some(7));
    assert_eq!(parse_unsigned("+", 9), None);
    assert_eq!(parse_unsigned("-0", 9), None);
    assert_eq!(parse_unsigned("", 9), None);
    assert_eq!(parse_unsigned("10", 9), None);
    assert_eq!(parse_unsigned("007", 9), Some(7));
    assert_eq!(parse_unsigned("1x", 99), None);
}

#[test]
fn wide_text_is_utf16() {
    for s in ["", "abc", "需要 WebView2", "a\u{1f600}b\u{10ffff}"] {
        let w: Vec<u16> = s.encode_utf16().chain(std::iter::once(0)).collect();
        assert_eq!(wide(s), w);
        let m = native_msg(s, "x", true);
        assert_eq!(m.title, w);
        assert_eq!(m.text, vec![120, 0]);
        assert!(m.is_error);
    }
}

#[test]
fn port_of_the_server() {
    assert_eq!(active_port(None), DEFAULT_PORT);
    assert_eq!(active_port(Some("")), 3080);
    assert_eq!(active_port(Some(" 8080\n")), 8080);
    assert_eq!(active_port(Some("65535")), 65535);
    assert_eq!(active_port(Some("65536")), 3080);
    assert_eq!(active_port(Some("port")), 3080);
    for p in [0u16, 1, 80, 3080, 65535] {
        assert_eq!(active_port(Some(&p.to_string())), p);
    }
    assert_eq!(server_url(3080), "http://127.0.0.1:3080");
    assert_eq!(server_log_name(3080), "dsh-server-3080.log");
    let (server, log) = server_start(3080);
    assert_eq!(line(&server), line(&spawn_server(3080)));
    assert_eq!(log, "dsh-server-3080.log");
}

#[test]
fn end_of_the_log() {
    let log = "one\n\n  \ntwo\r\nthree\n\n";
    assert_eq!(log_tail(log, 2), "two\nthree");
    assert_eq!(log_tail(log, 10), "one\ntwo\nthree");
    assert_eq!(log_tail(log, 0), "");
    assert_eq!(log_tail("", 3), "");
}

#[test]
fn listening_processes() {
    let out = "\r\nActive Connections\r\n\r\n\
  Proto  Local Address          Foreign Address        State           PID\r\n\
  TCP    0.0.0.0:3080           0.0.0.0:0              LISTENING       4711\r\n\
  TCP    [::]:3080              [::]:0                 LISTENING       4711\r\n\
  TCP    127.0.0.1:3080         127.0.0.1:50000        ESTABLISHED     12\r\n\
  TCP    127.0.0.1:50000        127.0.0.1:3080         ESTABLISHED     13\r\n\
  TCP    0.0.0.0:30801          0.0.0.0:0              LISTENING       14\r\n\
  TCP    127.0.0.1:3080         0.0.0.0:0              LISTENING       0\r\n\
  TCP    127.0.0.1:3080         0.0.0.0:0              LISTENING       99\r\n";
    assert_eq!(kill_port_owners(out, 3080), vec![4711, 99]);
    assert_eq!(kill_port_owners(out, 80), Vec::<u32>::new());
    assert_eq!(kill_port_owners("", 3080), Vec::<u32>::new());
    assert_eq!(kill_port_owners_bytes(&out.as_bytes().to_vec(), 3080), vec![4711, 99]);
    let mut odd = vec![0xff, b'\n'];
    odd.extend_from_slice(out.as_bytes());
    assert_eq!(kill_port_owners_bytes(&odd, 3080), vec![4711, 99]);
}

#[test]
fn versions_of_npm_and_node() {
    let ok = |s: &str| -> Result<String, String> { Ok(s.to_string()) };
    let err = || -> Result<String, String> { Err("failed".to_string()) };
    assert_eq!(parse_listing(&ok("`-- @deepseek-ai/dsh@1.0.0\n")).as_deref(), Some("1.0.0"));
    assert_eq!(parse_listing(&err()), None);
    assert_eq!(
        parse_npm_version("C:\\npm\r\n`-- @deepseek-ai/dsh@\r\n`-- @deepseek-ai/dsh@2.0.0\r\n").as_deref(),
        Some("2.0.0")
    );
    assert_eq!(
        parse_npm_version("a@deepseek-ai/dsh@1 -> @deepseek-ai/dsh@3.1.4 extra").as_deref(),
        Some("3.1.4")
    );
    let none = ok("(empty)\n");
    let user = ok("`-- @deepseek-ai/dsh@0.9.0\n");
    let global = ok("`-- @deepseek-ai/dsh@1.0.0\n");
    assert_eq!(dsh_version(&global, &user).as_deref(), Some("1.0.0"));
    assert_eq!(dsh_version(&none, &user).as_deref(), Some("0.9.0"));
    assert_eq!(dsh_version(&err(), &user).as_deref(), Some("0.9.0"));
    assert_eq!(dsh_version(&none, &err()), None);
    assert_eq!(npm_latest_dsh(&ok(" 1.2.3\n")), "1.2.3");
    assert_eq!(npm_latest_dsh(&err()), "");
    assert!(node_available(true, true));
    assert!(!node_available(true, false));
    assert!(!node_available(false, true));
    assert_eq!(node_version(&ok("v22.14.0\r\n")), "v22.14.0");
    assert_eq!(node_version(&err()), "");
    assert_eq!(latest_node_version(ok("v22.14.0\r\n")), Ok("v22.14.0".to_string()));
    assert_eq!(
        latest_node_version(ok(" \r\n")),
        Err("无法获取 Node.js 最新版本(请检查网络)".to_string())
    );
    assert_eq!(latest_node_version(err()), Err("failed".to_string()));
}

#[test]
fn outcome_of_a_program() {
    assert_eq!(run_capture(true, " out \n".to_string(), "warning"), Ok(" out \n".to_string()));
    assert_eq!(run_capture(false, "out".to_string(), " err \n"), Err("err".to_string()));
    assert_eq!(run_capture(false, " out ".to_string(), " \n"), Err("out".to_string()));
    assert_eq!(run_capture(false, String::new(), ""), Err(String::new()));
    let bytes = "版本 1".as_bytes().to_vec();
    assert_eq!(run_capture_bytes(true, &bytes, &vec![]), Ok("版本 1".to_string()));
    assert_eq!(run_capture_bytes(true, &vec![65, 255, 66], &vec![]), Ok("A\u{fffd}B".to_string()));
    assert_eq!(run_capture_bytes(false, &vec![65], &vec![32, 69]), Err("E".to_string()));
}

#[test]
fn command_lines() {
    assert_eq!(line(&where_command("node")), "cmd /c where node");
    assert_eq!(line(&node_version_command()), "cmd /c node --version");
    assert_eq!(
        line(&npm_list_prefix_command("P")),
        "cmd /c npm ls -g --prefix P @deepseek-ai/dsh --depth=0"
    );
    assert_eq!(
        npm_install_prefix_command("C:\\a b").args,
        vec!["/c", "npm install -g --prefix \"C:\\a b\" @deepseek-ai/dsh@latest"]
    );
    assert_eq!(
        line(&spawn_server(3080)),
        "cmd.exe /c npx @deepseek-ai/dsh web --no-open --port 3080"
    );
    assert_eq!(line(&netstat_command()), "netstat -ano -p tcp");
    assert_eq!(line(&kill_tree_command(42)), "taskkill /PID 42 /T /F");
    assert_eq!(
        line(&powershell_file_command("x.ps1")),
        "powershell -NoProfile -NonInteractive -ExecutionPolicy Bypass -File x.ps1"
    );
    assert_eq!(open_url(Platform::Windows, "u").args, vec!["/c", "start", "", "u"]);
    assert_eq!(line(&open_url(Platform::MacOs, "u")), "open u");
    assert_eq!(line(&open_url(Platform::Linux, "u")), "xdg-open u");
}

#[test]
fn script_texts() {
    assert_eq!(
        add_user_path("D"),
        "$p = [Environment]::GetEnvironmentVariable('Path','User')\r\n\
         if ($p -split ';' -contains 'D') { exit 0 }\r\n\
         [Environment]::SetEnvironmentVariable('Path', ($p + ';' + 'D'), 'User')"
    );
    assert_eq!(
        content_length_script("U"),
        "$ProgressPreference='SilentlyContinue'\r\n\
         try {\r\n\
         \x20 $r = Invoke-WebRequest -UseBasicParsing -Method Head -MaximumRedirection 10 -Headers @{ 'User-Agent'='deepseek-harness-desktop (wq3333/deepseek-harness-desktop)' } 'U'\r\n\
         \x20 $r.Headers['Content-Length']\r\n\
         } catch {}"
    );
    assert_eq!(
        download_script("U", "D", "L"),
        "$ProgressPreference='SilentlyContinue'\r\n\
         try {\r\n\
         \x20 Invoke-WebRequest -UseBasicParsing -Headers @{ 'User-Agent'='deepseek-harness-desktop (wq3333/deepseek-harness-desktop)' } -OutFile 'D' 'U'\r\n\
         \x20 exit 0\r\n\
         } catch {\r\n\
         \x20 $_.Exception.Message | Out-File -FilePath 'L' -Encoding utf8\r\n\
         \x20 exit 1\r\n\
         }"
    );
    assert_eq!(
        swap_script("E", "T", "G", "L"),
        "@echo off\r\n\
         setlocal\r\n\
         :wait\r\n\
         tasklist /FI \"IMAGENAME eq E\" 2>nul | find /I \"E\" >nul\r\n\
         if not errorlevel 1 (timeout /t 1 /nobreak >nul & goto wait)\r\n\
         copy /y \"T\" \"G\" >nul\r\n\
         if errorlevel 1 (echo update-copy-failed > \"L\" & exit /b 1)\r\n\
         start \"\" \"G\"\r\n\
         del /q \"T\" >nul 2>nul\r\n\
         exit /b 0"
    );
    assert!(PATH_QUERY.contains("'Machine') + ';' + "));
    assert!(NODE_QUERY.contains("https://nodejs.org/dist/index.json"));
    assert!(RELEASE_QUERY.contains("-replace '\\r?\\n',' '"));
    assert_eq!(script_name(7), "dsh-update-7.ps1");
    assert_eq!(download_script_name(7), "dsh-download-7.ps1");
    assert_eq!(download_log_name(7), "dsh-download-7.error.log");
    assert_eq!(head_content_length(&Ok(" 123\r\n".to_string())), Some(123));
    assert_eq!(head_content_length(&Ok("".to_string())), None);
    assert_eq!(head_content_length(&Err("x".to_string())), None);
}

#[test]
fn search_path() {
    let reg = |s: &str| -> Result<String, String> { Ok(s.to_string()) };
    assert_eq!(
        refresh_process_path(&reg(" C:\\a ;;C:\\b;C:\\a\r\n"), Some("C:\\c;C:\\b; ;C:\\d")).as_deref(),
        Some("C:\\a;C:\\b;C:\\c;C:\\d")
    );
    assert_eq!(refresh_process_path(&reg("x;x"), None).as_deref(), Some("x"));
    assert_eq!(refresh_process_path(&reg(" \r\n"), Some("x")), None);
    assert_eq!(refresh_process_path(&Err("x".to_string()), Some("x")), None);
    assert_eq!(user_npm_prefix(Some("L")), vec!["L", "deepseek-harness", "npm"]);
    assert_eq!(user_npm_prefix(None), vec![".", "deepseek-harness", "npm"]);
    assert_eq!(portable_node_dir(Some("L")), vec!["L", "Programs", "nodejs"]);
}

#[test]
fn checklist() {
    let keys = |s: &deepseek_harness::state::SetupState| -> Vec<String> {
        s.items.iter().map(|i| i.key.clone()).collect()
    };
    let mut s = default_setup_state();
    assert_eq!(s.phase, "detecting");
    assert_eq!(s.message, "正在检测运行环境…");
    assert_eq!(s.progress, None);
    assert_eq!(keys(&s), vec!["webview2", "node", "dsh", "service"]);
    assert_eq!(default_setup_items()[3].label, "dsh 服务");
    set_setup_item(&mut s, "dsh", "ok", "v1");
    set_setup_item(&mut s, "node", "ok", "v2");
    set_setup_item(&mut s, "dsh", "installed", "v3");
    assert_eq!(s.items[2].status, "installed");
    assert_eq!(s.items[2].detail, "v3");
    assert_eq!(s.items[1].detail, "v2");
    assert_eq!(s.items[0].status, "pending");
    setup_error(&mut s, "dsh", "T", "why");
    assert_eq!(s.phase, "error");
    assert_eq!(s.message, "T:why");
    assert_eq!(s.items[2].status, "failed");
    assert_eq!(s.items[2].detail, "why");
    assert_eq!(keys(&s), vec!["webview2", "node", "dsh", "service"]);
    let c = s.clone();
    assert_eq!(format!("{c:?}"), format!("{s:?}"));
}

#[test]
fn update_states() {
    for p in ["checking", "downloading", "installing", "restarting", "finalizing"] {
        assert!(update_active(&update_in(p, String::new())));
    }
    for p in ["", "idle", "done", "error", "check"] {
        assert!(!update_active(&update_in(p, String::new())));
    }
    assert!(!update_active(&UpdateState::default()));
    let e = update_error("失败", "why");
    assert_eq!(e.phase, "error");
    assert_eq!(e.message, "失败:why");
    assert_eq!(e.error.as_deref(), Some("why"));
    assert_eq!(format!("{:?}", e.clone()), format!("{e:?}"));
}

#[test]
fn settings() {
    let d = Settings::default();
    assert!(!d.close_stops_dsh && d.auto_update);
    assert!(load_settings(None) == d);
    let s = Settings { close_stops_dsh: true, auto_update: false };
    assert!(load_settings(Some(s)) == s);
    assert_eq!(save_settings(None), Ok(()));
    assert_eq!(
        save_settings(Some((SaveStep::Directory, "e".to_string()))),
        Err("创建设置目录失败:e".to_string())
    );
    assert_eq!(save_settings(Some((SaveStep::Encode, "e".to_string()))), Err("e".to_string()));
    assert_eq!(
        save_settings(Some((SaveStep::Write, "e".to_string()))),
        Err("写入设置失败:e".to_string())
    );
}
