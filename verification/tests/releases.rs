use deepseek_harness::dsh::navigate_to;
use deepseek_harness::outside::JsonScalar;
use deepseek_harness::protocol::{LatestRelease, ReleaseError};
use deepseek_harness::release::{
    bare_version, check_started, check_update, fetch_latest_release, get_app_info, newer_version,
    other_version, parse_semver, release_error, release_of, should_update_dsh, ReleaseReply,
};
use deepseek_harness::window::{devtools_wanted, show_toast, switch_to, toggle_devtools, Page};

fn release(tag: &str, body: Option<&str>, asset: &str) -> LatestRelease {
    LatestRelease {
        tag_name: tag.to_string(),
        body: body.map(|b| b.to_string()),
        asset_url: asset.to_string(),
    }
}

fn text(s: &str) -> JsonScalar {
    JsonScalar::Text(s.to_string())
}

#[test]
fn versions_are_read() {
    let v = parse_semver(" v1.2.3-rc.7+build.5\n").unwrap();
    assert_eq!((v.major, v.minor, v.patch), (1, 2, 3));
    assert_eq!(v.pre, "rc.7");
    assert_eq!(v.build, "build.5");
    let w = parse_semver("1.2.3").unwrap();
    assert_eq!((w.major, w.minor, w.patch), (1, 2, 3));
    assert_eq!(w.pre, "");
    assert_eq!(w.build, "");
    for bad in ["", "1.2", "1.02.3", "1.2.3-", "1.2.3+", "1.2.x", "1.2.3-01", "1.2.3-a..b", "x", "1.2.3 4"] {
        assert!(parse_semver(bad).is_none(), "{bad}");
    }
    assert!(parse_semver("1.2.3+01").is_some());
    assert!(parse_semver("18446744073709551615.0.0").is_some());
    assert!(parse_semver("18446744073709551616.0.0").is_none());
    assert_eq!(bare_version(" vv0.3.0 "), "0.3.0");
}

#[test]
fn versions_are_compared() {
    assert!(newer_version("1.10.0", "1.9.9"));
    assert!(!newer_version("1.9.9", "1.10.0"));
    assert!(!newer_version("v1.0.0", "1.0.0"));
    assert!(newer_version("1.0.0", "1.0.0-rc.7"));
    assert!(newer_version("1.0.0-rc.12", "1.0.0-rc.8"));
    assert!(newer_version("1.0.0+b", "1.0.0"));
    let ascending = [
        "1.0.0-1", "1.0.0-7", "1.0.0-10", "1.0.0--", "1.0.0-7a", "1.0.0-B", "1.0.0-a", "1.0.0-a.1",
        "1.0.0-a.b", "1.0.0-aa", "1.0.0-rc.7", "1.0.0-rc.7.0", "1.0.0-rc.10", "1.0.0", "1.0.0+0",
        "1.0.0+00", "1.0.0+1", "1.0.0+01", "1.0.0+01.a", "1.0.0+001", "1.0.0+2", "1.0.0+10", "1.0.0+-",
        "1.0.0+B", "1.0.0+a", "1.0.0+a.0", "1.0.0+aa", "1.0.1-a",
    ];
    for (i, old) in ascending.iter().enumerate() {
        for (k, new) in ascending.iter().enumerate() {
            assert_eq!(newer_version(new, old), k > i, "{new} {old}");
        }
    }
    assert!(!newer_version("next", "1.0.0"));
    assert!(!newer_version("1.0.0", "next"));
    assert!(other_version("1.0.0", "1.0.1"));
    assert!(other_version("1.0.1", "v1.0.0"));
    assert!(!other_version("1.0.1", "v1.0.1"));
    assert!(!other_version("1.0", "1.0.1"));
}

#[test]
fn dsh_is_updated_when_missing_or_older() {
    let cur = |s: &str| Some(s.to_string());
    assert!(should_update_dsh(&None, "1.0.0"));
    assert!(!should_update_dsh(&None, ""));
    assert!(should_update_dsh(&cur("0.1.0-rc.7"), "0.1.0"));
    assert!(should_update_dsh(&cur("0.1.0-rc.7"), "0.1.0-rc.10"));
    assert!(!should_update_dsh(&cur("0.1.0-rc.10"), "0.1.0-rc.7"));
    assert!(!should_update_dsh(&cur("0.1.0"), "0.1.0"));
    assert!(!should_update_dsh(&cur("0.2.0"), "0.1.0"));
    assert!(should_update_dsh(&cur("unknown"), "0.1.0"));
    assert!(!should_update_dsh(&cur("0.2.0"), "unknown"));
}

#[test]
fn release_is_read_from_the_answer() {
    let ok = fetch_latest_release(Ok(
        " {\"ok\":true,\"tag\":\"v1.2.0\",\"body\":\"notes\",\"asset\":\"https://x/y.exe\"}\r\n".to_string(),
    ))
    .unwrap();
    assert_eq!(ok.tag_name, "v1.2.0");
    assert_eq!(ok.body.as_deref(), Some("notes"));
    assert_eq!(ok.asset_url, "https://x/y.exe");
    let bare = fetch_latest_release(Ok("{\"ok\":true,\"tag\":null,\"body\":null}".to_string())).unwrap();
    assert_eq!(bare.tag_name, "");
    assert_eq!(bare.body, None);
    assert_eq!(bare.asset_url, "");
    assert!(matches!(
        fetch_latest_release(Ok("{\"ok\":false,\"code\":404}".to_string())),
        Err(ReleaseError::NoRelease)
    ));
    let e = fetch_latest_release(Ok("{\"ok\":false,\"code\":0,\"message\":\"timeout\"}".to_string()));
    assert_eq!(release_error(e.unwrap_err()), "获取 GitHub 版本信息失败:timeout");
    let e = fetch_latest_release(Ok("[1]".to_string()));
    assert_eq!(release_error(e.unwrap_err()), "获取 GitHub 版本信息失败:未知错误");
    let e = fetch_latest_release(Ok("oops".to_string()));
    assert!(release_error(e.unwrap_err()).starts_with("解析更新信息失败:expected value"));
    let e = fetch_latest_release(Err("no network".to_string()));
    assert_eq!(release_error(e.unwrap_err()), "no network");
    assert_eq!(release_error(ReleaseError::NoRelease), "暂无已发布版本");
}

#[test]
fn release_of_members() {
    let members = |ok, code| ReleaseReply {
        ok,
        tag: text("v1"),
        body: JsonScalar::Other,
        asset: JsonScalar::Int(1),
        code,
        message: JsonScalar::Bool(true),
    };
    let r = release_of(members(JsonScalar::Bool(true), JsonScalar::Int(404))).unwrap();
    assert_eq!(r.tag_name, "v1");
    assert_eq!(r.body, None);
    assert_eq!(r.asset_url, "");
    assert!(matches!(
        release_of(members(JsonScalar::Other, JsonScalar::Int(404))),
        Err(ReleaseError::NoRelease)
    ));
    assert!(matches!(
        release_of(members(text("true"), JsonScalar::Other)),
        Err(ReleaseError::Failed(e)) if e == "获取 GitHub 版本信息失败:未知错误"
    ));
}

#[test]
fn check_for_an_update() {
    let (info, state) = check_update("1.0.0".to_string(), Ok(release("v1.1.0", Some("notes"), "u")));
    let info = info.unwrap();
    assert_eq!(info.latest, "1.1.0");
    assert_eq!(info.current, "1.0.0");
    assert!(info.update_available);
    assert_eq!(info.release_notes, "notes");
    assert_eq!(info.asset_url, "u");
    assert_eq!(state.phase, "idle");
    assert_eq!(state.message, "发现新版本 v1.1.0");
    assert_eq!(state.latest.as_deref(), Some("1.1.0"));
    assert!(state.update_available);
    assert_eq!(state.release_notes, "notes");

    let (info, state) = check_update("1.1.0".to_string(), Ok(release("v1.1.0", None, "u")));
    assert!(!info.unwrap().update_available);
    assert_eq!(state.message, "已是最新版本(v1.1.0)");

    let (info, state) = check_update("1.1.0".to_string(), Err(ReleaseError::NoRelease));
    assert!(!info.unwrap().update_available);
    assert_eq!(state.phase, "idle");
    assert_eq!(state.message, "已是最新版本(v1.1.0)");

    let (info, state) = check_update("1.1.0".to_string(), Err(ReleaseError::Failed("e".to_string())));
    assert_eq!(info.unwrap_err(), "e");
    assert_eq!(state.phase, "error");
    assert_eq!(state.error.as_deref(), Some("e"));
    assert_eq!(state.message, "检查更新失败:e");

    assert_eq!(check_started().phase, "checking");
    let about = get_app_info("1.0.0".to_string());
    assert_eq!(about.version, "1.0.0");
    assert_eq!(about.repo, "wq3333/deepseek-harness-desktop");
}

#[test]
fn addresses_are_normalised() {
    assert_eq!(navigate_to("HTTP://127.0.0.1:3080").as_deref(), Some("http://127.0.0.1:3080/"));
    assert_eq!(navigate_to("no address"), None);
}

#[test]
fn pages_and_the_title_bar() {
    let h = switch_to("harness").unwrap();
    assert_eq!(h.page, Page::Harness);
    assert_eq!(h.show, "harness-content");
    assert_eq!(h.hide, "chat-content");
    assert_eq!(h.script, "setActive(\"harness\")");
    let c = switch_to("chat").unwrap();
    assert_eq!(c.page, Page::Chat);
    assert_eq!(c.show, "chat-content");
    assert_eq!(c.hide, "harness-content");
    assert!(switch_to("bar").is_none());
    assert_eq!(toggle_devtools(Page::Chat), "chat-content");
    assert_eq!(toggle_devtools(Page::Harness), "harness-content");
    assert!(devtools_wanted(false));
    assert!(!devtools_wanted(true));
    assert_eq!(show_toast("a \"b\"\n"), "showToast(\"a \\\"b\\\"\\n\")");
}
