use deepseek_harness::npm::parse_npm_version;
use deepseek_harness::state::{default_setup_state, set_setup_item};

#[test]
fn setup_item_status_update() {
    let mut s = default_setup_state();
    set_setup_item(&mut s, "node", "ok", "v22.14.0");
    let node = s.items.iter().find(|i| i.key == "node").unwrap();
    assert_eq!(node.status, "ok");
    assert_eq!(node.detail, "v22.14.0");
    // unknown keys are ignored
    set_setup_item(&mut s, "nope", "failed", "x");
    assert_eq!(s.items.len(), 4);
}

#[test]
fn parses_global_npm_dsh_version() {
    assert_eq!(
        parse_npm_version("`-- @deepseek-ai/dsh@0.1.0-rc.7\n"),
        Some("0.1.0-rc.7".into())
    );
    assert_eq!(
        parse_npm_version("  @deepseek-ai/dsh@1.2.3 deduped\n"),
        Some("1.2.3".into())
    );
}

#[test]
fn parse_npm_version_absent() {
    assert_eq!(parse_npm_version(""), None);
    assert_eq!(parse_npm_version("`-- some-other-pkg@1.0.0\n"), None);
}
