//! The releases of the desktop application: the newest one, and whether it is newer than
//! what runs.

use crate::order::{
    law_only_equal_versions_are_the_same, law_order_is_reversed, version_order, Precedence,
};
use crate::outside::{
    compare_versions, fits, is_version, json_member, maybe_version, parse_version, read_member,
    version_of, JsonScalar, ScalarView, SemVer, VersionView,
};
use crate::protocol::{release_text, LatestRelease, ReleaseError, ReleaseErrorView, ReleaseView};
use crate::state::{
    failed_update, maybe_text, plain_update, result_text, update_error, update_in, UpdateState,
    UpdateView,
};
use crate::text::{join2, join3, lemma_trim_shorter, strip_start, stripped_start, trim, trimmed};
use vstd::prelude::*;

verus! {

/// Where the application is published.
pub const GITHUB_REPO: &'static str = "wq3333/deepseek-harness-desktop";

// ---- versions ----

/// A version without white space around it and without the v in front.
pub open spec fn plain_version(s: Seq<char>) -> Seq<char> {
    strip_start(trim(s), 'v')
}

/// A version without white space around it and without the v in front.
pub fn bare_version(s: &str) -> (r: String)
    ensures
        r@ == plain_version(s@),
{
    stripped_start(trimmed(s).as_str(), 'v')
}

proof fn lemma_strip_shorter(s: Seq<char>, c: char)
    ensures
        strip_start(s, c).len() <= s.len(),
    decreases s.len(),
{
    if s.len() > 0 && s[0] == c {
        lemma_strip_shorter(s.drop_first(), c);
    }
}

/// Taking off what stands around a version makes no text longer.
pub proof fn lemma_plain_shorter(s: Seq<char>)
    ensures
        plain_version(s).len() <= s.len(),
{
    lemma_trim_shorter(s);
    lemma_strip_shorter(trim(s), 'v');
}

/// The semantic version that a text such as "v1.2.3" or "1.2.3" stands for.
pub open spec fn read_version(s: Seq<char>) -> Option<VersionView> {
    version_of(plain_version(s))
}

/// The semantic version that a text such as "v1.2.3" or "1.2.3" stands for.
pub fn parse_semver(s: &str) -> (r: Option<SemVer>)
    requires
        fits(s@),
    ensures
        maybe_version(r) == read_version(s@),
        r matches Some(v) ==> is_version(v@, plain_version(s@)),
        r matches Some(v) ==> fits(v@.pre) && fits(v@.build),
{
    proof {
        lemma_plain_shorter(s@);
    }
    parse_version(bare_version(s).as_str())
}

/// Whether both texts stand for versions, and for different ones.
pub open spec fn differs(latest: Seq<char>, current: Seq<char>) -> bool {
    match (read_version(latest), read_version(current)) {
        (Some(l), Some(c)) => l != c,
        _ => false,
    }
}

/// Whether both texts stand for versions, and for different ones.
pub fn other_version(latest: &str, current: &str) -> (r: bool)
    requires
        fits(latest@),
        fits(current@),
    ensures
        r == differs(latest@, current@),
{
    match (parse_semver(latest), parse_semver(current)) {
        (Some(l), Some(c)) => {
            proof {
                law_only_equal_versions_are_the_same(l@, c@);
            }
            match compare_versions(&l, &c) {
                Precedence::Same => false,
                _ => true,
            }
        },
        _ => false,
    }
}

/// Whether both texts stand for versions, and the first for a newer one.
pub open spec fn newer(latest: Seq<char>, current: Seq<char>) -> bool {
    match (read_version(latest), read_version(current)) {
        (Some(l), Some(c)) => version_order(l, c) == Precedence::Newer,
        _ => false,
    }
}

/// Whether both texts stand for versions, and the first for a newer one. A newer version
/// is another version, and no version is newer than one that is newer than it.
pub fn newer_version(latest: &str, current: &str) -> (r: bool)
    requires
        fits(latest@),
        fits(current@),
    ensures
        r == newer(latest@, current@),
        r ==> differs(latest@, current@),
        r ==> !newer(current@, latest@),
        differs(latest@, current@) && !r ==> newer(current@, latest@),
{
    match (parse_semver(latest), parse_semver(current)) {
        (Some(l), Some(c)) => {
            proof {
                law_only_equal_versions_are_the_same(l@, c@);
                law_order_is_reversed(l@, c@);
            }
            match compare_versions(&l, &c) {
                Precedence::Newer => true,
                _ => false,
            }
        },
        _ => false,
    }
}

/// Whether dsh is to be updated: it is not installed, or what is installed is no version,
/// or an older one; and there is a version to update to.
pub open spec fn dsh_outdated(current: Option<Seq<char>>, latest: Seq<char>) -> bool {
    match (current, read_version(latest)) {
        (None, Some(_)) => true,
        (Some(c), Some(l)) => match read_version(c) {
            Some(v) => version_order(l, v) == Precedence::Newer,
            None => true,
        },
        _ => false,
    }
}

/// Whether dsh is to be updated.
pub fn should_update_dsh(current: &Option<String>, latest: &str) -> (r: bool)
    requires
        fits(latest@),
        maybe_text(*current) matches Some(c) ==> fits(c),
    ensures
        r == dsh_outdated(maybe_text(*current), latest@),
        maybe_text(*current) == Some(latest@) ==> !r,
{
    match (current, parse_semver(latest)) {
        (None, Some(_)) => true,
        (Some(c), Some(l)) => match parse_semver(c.as_str()) {
            Some(v) => {
                proof {
                    law_only_equal_versions_are_the_same(l@, v@);
                }
                match compare_versions(&l, &v) {
                    Precedence::Newer => true,
                    _ => false,
                }
            },
            None => true,
        },
        _ => false,
    }
}

// ---- the newest release ----

/// The members of the answer to the question for the newest release.
#[derive(Debug)]
pub struct ReleaseReply {
    pub ok: JsonScalar,
    pub tag: JsonScalar,
    pub body: JsonScalar,
    pub asset: JsonScalar,
    pub code: JsonScalar,
    pub message: JsonScalar,
}

/// What the members hold.
pub struct ReleaseReplyView {
    pub ok: ScalarView,
    pub tag: ScalarView,
    pub body: ScalarView,
    pub asset: ScalarView,
    pub code: ScalarView,
    pub message: ScalarView,
}

impl View for ReleaseReply {
    type V = ReleaseReplyView;

    open spec fn view(&self) -> ReleaseReplyView {
        ReleaseReplyView {
            ok: self.ok@,
            tag: self.tag@,
            body: self.body@,
            asset: self.asset@,
            code: self.code@,
            message: self.message@,
        }
    }
}

/// The text of a member, where it is text.
pub open spec fn member_text(s: ScalarView) -> Option<Seq<char>> {
    match s {
        ScalarView::Text(t) => Some(t),
        _ => None,
    }
}

/// The text of a member, empty where it is none.
pub open spec fn text_or_empty(s: ScalarView) -> Seq<char> {
    match s {
        ScalarView::Text(t) => t,
        _ => Seq::empty(),
    }
}

/// The release that the members of the answer tell of. Where the answer says that all is
/// well, it gives the tag, the notes and the address of the executable; the code 404 says
/// that nothing is published yet; any other answer is a failure.
pub open spec fn told_release(m: ReleaseReplyView) -> Result<ReleaseView, ReleaseErrorView> {
    if m.ok == ScalarView::Bool(true) {
        Ok(
            ReleaseView {
                tag_name: text_or_empty(m.tag),
                body: member_text(m.body),
                asset_url: text_or_empty(m.asset),
            },
        )
    } else if m.code == ScalarView::Int(404) {
        Err(ReleaseErrorView::NoRelease)
    } else {
        Err(
            ReleaseErrorView::Failed(
                "获取 GitHub 版本信息失败:"@ + match m.message {
                    ScalarView::Text(t) => t,
                    _ => "未知错误"@,
                },
            ),
        )
    }
}

fn take_text(s: JsonScalar) -> (r: Option<String>)
    ensures
        maybe_text(r) == member_text(s@),
{
    match s {
        JsonScalar::Text(t) => Some(t),
        _ => None,
    }
}

fn take_or_empty(s: JsonScalar) -> (r: String)
    ensures
        r@ == text_or_empty(s@),
{
    match s {
        JsonScalar::Text(t) => t,
        _ => String::new(),
    }
}

/// The release that the members of the answer tell of.
pub fn release_of(reply: ReleaseReply) -> (r: Result<LatestRelease, ReleaseError>)
    ensures
        release_text(r) == told_release(reply@),
{
    let well = match reply.ok {
        JsonScalar::Bool(b) => b,
        _ => false,
    };
    if well {
        return Ok(
            LatestRelease {
                tag_name: take_or_empty(reply.tag),
                body: take_text(reply.body),
                asset_url: take_or_empty(reply.asset),
            },
        );
    }
    let unpublished = match reply.code {
        JsonScalar::Int(n) => n == 404,
        _ => false,
    };
    if unpublished {
        return Err(ReleaseError::NoRelease);
    }
    let message = match reply.message {
        JsonScalar::Text(t) => t,
        _ => "未知错误".to_owned(),
    };
    Err(ReleaseError::Failed(join2("获取 GitHub 版本信息失败:", message.as_str())))
}

/// A member of the answer, nothing where it cannot be read.
pub open spec fn member_of(text: Seq<char>, key: Seq<char>) -> ScalarView {
    match json_member(text, key) {
        Ok(s) => s,
        Err(_) => ScalarView::Other,
    }
}

/// The members of the answer `text`.
pub open spec fn members(text: Seq<char>) -> ReleaseReplyView {
    ReleaseReplyView {
        ok: member_of(text, "ok"@),
        tag: member_of(text, "tag"@),
        body: member_of(text, "body"@),
        asset: member_of(text, "asset"@),
        code: member_of(text, "code"@),
        message: member_of(text, "message"@),
    }
}

/// The newest release that the output of the lookup tells of.
pub open spec fn fetched(
    output: Result<Seq<char>, Seq<char>>,
) -> Result<ReleaseView, ReleaseErrorView> {
    match output {
        Err(e) => Err(ReleaseErrorView::Failed(e)),
        Ok(out) => match json_member(trim(out), "ok"@) {
            Err(e) => Err(ReleaseErrorView::Failed("解析更新信息失败:"@ + e)),
            Ok(_) => told_release(members(trim(out))),
        },
    }
}

fn member(text: &str, key: &str) -> (r: JsonScalar)
    ensures
        r@ == member_of(text@, key@),
{
    match read_member(text, key) {
        Ok(s) => s,
        Err(_) => JsonScalar::Other,
    }
}

/// The newest release that the output of the lookup tells of. That nothing is published
/// yet is told apart from a failure.
pub fn fetch_latest_release(output: Result<String, String>) -> (r: Result<
    LatestRelease,
    ReleaseError,
>)
    ensures
        release_text(r) == fetched(result_text(output)),
{
    match output {
        Err(e) => Err(ReleaseError::Failed(e)),
        Ok(out) => {
            let text = trimmed(out.as_str());
            let t = text.as_str();
            match read_member(t, "ok") {
                Err(e) => Err(
                    ReleaseError::Failed(join2("解析更新信息失败:", e.as_str())),
                ),
                Ok(ok) => release_of(
                    ReleaseReply {
                        ok,
                        tag: member(t, "tag"),
                        body: member(t, "body"),
                        asset: member(t, "asset"),
                        code: member(t, "code"),
                        message: member(t, "message"),
                    },
                ),
            }
        },
    }
}

/// What is said where nothing is published yet, or why the lookup failed.
pub open spec fn release_note(e: ReleaseErrorView) -> Seq<char> {
    match e {
        ReleaseErrorView::NoRelease => "暂无已发布版本"@,
        ReleaseErrorView::Failed(t) => t,
    }
}

/// What is said where nothing is published yet, or why the lookup failed.
pub fn release_error(e: ReleaseError) -> (r: String)
    ensures
        r@ == release_note(e@),
{
    match e {
        ReleaseError::NoRelease => "暂无已发布版本".to_owned(),
        ReleaseError::Failed(t) => t,
    }
}

// ---- the check for an update ----

/// What a check for an update has found.
#[derive(Debug)]
pub struct UpdateInfo {
    pub current: String,
    pub latest: String,
    pub update_available: bool,
    pub release_notes: String,
    pub asset_url: String,
}

/// What the finding holds.
pub struct UpdateInfoView {
    pub current: Seq<char>,
    pub latest: Seq<char>,
    pub update_available: bool,
    pub release_notes: Seq<char>,
    pub asset_url: Seq<char>,
}

impl View for UpdateInfo {
    type V = UpdateInfoView;

    open spec fn view(&self) -> UpdateInfoView {
        UpdateInfoView {
            current: self.current@,
            latest: self.latest@,
            update_available: self.update_available,
            release_notes: self.release_notes@,
            asset_url: self.asset_url@,
        }
    }
}

/// What the outcome of a check holds.
pub open spec fn info_text(r: Result<UpdateInfo, String>) -> Result<UpdateInfoView, Seq<char>> {
    match r {
        Ok(i) => Ok(i@),
        Err(e) => Err(e@),
    }
}

/// The finding of a check: how the newest release stands to the version that runs. Where
/// nothing is published, what runs is up to date.
pub open spec fn finding(
    current: Seq<char>,
    release: Result<ReleaseView, ReleaseErrorView>,
) -> Result<UpdateInfoView, Seq<char>> {
    match release {
        Ok(r) => Ok(
            UpdateInfoView {
                current,
                latest: plain_version(r.tag_name),
                update_available: differs(plain_version(r.tag_name), current),
                release_notes: match r.body {
                    Some(b) => b,
                    None => Seq::empty(),
                },
                asset_url: r.asset_url,
            },
        ),
        Err(ReleaseErrorView::NoRelease) => Ok(
            UpdateInfoView {
                current,
                latest: current,
                update_available: false,
                release_notes: Seq::empty(),
                asset_url: Seq::empty(),
            },
        ),
        Err(ReleaseErrorView::Failed(e)) => Err(e),
    }
}

/// What is shown of the finding of a check.
pub open spec fn finding_shown(found: Result<UpdateInfoView, Seq<char>>) -> UpdateView {
    match found {
        Ok(i) => UpdateView {
            latest: Some(i.latest),
            update_available: i.update_available,
            release_notes: i.release_notes,
            ..plain_update(
                "idle"@,
                if i.update_available {
                    "发现新版本 v"@ + i.latest
                } else {
                    "已是最新版本(v"@ + i.current + ")"@
                },
            )
        },
        Err(e) => failed_update("检查更新失败"@, e),
    }
}

/// Whether the tag of a release is short enough to be compared.
pub open spec fn release_fits(release: Result<ReleaseView, ReleaseErrorView>) -> bool {
    release matches Ok(r) ==> fits(r.tag_name)
}

/// What is shown when a check begins.
pub fn check_started() -> (r: UpdateState)
    ensures
        r@ == plain_update("checking"@, "正在检查更新…"@),
{
    update_in("checking", "正在检查更新…".to_owned())
}

/// Compares the version that runs with the newest release: what is found, and what is
/// shown of it.
pub fn check_update(current: String, release: Result<LatestRelease, ReleaseError>) -> (r: (
    Result<UpdateInfo, String>,
    UpdateState,
))
    requires
        fits(current@),
        release_fits(release_text(release)),
    ensures
        info_text(r.0) == finding(current@, release_text(release)),
        r.1@ == finding_shown(finding(current@, release_text(release))),
{
    let info = match release {
        Ok(found) => {
            let latest = bare_version(found.tag_name.as_str());
            proof {
                lemma_plain_shorter(found.tag_name@);
            }
            let update_available = other_version(latest.as_str(), current.as_str());
            UpdateInfo {
                current,
                latest,
                update_available,
                release_notes: match found.body {
                    Some(b) => b,
                    None => String::new(),
                },
                asset_url: found.asset_url,
            }
        },
        Err(ReleaseError::NoRelease) => UpdateInfo {
            latest: current.clone(),
            current,
            update_available: false,
            release_notes: String::new(),
            asset_url: String::new(),
        },
        Err(ReleaseError::Failed(e)) => {
            let state = update_error("检查更新失败", e.as_str());
            return (Err(e), state);
        },
    };
    let message = if info.update_available {
        join2("发现新版本 v", info.latest.as_str())
    } else {
        join3("已是最新版本(v", info.current.as_str(), ")")
    };
    let mut state = update_in("idle", message);
    state.latest = Some(info.latest.clone());
    state.update_available = info.update_available;
    state.release_notes = info.release_notes.clone();
    (Ok(info), state)
}

/// What the application says of itself.
#[derive(Debug)]
pub struct AppInfo {
    pub version: String,
    pub repo: String,
}

/// What the application says of itself: its version and where it is published.
pub fn get_app_info(version: String) -> (r: AppInfo)
    ensures
        r.version@ == version@,
        r.repo@ == GITHUB_REPO@,
{
    AppInfo { version, repo: GITHUB_REPO.to_owned() }
}

} // verus!
