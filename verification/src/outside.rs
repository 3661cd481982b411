//! What the library takes from other crates, as functions on plain values.

use crate::order::{version_order, Precedence};
use crate::state::maybe_text;
use crate::text::{decimal, is_digit, pieces, Cut};
use vstd::prelude::*;
use vstd::utf8::{decode_utf8, valid_utf8};

verus! {

// ---- semantic versions ----

/// A semantic version.
#[derive(Debug)]
pub struct SemVer {
    pub major: u64,
    pub minor: u64,
    pub patch: u64,
    /// The pre-release part, empty where there is none.
    pub pre: String,
    /// The build metadata, empty where there are none.
    pub build: String,
}

/// What a semantic version holds.
pub struct VersionView {
    pub major: u64,
    pub minor: u64,
    pub patch: u64,
    pub pre: Seq<char>,
    pub build: Seq<char>,
}

impl View for SemVer {
    type V = VersionView;

    open spec fn view(&self) -> VersionView {
        VersionView {
            major: self.major,
            minor: self.minor,
            patch: self.patch,
            pre: self.pre@,
            build: self.build@,
        }
    }
}

/// What an optional semantic version holds.
pub open spec fn maybe_version(v: Option<SemVer>) -> Option<VersionView> {
    match v {
        Some(x) => Some(x@),
        None => None,
    }
}

/// The characters of an identifier: digits, letters and the hyphen.
pub open spec fn identifier_char(c: char) -> bool {
    ||| is_digit(c)
    ||| 'A' <= c <= 'Z'
    ||| 'a' <= c <= 'z'
    ||| c == '-'
}

/// Whether an identifier is a number.
pub open spec fn numeric(s: Seq<char>) -> bool {
    forall|i: int| 0 <= i < s.len() ==> is_digit(#[trigger] s[i])
}

/// Whether a number is written with a needless zero in front.
pub open spec fn leading_zero(s: Seq<char>) -> bool {
    s.len() > 1 && s[0] == '0' && numeric(s)
}

/// Whether `s` is a row of identifiers with dots between them, none of them empty and,
/// where `strict` says so, none of them a number with a needless zero in front.
pub open spec fn identifiers(s: Seq<char>, strict: bool) -> bool {
    let p = pieces(s, Cut::At('.'));
    forall|i: int|
        0 <= i < p.len() ==> {
            &&& (#[trigger] p[i]).len() > 0
            &&& forall|k: int| 0 <= k < p[i].len() ==> identifier_char(#[trigger] p[i][k])
            &&& !(strict && leading_zero(p[i]))
        }
}

/// Whether the parts of a version are well-formed.
pub open spec fn valid_version(v: VersionView) -> bool {
    &&& v.pre.len() == 0 || identifiers(v.pre, true)
    &&& v.build.len() == 0 || identifiers(v.build, false)
}

/// The text of a version: the three numbers with dots between them, then a hyphen and
/// the pre-release part, then a plus sign and the build metadata.
pub open spec fn version_text(v: VersionView) -> Seq<char> {
    decimal(v.major as nat) + seq!['.'] + decimal(v.minor as nat) + seq!['.'] + decimal(
        v.patch as nat,
    ) + (if v.pre.len() == 0 {
        Seq::empty()
    } else {
        seq!['-'] + v.pre
    }) + (if v.build.len() == 0 {
        Seq::empty()
    } else {
        seq!['+'] + v.build
    })
}

/// Whether `text` is the text of the version `v`.
pub open spec fn is_version(v: VersionView, text: Seq<char>) -> bool {
    valid_version(v) && version_text(v) == text
}

/// The version that `text` is the text of.
pub open spec fn version_of(text: Seq<char>) -> Option<VersionView> {
    if exists|v: VersionView| is_version(v, text) {
        Some(choose|v: VersionView| is_version(v, text))
    } else {
        None
    }
}

/// Whether a text is short enough for `semver`, which gives up on a pre-release part or
/// on build metadata of 2^56 bytes.
pub open spec fn fits(text: Seq<char>) -> bool {
    text.len() < 0x100_0000_0000_0000
}

/// `semver::Version::parse` accepts the text of a well-formed version, and nothing else,
/// and gives that version.
#[verifier::external_body]
pub(crate) fn parse_version(text: &str) -> (r: Option<SemVer>)
    requires
        fits(text@),
    ensures
        maybe_version(r) == version_of(text@),
{
    match semver::Version::parse(text) {
        Ok(v) => Some(SemVer {
            major: v.major,
            minor: v.minor,
            patch: v.patch,
            pre: v.pre.as_str().to_owned(),
            build: v.build.as_str().to_owned(),
        }),
        Err(_) => None,
    }
}

/// `semver::Version::cmp` compares the numbers first, then the pre-release parts, where none
/// is newer than any, then the build metadata. Pre-release parts and build metadata are
/// compared identifier by identifier.
#[verifier::external_body]
pub(crate) fn compare_versions(a: &SemVer, b: &SemVer) -> (r: Precedence)
    requires
        valid_version(a@),
        valid_version(b@),
        fits(a@.pre) && fits(a@.build),
        fits(b@.pre) && fits(b@.build),
    ensures
        r == version_order(a@, b@),
{
    let left = semver::Version {
        pre: semver::Prerelease::new(a.pre.as_str()).unwrap(),
        build: semver::BuildMetadata::new(a.build.as_str()).unwrap(),
        ..semver::Version::new(a.major, a.minor, a.patch)
    };
    let right = semver::Version {
        pre: semver::Prerelease::new(b.pre.as_str()).unwrap(),
        build: semver::BuildMetadata::new(b.build.as_str()).unwrap(),
        ..semver::Version::new(b.major, b.minor, b.patch)
    };
    match left.cmp(&right) {
        std::cmp::Ordering::Less => Precedence::Older,
        std::cmp::Ordering::Equal => Precedence::Same,
        std::cmp::Ordering::Greater => Precedence::Newer,
    }
}

// ---- addresses ----

/// The normal form of an address, as `url::Url` writes it; `None` where the text is no
/// absolute address.
pub uninterp spec fn url_form(text: Seq<char>) -> Option<Seq<char>>;

/// `url::Url::parse` gives an address or refuses the text; which of the two, and the
/// normal form of the address, is left to the name.
#[verifier::external_body]
pub(crate) fn parse_url(text: &str) -> (r: Option<String>)
    ensures
        maybe_text(r) == url_form(text@),
{
    match url::Url::parse(text) {
        Ok(u) => Some(u.as_str().to_owned()),
        Err(_) => None,
    }
}

// ---- JSON ----

/// A value of JSON as far as it is plain.
#[derive(Debug)]
pub enum JsonScalar {
    Bool(bool),
    Int(i64),
    Text(String),
    /// Nothing, or a value of another kind.
    Other,
}

/// What a plain value of JSON holds.
pub enum ScalarView {
    Bool(bool),
    Int(i64),
    Text(Seq<char>),
    Other,
}

impl View for JsonScalar {
    type V = ScalarView;

    open spec fn view(&self) -> ScalarView {
        match self {
            JsonScalar::Bool(b) => ScalarView::Bool(*b),
            JsonScalar::Int(n) => ScalarView::Int(*n),
            JsonScalar::Text(t) => ScalarView::Text(t@),
            JsonScalar::Other => ScalarView::Other,
        }
    }
}

/// What a look into JSON text holds.
pub open spec fn scalar_text(r: Result<JsonScalar, String>) -> Result<ScalarView, Seq<char>> {
    match r {
        Ok(s) => Ok(s@),
        Err(e) => Err(e@),
    }
}

/// The member `key` of the JSON object `text`, as `serde_json` reads it; an error where
/// the text is no JSON.
pub uninterp spec fn json_member(text: Seq<char>, key: Seq<char>) -> Result<ScalarView, Seq<char>>;

/// `serde_json::from_str` reads the text as one JSON value or says why it cannot. The
/// member is looked up in the value; a value that is no object has none.
#[verifier::external_body]
pub(crate) fn read_member(text: &str, key: &str) -> (r: Result<JsonScalar, String>)
    ensures
        scalar_text(r) == json_member(text@, key@),
{
    match serde_json::from_str::<serde_json::Value>(text) {
        Ok(v) => Ok(match &v[key] {
            serde_json::Value::Bool(b) => JsonScalar::Bool(*b),
            serde_json::Value::Number(n) => match n.as_i64() {
                Some(i) => JsonScalar::Int(i),
                None => JsonScalar::Other,
            },
            serde_json::Value::String(s) => JsonScalar::Text(s.clone()),
            _ => JsonScalar::Other,
        }),
        Err(e) => Err(e.to_string()),
    }
}

// ---- output of programs ----

/// The text that bytes stand for, with a replacement for each part that is no UTF-8.
pub uninterp spec fn lossy_form(bytes: Seq<u8>) -> Seq<char>;

/// `String::from_utf8_lossy` decodes UTF-8. Bytes that are valid UTF-8 are decoded
/// exactly; what becomes of others is left to the name.
#[verifier::external_body]
pub(crate) fn lossy(bytes: &Vec<u8>) -> (r: String)
    ensures
        r@ == lossy_form(bytes@),
        valid_utf8(bytes@) ==> r@ == decode_utf8(bytes@),
{
    String::from_utf8_lossy(bytes.as_slice()).into_owned()
}

// ---- quoting ----

/// A text in quotes and with escapes, as the standard library writes it for debugging.
pub uninterp spec fn debug_form(text: Seq<char>) -> Seq<char>;

/// `format!` with `{:?}` writes a text in quotes and with escapes; which characters are
/// escaped, and how, is left to the name.
#[verifier::external_body]
pub(crate) fn quoted(text: &str) -> (r: String)
    ensures
        r@ == debug_form(text@),
{
    format!("{:?}", text)
}

} // verus!
