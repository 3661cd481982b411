//! What npm and node say of the versions that are installed and published.

use crate::command::{
    npm_list, npm_list_command, npm_list_prefix, npm_list_prefix_command,
};
use crate::protocol::{
    ignored, just, none, turn_failed, turn_finished, turn_ignored, turn_just_ask, NextView, Reply,
    ReplyView, Request, RequestView, Turn, TurnView,
};
use crate::state::{maybe_text, result_text};
use crate::text::{
    after_last, lines, lines_of, text_after_last, texts, trim, trimmed, words, words_of,
};
use vstd::prelude::*;

verus! {

/// What stands before the version of dsh in npm's listing.
pub open spec fn package_mark() -> Seq<char> {
    "@deepseek-ai/dsh@"@
}

/// The version of dsh that a line of npm's listing gives: the first word after the last
/// mark of the package.
pub open spec fn line_version(line: Seq<char>) -> Option<Seq<char>> {
    match after_last(line, package_mark()) {
        Some(rest) => if words(rest).len() > 0 {
            Some(words(rest)[0])
        } else {
            None
        },
        None => None,
    }
}

/// The version that the first of the lines gives which gives one.
pub open spec fn first_version(list: Seq<Seq<char>>) -> Option<Seq<char>>
    decreases list.len(),
{
    if list.len() == 0 {
        None
    } else {
        match line_version(list[0]) {
            Some(v) => Some(v),
            None => first_version(list.drop_first()),
        }
    }
}

/// The version of dsh that npm's listing gives.
pub open spec fn npm_version(listing: Seq<char>) -> Option<Seq<char>> {
    first_version(lines(listing))
}

fn version_in_line(line: &str) -> (r: Option<String>)
    ensures
        maybe_text(r) == line_version(line@),
{
    match text_after_last(line, "@deepseek-ai/dsh@") {
        Some(rest) => {
            let w = words_of(rest.as_str());
            if w.len() > 0 {
                assert(texts(w@)[0] == w@[0]@);
                Some(w[0].clone())
            } else {
                None
            }
        },
        None => None,
    }
}

/// The version of dsh that npm's listing gives, such as "`-- @deepseek-ai/dsh@1.2.3".
pub fn parse_npm_version(listing: &str) -> (r: Option<String>)
    ensures
        maybe_text(r) == npm_version(listing@),
{
    let all = lines_of(listing);
    let mut i: usize = 0;
    assert(texts(all@).skip(0) =~= texts(all@));
    while i < all.len()
        invariant
            i <= all@.len(),
            texts(all@) == lines(listing@),
            first_version(texts(all@).skip(i as int)) == npm_version(listing@),
        decreases all@.len() - i,
    {
        proof {
            assert(texts(all@).skip(i as int)[0] == all@[i as int]@);
            assert(texts(all@).skip(i as int).drop_first() =~= texts(all@).skip(i + 1));
        }
        match version_in_line(all[i].as_str()) {
            Some(v) => {
                return Some(v);
            },
            None => {},
        }
        i = i + 1;
    }
    None
}

/// The version of dsh that a listing gives which may have failed.
pub open spec fn listed_version(listing: Result<Seq<char>, Seq<char>>) -> Option<Seq<char>> {
    match listing {
        Ok(out) => npm_version(out),
        Err(_) => None,
    }
}

/// The version of dsh that a listing gives which may have failed.
pub fn parse_listing(listing: &Result<String, String>) -> (r: Option<String>)
    ensures
        maybe_text(r) == listed_version(result_text(*listing)),
{
    match listing {
        Ok(out) => parse_npm_version(out.as_str()),
        Err(_) => None,
    }
}

/// The version of dsh that is installed: the one in the global npm prefix, or else the
/// one in the user's prefix, where dsh goes if a global installation is not permitted.
pub open spec fn installed_version(
    global: Result<Seq<char>, Seq<char>>,
    user: Result<Seq<char>, Seq<char>>,
) -> Option<Seq<char>> {
    match listed_version(global) {
        Some(v) => Some(v),
        None => listed_version(user),
    }
}

/// The version of dsh that is installed, out of the listings of the two prefixes.
pub fn dsh_version(global: &Result<String, String>, user: &Result<String, String>) -> (r: Option<
    String,
>)
    ensures
        maybe_text(r) == installed_version(result_text(*global), result_text(*user)),
{
    match parse_listing(global) {
        Some(v) => Some(v),
        None => parse_listing(user),
    }
}

/// What the lookup of the installed dsh waits for.
#[derive(Clone, Copy, Debug, PartialEq, Eq, Structural)]
pub enum LookUpStage {
    /// The listing of the global npm prefix.
    Global,
    /// The listing of the user's npm prefix.
    User,
    Over,
}

/// The lookup of the installed dsh. The prefix of the user is asked only where the global
/// one has no dsh.
#[derive(Debug)]
pub struct LookUpDsh {
    /// The npm prefix of the user.
    pub prefix: String,
    /// The listing of the global npm prefix.
    pub global: Result<String, String>,
    pub stage: LookUpStage,
}

/// What the lookup holds.
pub struct LookUpView {
    pub prefix: Seq<char>,
    pub global: Result<Seq<char>, Seq<char>>,
    pub stage: LookUpStage,
}

impl View for LookUpDsh {
    type V = LookUpView;

    open spec fn view(&self) -> LookUpView {
        LookUpView {
            prefix: self.prefix@,
            global: result_text(self.global),
            stage: self.stage,
        }
    }
}

/// How the lookup ends: well with a version, in failure without one.
pub open spec fn looked_up(version: Option<Seq<char>>) -> TurnView {
    just(
        match version {
            Some(v) => NextView::Finished(v),
            None => NextView::Failed(Seq::empty()),
        },
    )
}

/// The start of the lookup.
pub open spec fn look_up_start(prefix: Seq<char>) -> (LookUpView, TurnView) {
    (
        LookUpView { prefix, global: Err(Seq::empty()), stage: LookUpStage::Global },
        just(NextView::Ask(RequestView::Capture(npm_list()))),
    )
}

/// One step of the lookup.
pub open spec fn look_up_step(l: LookUpView, reply: ReplyView) -> (LookUpView, TurnView) {
    match (l.stage, reply) {
        (LookUpStage::Global, ReplyView::Captured(out)) => match listed_version(out) {
            Some(v) => (
                LookUpView { global: out, stage: LookUpStage::Over, ..l },
                looked_up(Some(v)),
            ),
            None => (
                LookUpView { global: out, stage: LookUpStage::User, ..l },
                just(NextView::Ask(RequestView::Capture(npm_list_prefix(l.prefix)))),
            ),
        },
        (LookUpStage::User, ReplyView::Captured(out)) => (
            LookUpView { stage: LookUpStage::Over, ..l },
            looked_up(installed_version(l.global, out)),
        ),
        _ => (l, ignored()),
    }
}

impl LookUpDsh {
    /// Begins the lookup; `prefix` is the npm prefix of the user.
    pub fn start(prefix: String) -> (r: (LookUpDsh, Turn))
        ensures
            (r.0@, r.1@) == look_up_start(prefix@),
    {
        (
            LookUpDsh { prefix, global: Err(String::new()), stage: LookUpStage::Global },
            turn_just_ask(Request::Capture(npm_list_command())),
        )
    }

    fn end(&mut self, version: Option<String>) -> (r: Turn)
        ensures
            final(self)@ == (LookUpView { stage: LookUpStage::Over, ..old(self)@ }),
            r@ == looked_up(maybe_text(version)),
    {
        self.stage = LookUpStage::Over;
        match version {
            Some(v) => turn_finished(none(), v),
            None => turn_failed(none(), String::new()),
        }
    }

    /// Takes the reply to what was asked last and goes on.
    pub fn step(&mut self, reply: Reply) -> (r: Turn)
        ensures
            (final(self)@, r@) == look_up_step(old(self)@, reply@),
    {
        match (self.stage, reply) {
            (LookUpStage::Global, Reply::Captured(out)) => {
                let found = parse_listing(&out);
                self.global = out;
                if found.is_some() {
                    return self.end(found);
                }
                self.stage = LookUpStage::User;
                turn_just_ask(Request::Capture(npm_list_prefix_command(self.prefix.as_str())))
            },
            (LookUpStage::User, Reply::Captured(out)) => {
                let found = dsh_version(&self.global, &out);
                self.end(found)
            },
            _ => turn_ignored(),
        }
    }
}

/// The output of a program without white space around it; empty where it failed.
pub open spec fn trimmed_output(output: Result<Seq<char>, Seq<char>>) -> Seq<char> {
    match output {
        Ok(out) => trim(out),
        Err(_) => Seq::empty(),
    }
}

fn output_or_empty(output: &Result<String, String>) -> (r: String)
    ensures
        r@ == trimmed_output(result_text(*output)),
{
    match output {
        Ok(out) => trimmed(out.as_str()),
        Err(_) => String::new(),
    }
}

/// The newest dsh version of the npm registry; empty where the question failed.
pub fn npm_latest_dsh(output: &Result<String, String>) -> (r: String)
    ensures
        r@ == trimmed_output(result_text(*output)),
{
    output_or_empty(output)
}

/// Whether Node.js can be used: node and npm are both found.
pub fn node_available(node_found: bool, npm_found: bool) -> (r: bool)
    ensures
        r == (node_found && npm_found),
{
    node_found && npm_found
}

/// The version that node gives; empty where the question failed.
pub fn node_version(output: &Result<String, String>) -> (r: String)
    ensures
        r@ == trimmed_output(result_text(*output)),
{
    output_or_empty(output)
}

/// The newest long-term version of Node.js that a lookup gives.
pub open spec fn looked_up_node(
    output: Result<Seq<char>, Seq<char>>,
) -> Result<Seq<char>, Seq<char>> {
    match output {
        Ok(out) => if trim(out).len() == 0 {
            Err("无法获取 Node.js 最新版本(请检查网络)"@)
        } else {
            Ok(trim(out))
        },
        Err(e) => Err(e),
    }
}

/// The newest long-term version of Node.js, such as "v22.14.0", out of what the lookup
/// in the official index has printed.
pub fn latest_node_version(output: Result<String, String>) -> (r: Result<String, String>)
    ensures
        result_text(r) == looked_up_node(result_text(output)),
{
    match output {
        Ok(out) => {
            let v = trimmed(out.as_str());
            if v.as_str().is_empty() {
                Err("无法获取 Node.js 最新版本(请检查网络)".to_owned())
            } else {
                Ok(v)
            }
        },
        Err(e) => Err(e),
    }
}

} // verus!
