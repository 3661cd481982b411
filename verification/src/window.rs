//! The window: its message boxes, its two pages, and what closing it does.

use crate::outside::{debug_form, quoted};
use crate::protocol::{effects, one, three, two, Effect, EffectView};
use crate::state::Settings;
use crate::text::{join3, same, units, wide};
use vstd::prelude::*;

verus! {

/// A native message box.
pub struct NativeMessage {
    /// UTF-16 code units, closed by a zero.
    pub title: Vec<u16>,
    /// UTF-16 code units, closed by a zero.
    pub text: Vec<u16>,
    /// Whether it shows the sign of an error, and not that of information.
    pub is_error: bool,
}

/// The native message box with a title and a text.
pub fn native_msg(title: &str, text: &str, is_error: bool) -> (r: NativeMessage)
    ensures
        r.title@ == units(title@).push(0),
        r.text@ == units(text@).push(0),
        r.is_error == is_error,
{
    NativeMessage { title: wide(title), text: wide(text), is_error }
}

// ---- the pages ----

/// One of the two pages, of which one is on show.
#[derive(Clone, Copy, Debug, PartialEq, Eq, Structural)]
pub enum Page {
    Harness,
    Chat,
}

/// The page that goes by a name.
pub open spec fn page_named(name: Seq<char>) -> Option<Page> {
    if name == "harness"@ {
        Some(Page::Harness)
    } else if name == "chat"@ {
        Some(Page::Chat)
    } else {
        None
    }
}

/// The label of the view that shows a page.
pub open spec fn page_label(page: Page) -> Seq<char> {
    match page {
        Page::Harness => "harness-content"@,
        Page::Chat => "chat-content"@,
    }
}

/// The page that is hidden when `page` is on show.
pub open spec fn other_page(page: Page) -> Page {
    match page {
        Page::Harness => Page::Chat,
        Page::Chat => Page::Harness,
    }
}

/// The label of the view that shows a page.
pub fn label_of(page: Page) -> (r: String)
    ensures
        r@ == page_label(page),
{
    match page {
        Page::Harness => "harness-content".to_owned(),
        Page::Chat => "chat-content".to_owned(),
    }
}

/// What switching to a page comes to. The page is shown before the other one is hidden.
#[derive(Debug)]
pub struct Switch {
    pub page: Page,
    /// The label of the view to show.
    pub show: String,
    /// The label of the view to hide.
    pub hide: String,
    /// What the title bar is told.
    pub script: String,
}

/// A call of a function of the title bar with one text; `quoted` is the text in quotes.
pub open spec fn bar_call(function: Seq<char>, quoted: Seq<char>) -> Seq<char> {
    function + "("@ + quoted + ")"@
}

/// A call of a function of the title bar with one text in quotes.
pub fn bar_script(function: &str, quoted: &str) -> (r: String)
    ensures
        r@ == bar_call(function@, quoted@),
{
    join3(function, "(", quoted).concat(")")
}

/// Switches to the page of the name `target`; other names are ignored.
pub fn switch_to(target: &str) -> (r: Option<Switch>)
    ensures
        match page_named(target@) {
            Some(page) => {
                &&& r is Some
                &&& r->0.page == page
                &&& r->0.show@ == page_label(page)
                &&& r->0.hide@ == page_label(other_page(page))
                &&& r->0.script@ == bar_call("setActive"@, debug_form(target@))
            },
            None => r is None,
        },
{
    let page = if same(target, "harness") {
        Page::Harness
    } else if same(target, "chat") {
        Page::Chat
    } else {
        return None;
    };
    let other = match page {
        Page::Harness => Page::Chat,
        Page::Chat => Page::Harness,
    };
    Some(
        Switch {
            page,
            show: label_of(page),
            hide: label_of(other),
            script: bar_script("setActive", quoted(target).as_str()),
        },
    )
}

/// The label of the view whose developer tools are opened or closed: that of the page on
/// show.
pub fn toggle_devtools(page: Page) -> (r: String)
    ensures
        r@ == page_label(page),
{
    label_of(page)
}

/// Whether the developer tools are to be open, where `open` says whether they are.
pub fn devtools_wanted(open: bool) -> (r: bool)
    ensures
        r == !open,
{
    !open
}

/// What the title bar is told to show a short note.
pub fn show_toast(message: &str) -> (r: String)
    ensures
        r@ == bar_call("showToast"@, debug_form(message@)),
{
    bar_script("showToast", quoted(message).as_str())
}

// ---- leaving ----

/// What closing the window does: the server is stopped where the user wants it, and the
/// application ends.
pub fn quit_app(settings: &Settings, port: u16) -> (r: Vec<Effect>)
    ensures
        effects(r@) == if settings.close_stops_dsh {
            seq![EffectView::StopServer(port), EffectView::Exit(0)]
        } else {
            seq![EffectView::Exit(0)]
        },
{
    if settings.close_stops_dsh {
        quit_with_dsh(port)
    } else {
        one(Effect::Exit(0))
    }
}

/// Stops the server and ends the application.
pub fn quit_with_dsh(port: u16) -> (r: Vec<Effect>)
    ensures
        effects(r@) == seq![EffectView::StopServer(port), EffectView::Exit(0)],
{
    two(Effect::StopServer(port), Effect::Exit(0))
}

/// Stops the server and keeps the window, whose harness page says that it was stopped.
pub fn stop_dsh_cmd(port: u16) -> (r: Vec<Effect>)
    ensures
        effects(r@) == seq![
            EffectView::StopServer(port),
            EffectView::Navigate("http://tauri.localhost/loading.html?mode=stopped"@),
            EffectView::Toast("dsh 服务已停止"@),
        ],
{
    three(
        Effect::StopServer(port),
        Effect::Navigate("http://tauri.localhost/loading.html?mode=stopped".to_owned()),
        Effect::Toast("dsh 服务已停止".to_owned()),
    )
}

} // verus!
