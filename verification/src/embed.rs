//! The message cards that the bot posts, and what every card shows the same way.

use std::fmt::Write;
use vstd::prelude::*;

use crate::text::{trim_char, trim_matching};

verus! {

/// The author line of an embed: a name that links to a page, with an icon.
pub struct EmbedAuthor {
    pub name: String,
    pub url: String,
    pub icon_url: String,
}

/// The footer line of an embed: a text with an icon.
pub struct EmbedFooter {
    pub text: String,
    pub icon_url: String,
}

/// A rich message card, as the bot posts it for an issue, a pull request or a comment.
pub struct Embed {
    pub title: String,
    pub description: String,
    pub colour: u32,
    pub author: EmbedAuthor,
    pub footer: EmbedFooter,
    pub image: Option<String>,
}

/// The contents of an [`EmbedAuthor`].
pub struct EmbedAuthorView {
    pub name: Seq<char>,
    pub url: Seq<char>,
    pub icon_url: Seq<char>,
}

/// The contents of an [`EmbedFooter`].
pub struct EmbedFooterView {
    pub text: Seq<char>,
    pub icon_url: Seq<char>,
}

/// The contents of an [`Embed`].
pub struct EmbedView {
    pub title: Seq<char>,
    pub description: Seq<char>,
    pub colour: u32,
    pub author: EmbedAuthorView,
    pub footer: EmbedFooterView,
    pub image: Option<Seq<char>>,
}

impl View for EmbedAuthor {
    type V = EmbedAuthorView;

    open spec fn view(&self) -> EmbedAuthorView {
        EmbedAuthorView { name: self.name@, url: self.url@, icon_url: self.icon_url@ }
    }
}

impl View for EmbedFooter {
    type V = EmbedFooterView;

    open spec fn view(&self) -> EmbedFooterView {
        EmbedFooterView { text: self.text@, icon_url: self.icon_url@ }
    }
}

impl View for Embed {
    type V = EmbedView;

    open spec fn view(&self) -> EmbedView {
        EmbedView {
            title: self.title@,
            description: self.description@,
            colour: self.colour,
            author: self.author@,
            footer: self.footer@,
            image: match self.image {
                Some(u) => Some(u@),
                None => None,
            },
        }
    }
}

/// The colour of every embed the bot posts.
pub open spec fn embed_colour() -> u32 {
    10181046
}

/// The icon shown in every footer.
pub open spec fn github_mark_url() -> Seq<char> {
    "https://github.githubassets.com/images/modules/logos_page/GitHub-Mark.png"@
}

/// The text shown where an issue or comment has no body.
pub open spec fn missing_body_text() -> Seq<char> {
    "Could not find a description"@
}

/// The layout of creation times in footers.
pub open spec fn created_at_layout() -> Seq<char> {
    "%Y-%m-%d (%H:%M:%S)"@
}

/// The text that `chrono` gives for the UTC time `secs` seconds after the Unix epoch, laid out
/// by the strftime-style layout `layout`: `None` where the time is out of `chrono`'s range or
/// the layout is invalid.
pub uninterp spec fn formatted_utc_time(secs: i64, layout: Seq<char>) -> Option<Seq<char>>;

/// Calls `chrono::DateTime::<Utc>::from_timestamp(secs, 0)` and, where that gives a time,
/// writes `format(layout)` of it into a new `String`. The contract claims only that the result is
/// `formatted_utc_time(secs, layout)`, a function of the two arguments alone: it says nothing of
/// the calendar arithmetic or of which layouts are valid.
#[verifier::external_body]
fn format_utc_time(secs: i64, layout: &str) -> (r: Option<String>)
    ensures
        match r {
            Some(t) => formatted_utc_time(secs, layout@) == Some(t@),
            None => formatted_utc_time(secs, layout@) is None,
        },
{
    match chrono::DateTime::<chrono::Utc>::from_timestamp(secs, 0) {
        None => None,
        Some(time) => {
            let mut out = String::new();
            match write!(out, "{}", time.format(layout)) {
                Ok(()) => Some(out),
                Err(_) => None,
            }
        },
    }
}

/// The creation time `secs` as footers show it, `None` where `chrono` cannot lay it out.
pub fn created_at_text(secs: i64) -> (r: Option<String>)
    ensures
        match r {
            Some(t) => formatted_utc_time(secs, created_at_layout()) == Some(t@),
            None => formatted_utc_time(secs, created_at_layout()) is None,
        },
{
    format_utc_time(secs, "%Y-%m-%d (%H:%M:%S)")
}

/// The author line for a GitHub user: the login, linked to the profile, with the avatar.
pub open spec fn author_view(login: Seq<char>, avatar_url: Seq<char>) -> EmbedAuthorView {
    EmbedAuthorView { name: login, url: "https://github.com/"@ + login, icon_url: avatar_url }
}

/// The footer that shows a creation time.
pub open spec fn footer_view(created: Seq<char>) -> EmbedFooterView {
    EmbedFooterView { text: "Created at: "@ + created, icon_url: github_mark_url() }
}

/// The body text shown for an item: the body without `"` at either end, or a fixed text
/// where there is no body.
pub open spec fn body_text(body: Option<Seq<char>>) -> Seq<char> {
    match body {
        Some(b) => trim_char(b, '"'),
        None => missing_body_text(),
    }
}

/// The view of an optional string.
pub open spec fn opt_view(s: Option<String>) -> Option<Seq<char>> {
    match s {
        Some(t) => Some(t@),
        None => None,
    }
}

pub(crate) fn author_of(login: &String, avatar_url: &String) -> (a: EmbedAuthor)
    ensures
        a@ == author_view(login@, avatar_url@),
{
    let mut url = String::from_str("https://github.com/");
    url.append(login.as_str());
    EmbedAuthor { name: login.clone(), url, icon_url: avatar_url.clone() }
}

pub(crate) fn footer_of(created: &str) -> (f: EmbedFooter)
    ensures
        f@ == footer_view(created@),
{
    let mut text = String::from_str("Created at: ");
    text.append(created);
    EmbedFooter {
        text,
        icon_url: String::from_str(
            "https://github.githubassets.com/images/modules/logos_page/GitHub-Mark.png",
        ),
    }
}

/// The body text shown for an item.
pub fn body_text_of(body: &Option<String>) -> (r: String)
    ensures
        r@ == body_text(opt_view(*body)),
{
    match body {
        Some(b) => trim_matching(b.as_str(), '"'),
        None => String::from_str("Could not find a description"),
    }
}

} // verus!
