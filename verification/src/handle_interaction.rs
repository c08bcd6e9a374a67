//! The card for one issue or pull request.

use vstd::prelude::*;

use crate::embed::{
    author_of, author_view, body_text, body_text_of, created_at_layout, created_at_text,
    embed_colour, footer_of, footer_view, formatted_utc_time, opt_view, Embed, EmbedView,
};
use crate::markdown::{
    collapse_blank_lines, demote_h4_headings, first_image_url, first_image_url_spec, shift_h4,
    squeeze_newlines,
};
use crate::text::{decimal_string, decimal_text, ends_with, starts_with};

verus! {

/// An issue or pull request as GitHub returns it, reduced to what the bot shows.
pub struct IssuePage {
    pub number: u64,
    pub title: String,
    pub html_url: String,
    pub body: Option<String>,
    pub author_login: String,
    pub author_avatar_url: String,
    /// Creation time, in seconds since the Unix epoch (UTC).
    pub created_at: i64,
}

/// An issue body as shown: without surrounding quotes, blank lines collapsed and level-four
/// headings made level three.
pub open spec fn sanitized_body(body: Option<Seq<char>>) -> Seq<char> {
    shift_h4(squeeze_newlines(body_text(body), false))
}

/// The title of the embed for an issue (`Issue #n`) or pull request (`PR #n`).
pub open spec fn issue_title(is_issue: bool, number: u64) -> Seq<char> {
    (if is_issue {
        "Issue"@
    } else {
        "PR"@
    }) + " #"@ + decimal_text(number as nat)
}

/// The description of the embed for an issue: a heading that links to it, then its body.
pub open spec fn issue_description(title: Seq<char>, url: Seq<char>, body: Seq<char>) -> Seq<
    char,
> {
    "### ["@ + title + "]("@ + url + ")\n"@ + body
}

/// The embed for an issue or pull request, given the text of its creation time.
pub open spec fn issue_embed_view(page: IssuePage, is_issue: bool, created: Seq<char>) -> EmbedView {
    let body = sanitized_body(opt_view(page.body));
    EmbedView {
        title: issue_title(is_issue, page.number),
        description: issue_description(page.title@, page.html_url@, body),
        colour: embed_colour(),
        author: author_view(page.author_login@, page.author_avatar_url@),
        footer: footer_view(created),
        image: first_image_url_spec(body),
    }
}

/// The card's image does not depend on whether the item is an issue or a pull request: both
/// cards show the first Markdown image of the sanitized body, where it has one.
pub proof fn lemma_image_ignores_item_type(page: IssuePage, created: Seq<char>)
    ensures
        issue_embed_view(page, false, created).image == issue_embed_view(page, true, created).image,
        issue_embed_view(page, false, created).image == first_image_url_spec(
            sanitized_body(opt_view(page.body)),
        ),
{
}

/// The card's title names the item type from `is_issue` alone and ends with its number; its
/// description opens with a heading that links the item's title to its url and ends with the
/// sanitized body.
pub proof fn lemma_issue_card_parts(page: IssuePage, is_issue: bool, created: Seq<char>)
    ensures
        is_issue ==> starts_with(issue_embed_view(page, is_issue, created).title, "Issue #"@),
        !is_issue ==> starts_with(issue_embed_view(page, is_issue, created).title, "PR #"@),
        ends_with(
            issue_embed_view(page, is_issue, created).title,
            "#"@ + decimal_text(page.number as nat),
        ),
        starts_with(
            issue_embed_view(page, is_issue, created).description,
            "### ["@ + page.title@ + "]("@ + page.html_url@ + ")\n"@,
        ),
        ends_with(
            issue_embed_view(page, is_issue, created).description,
            sanitized_body(opt_view(page.body)),
        ),
{
    reveal_strlit("Issue");
    reveal_strlit("PR");
    reveal_strlit(" #");
    reveal_strlit("#");
    reveal_strlit("Issue #");
    reveal_strlit("PR #");
    let t = issue_title(is_issue, page.number);
    let kind = if is_issue {
        "Issue"@
    } else {
        "PR"@
    };
    let digits = decimal_text(page.number as nat);
    assert(t =~= kind + " #"@ + digits);
    if is_issue {
        assert(kind + " #"@ =~= "Issue #"@);
    } else {
        assert(kind + " #"@ =~= "PR #"@);
    }
    assert(t.take((kind.len() + 2) as int) =~= kind + " #"@);
    assert(t.skip((kind.len() + 1) as int) =~= "#"@ + digits);
    let head = "### ["@ + page.title@ + "]("@ + page.html_url@ + ")\n"@;
    let body = sanitized_body(opt_view(page.body));
    let d = issue_description(page.title@, page.html_url@, body);
    assert(d =~= head + body);
    assert(d.take(head.len() as int) =~= head);
    assert(d.skip(head.len() as int) =~= body);
}

/// The embed for an issue (`is_issue`) or pull request, with `created` as the text of its
/// creation time.
pub fn issue_embed_at(page: &IssuePage, is_issue: bool, created: &str) -> (e: Embed)
    ensures
        e@ == issue_embed_view(*page, is_issue, created@),
{
    let body = body_text_of(&page.body);
    let collapsed = collapse_blank_lines(body.as_str());
    let sanitized = demote_h4_headings(collapsed.as_str());
    let image = first_image_url(sanitized.as_str());
    let mut title = if is_issue {
        String::from_str("Issue")
    } else {
        String::from_str("PR")
    };
    title.append(" #");
    let number = decimal_string(page.number);
    title.append(number.as_str());
    let mut description = String::from_str("### [");
    description.append(page.title.as_str());
    description.append("](");
    description.append(page.html_url.as_str());
    description.append(")\n");
    description.append(sanitized.as_str());
    let e = Embed {
        title,
        description,
        colour: 10181046,
        author: author_of(&page.author_login, &page.author_avatar_url),
        footer: footer_of(created),
        image,
    };
    assert(e@.title =~= issue_embed_view(*page, is_issue, created@).title);
    assert(e@.description =~= issue_embed_view(*page, is_issue, created@).description);
    e
}

/// The embed for an issue (`is_issue`) or pull request; `None` where `chrono` cannot lay out
/// its creation time.
pub fn issue_embed(page: &IssuePage, is_issue: bool) -> (r: Option<Embed>)
    ensures
        match formatted_utc_time(page.created_at, created_at_layout()) {
            Some(t) => r matches Some(e) && e@ == issue_embed_view(*page, is_issue, t),
            None => r is None,
        },
{
    match created_at_text(page.created_at) {
        Some(t) => Some(issue_embed_at(page, is_issue, t.as_str())),
        None => None,
    }
}

/// The message posted where an embed could not be delivered.
pub fn delivery_error_text() -> (s: String)
    ensures
        s@ == "Error finding issues/prs"@,
{
    String::from_str("Error finding issues/prs")
}

} // verus!
