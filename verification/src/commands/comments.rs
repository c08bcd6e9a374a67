//! `/comments`: shows the recent comments on a pull request.

use vstd::prelude::*;

use crate::commands::{
    option, required_option, text_of, text_value, Choice, CommandSpec, CommandSpecView,
    OptionKind, OptionValue,
};
use crate::embed::{
    author_of, author_view, body_text, body_text_of, created_at_layout, created_at_text,
    embed_colour, footer_of, footer_view, formatted_utc_time, opt_view, Embed, EmbedView,
};
use crate::text::{
    byte_len, decimal_string, decimal_text, ends_with, on_char_boundary, parse_u64, parsed_u64,
    starts_with, truncate_bytes,
};

verus! {

/// Whether the options of a `/comments` command are there: a text.
pub open spec fn comments_options_given(opts: Seq<OptionValue>) -> bool {
    opts.len() >= 1 && text_of(opts[0]) is Some
}

/// The pull request number of a `/comments` command, `None` where its text is no `u64`.
pub fn comments_pr_number(opts: &Vec<OptionValue>) -> (r: Option<u64>)
    requires
        comments_options_given(opts@),
    ensures
        r == parsed_u64(text_of(opts@[0])->0),
{
    parse_u64(text_value(&opts[0]).as_str())
}

/// A comment on an issue or pull request, reduced to what the bot shows.
pub struct CommentItem {
    pub body: Option<String>,
    pub author_login: String,
    pub author_avatar_url: String,
    /// Creation time, in seconds since the Unix epoch (UTC).
    pub created_at: i64,
    /// The debug rendering of the comment's issue link, as shown in the title.
    pub issue_url_text: String,
}

/// The most bytes of a comment body that an embed shows.
pub open spec fn comment_body_limit() -> nat {
    256
}

/// A comment body as shown: the body text cut to its first 256 bytes where it is longer.
pub open spec fn comment_description(body: Option<Seq<char>>) -> Seq<char> {
    let b = body_text(body);
    if byte_len(b) > comment_body_limit() {
        vstd::utf8::decode_utf8(vstd::utf8::encode_utf8(b).take(comment_body_limit() as int))
    } else {
        b
    }
}

/// Whether the body text of a comment can be cut where it must be: where it is longer than
/// 256 bytes, byte 256 falls between two characters.
pub open spec fn comment_body_cuttable(body: Option<Seq<char>>) -> bool {
    let b = body_text(body);
    byte_len(b) > comment_body_limit() ==> on_char_boundary(b, comment_body_limit() as int)
}

/// The title of the embed for a comment on pull request `pr_number`.
pub open spec fn comment_title(pr_number: u64, issue_url_text: Seq<char>) -> Seq<char> {
    "Comment for [#"@ + decimal_text(pr_number as nat) + "]("@ + issue_url_text + ")"@
}

/// The embed for a comment on pull request `pr_number`, given the text of its creation time.
pub open spec fn comment_embed_view(pr_number: u64, item: CommentItem, created: Seq<char>) -> EmbedView {
    EmbedView {
        title: comment_title(pr_number, item.issue_url_text@),
        description: comment_description(opt_view(item.body)),
        colour: embed_colour(),
        author: author_view(item.author_login@, item.author_avatar_url@),
        footer: footer_view(created),
        image: None,
    }
}

/// A comment embed shows at most 256 bytes of the body text, and always a beginning of it:
/// exactly the first 256 bytes where the body text is longer, the whole body text otherwise.
pub proof fn lemma_comment_description_is_bounded_prefix(body: Option<Seq<char>>)
    requires
        comment_body_cuttable(body),
    ensures
        byte_len(body_text(body)) > 256 ==> vstd::utf8::encode_utf8(comment_description(body))
            == vstd::utf8::encode_utf8(body_text(body)).take(256),
        byte_len(body_text(body)) > 256 ==> byte_len(comment_description(body)) == 256,
        byte_len(body_text(body)) <= 256 ==> comment_description(body) == body_text(body),
        byte_len(comment_description(body)) <= comment_body_limit(),
        comment_description(body) == body_text(body).take(comment_description(body).len() as int),
{
    let b = body_text(body);
    let bytes = vstd::utf8::encode_utf8(b);
    if byte_len(b) > comment_body_limit() {
        let cut = bytes.take(256);
        vstd::utf8::encode_utf8_valid_utf8(b);
        vstd::utf8::encode_utf8_decode_utf8(b);
        vstd::utf8::valid_utf8_split(bytes, 256);
        vstd::utf8::decode_utf8_split(bytes, 256);
        assert(bytes.subrange(0, 256) =~= cut);
        vstd::utf8::decode_utf8_encode_utf8(cut);
    } else {
        assert(b =~= b.take(b.len() as int));
    }
}

/// A comment card's title links the pull request's number to the comment's issue link, and the
/// card never shows an image.
pub proof fn lemma_comment_card_parts(pr_number: u64, item: CommentItem, created: Seq<char>)
    ensures
        starts_with(
            comment_embed_view(pr_number, item, created).title,
            "Comment for [#"@ + decimal_text(pr_number as nat) + "]("@,
        ),
        ends_with(comment_embed_view(pr_number, item, created).title, item.issue_url_text@ + ")"@),
        comment_embed_view(pr_number, item, created).image is None,
{
    let head = "Comment for [#"@ + decimal_text(pr_number as nat) + "]("@;
    let tail = item.issue_url_text@ + ")"@;
    let t = comment_title(pr_number, item.issue_url_text@);
    assert(t =~= head + tail);
    assert(t.take(head.len() as int) =~= head);
    assert(t.skip(head.len() as int) =~= tail);
}

/// Whether the body of `item` can be cut where the comment embed cuts it.
pub fn comment_body_fits(item: &CommentItem) -> (r: bool)
    ensures
        r == comment_body_cuttable(opt_view(item.body)),
{
    let body = body_text_of(&item.body);
    let t: &str = body.as_str();
    let n: usize = t.as_bytes().len();
    if n > 256 {
        t.is_char_boundary(256)
    } else {
        true
    }
}

/// The embed for a comment on pull request `pr_number`, with `created` as the text of its
/// creation time.
pub fn comment_embed_at(pr_number: u64, item: &CommentItem, created: &str) -> (e: Embed)
    requires
        comment_body_cuttable(opt_view(item.body)),
    ensures
        e@ == comment_embed_view(pr_number, *item, created@),
{
    let body = body_text_of(&item.body);
    let ghost b = body@;
    let description = truncate_bytes(body, 256);
    proof {
        if byte_len(b) > 256 {
            vstd::utf8::encode_utf8_decode_utf8(description@);
        }
    }
    let mut title = String::from_str("Comment for [#");
    let number = decimal_string(pr_number);
    title.append(number.as_str());
    title.append("](");
    title.append(item.issue_url_text.as_str());
    title.append(")");
    let e = Embed {
        title,
        description,
        colour: 10181046,
        author: author_of(&item.author_login, &item.author_avatar_url),
        footer: footer_of(created),
        image: None,
    };
    assert(e@.title =~= comment_embed_view(pr_number, *item, created@).title);
    e
}

/// The embed for a comment on pull request `pr_number`; `None` where `chrono` cannot lay out
/// its creation time.
pub fn comment_embed(pr_number: u64, item: &CommentItem) -> (r: Option<Embed>)
    requires
        comment_body_cuttable(opt_view(item.body)),
    ensures
        match formatted_utc_time(item.created_at, created_at_layout()) {
            Some(t) => r matches Some(e) && e@ == comment_embed_view(pr_number, *item, t),
            None => r is None,
        },
{
    match created_at_text(item.created_at) {
        Some(t) => Some(comment_embed_at(pr_number, item, t.as_str())),
        None => None,
    }
}

/// `/comments`: the number of a pull request.
pub open spec fn register_view() -> CommandSpecView {
    CommandSpecView {
        name: "comments"@,
        description: "Get comments for a pr"@,
        options: seq![
            required_option(OptionKind::Text, "pr_number"@, "The number of the PR"@, seq![]),
        ],
    }
}

/// The `/comments` command.
pub fn register() -> (c: CommandSpec)
    ensures
        c@ == register_view(),
{
    let mut options = Vec::new();
    let none: Vec<Choice> = Vec::new();
    assert(none@.map_values(|c: Choice| c@) =~= Seq::<(Seq<char>, Seq<char>)>::empty());
    options.push(option(OptionKind::Text, "pr_number", "The number of the PR", none));
    let c = CommandSpec {
        name: String::from_str("comments"),
        description: String::from_str("Get comments for a pr"),
        options,
    };
    assert(c@.options =~= register_view().options);
    c
}

} // verus!
