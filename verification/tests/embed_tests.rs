use issue_bot::commands::comments::{
    comment_body_fits, comment_embed, comment_embed_at, CommentItem,
};
use issue_bot::embed::{body_text_of, created_at_text};
use issue_bot::handle_interaction::{issue_embed, issue_embed_at, IssuePage};

fn page(body: Option<&str>) -> IssuePage {
    IssuePage {
        number: 42,
        title: "Crash on start".to_string(),
        html_url: "https://github.com/Fallenbagel/jellyseerr/issues/42".to_string(),
        body: body.map(|b| b.to_string()),
        author_login: "octo".to_string(),
        author_avatar_url: "https://avatars.example/octo".to_string(),
        created_at: 1_700_000_000,
    }
}

fn comment(body: Option<String>) -> CommentItem {
    CommentItem {
        body,
        author_login: "cat".to_string(),
        author_avatar_url: "https://avatars.example/cat".to_string(),
        created_at: 0,
        issue_url_text: "Some(\n    Url,\n)".to_string(),
    }
}

#[test]
fn created_at_layout() {
    assert_eq!(created_at_text(0), Some("1970-01-01 (00:00:00)".to_string()));
    assert_eq!(created_at_text(1_700_000_000), Some("2023-11-14 (22:13:20)".to_string()));
    assert_eq!(created_at_text(i64::MAX), None);
}

#[test]
fn body_text_defaults_and_trims() {
    assert_eq!(body_text_of(&None), "Could not find a description");
    assert_eq!(body_text_of(&Some("\"quoted\"".to_string())), "quoted");
}

#[test]
fn issue_embed_fields() {
    let p = page(Some("\"Steps:\n\n\n#### Logs\n![shot](https://i.example/s.png)\""));
    let e = issue_embed_at(&p, true, "2024-01-02 (03:04:05)");
    assert_eq!(e.title, "Issue #42");
    assert_eq!(
        e.description,
        "### [Crash on start](https://github.com/Fallenbagel/jellyseerr/issues/42)\nSteps:\n### Logs\n![shot](https://i.example/s.png)"
    );
    assert_eq!(e.colour, 10181046);
    assert_eq!(e.author.name, "octo");
    assert_eq!(e.author.url, "https://github.com/octo");
    assert_eq!(e.author.icon_url, "https://avatars.example/octo");
    assert_eq!(e.footer.text, "Created at: 2024-01-02 (03:04:05)");
    assert_eq!(
        e.footer.icon_url,
        "https://github.githubassets.com/images/modules/logos_page/GitHub-Mark.png"
    );
    assert_eq!(e.image, Some("https://i.example/s.png".to_string()));
}

#[test]
fn pull_request_embed_without_body() {
    let e = issue_embed_at(&page(None), false, "t");
    assert_eq!(e.title, "PR #42");
    assert!(e.description.ends_with(")\nCould not find a description"));
    assert_eq!(e.image, None);
}

#[test]
fn issue_embed_formats_time() {
    let e = issue_embed(&page(None), true).unwrap();
    assert_eq!(e.footer.text, "Created at: 2023-11-14 (22:13:20)");
    let mut far = page(None);
    far.created_at = i64::MIN;
    assert!(issue_embed(&far, true).is_none());
}

#[test]
fn comment_embed_fields() {
    let c = comment(Some("\"Looks good\"".to_string()));
    let e = comment_embed_at(17, &c, "when");
    assert_eq!(e.title, "Comment for [#17](Some(\n    Url,\n))");
    assert_eq!(e.description, "Looks good");
    assert_eq!(e.author.url, "https://github.com/cat");
    assert_eq!(e.footer.text, "Created at: when");
    assert_eq!(e.image, None);
    let timed = comment_embed(17, &c).unwrap();
    assert_eq!(timed.footer.text, "Created at: 1970-01-01 (00:00:00)");
}

#[test]
fn comment_body_is_cut_to_256_bytes() {
    let c = comment(Some("z".repeat(400)));
    assert!(comment_body_fits(&c));
    let e = comment_embed_at(1, &c, "t");
    assert_eq!(e.description, "z".repeat(256));
}

#[test]
fn comment_body_cut_inside_character_is_refused() {
    // 255 ASCII bytes, then a two-byte character over byte 256.
    let c = comment(Some(format!("{}é", "a".repeat(255))));
    assert!(!comment_body_fits(&c));
    let short = comment(Some("é".repeat(10)));
    assert!(comment_body_fits(&short));
}
