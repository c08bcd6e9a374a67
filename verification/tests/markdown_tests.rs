use issue_bot::markdown::{collapse_blank_lines, demote_h4_headings, first_image_url};
use regex::Regex;

const SAMPLES: &[&str] = &[
    "",
    "a\nb",
    "a\n\nb",
    "a\n\n\n\nb\n\nc\n",
    "\n\n\nstart",
    "end\n\n",
    "\r\n\r\n",
    "#### Title\n\n##### Sub\n###### Deep",
    "####",
    "#####",
    "########",
    "#########",
    "![alt](http://x/img.png)",
    "text ![a](u1) and ![b](u2)",
    "![a](u1\n) ![b](u2)",
    "![a\n](u1) ![b](u2)",
    "![a](b) c](d)",
    "![x]](y)",
    "![x](y(z))",
    "!![x](y)",
    "![x] (y) ![z](w)",
    "![x](",
    "![]()",
    "![a](b ![c](d)",
    "![a]b](c)",
    "![a](b\n![c](d)",
    "üñí ![ç](ø) ∂",
];

#[test]
fn collapse_matches_regex() {
    let re = Regex::new(r"\n{2,}").unwrap();
    for s in SAMPLES {
        assert_eq!(collapse_blank_lines(s), re.replace_all(s, "\n"), "input {:?}", s);
    }
}

#[test]
fn demote_matches_regex() {
    let re = Regex::new(r"(?m)####").unwrap();
    for s in SAMPLES {
        assert_eq!(demote_h4_headings(s), re.replace_all(s, "###"), "input {:?}", s);
    }
}

#[test]
fn first_image_matches_regex() {
    let re = Regex::new(r"!\[.*?\]\((.*?)\)").unwrap();
    for s in SAMPLES {
        let expected = re
            .captures(s)
            .and_then(|c| c.get(1))
            .map(|m| m.as_str().to_string());
        assert_eq!(first_image_url(s), expected, "input {:?}", s);
    }
}

#[test]
fn collapse_examples() {
    assert_eq!(collapse_blank_lines("a\n\n\nb\nc"), "a\nb\nc");
    assert_eq!(collapse_blank_lines("no breaks"), "no breaks");
}

#[test]
fn demote_examples() {
    assert_eq!(demote_h4_headings("#### Steps"), "### Steps");
    assert_eq!(demote_h4_headings("##### Five"), "#### Five");
    assert_eq!(demote_h4_headings("### Three"), "### Three");
}

#[test]
fn first_image_examples() {
    assert_eq!(
        first_image_url("see ![shot](https://i.example/a.png) here"),
        Some("https://i.example/a.png".to_string())
    );
    assert_eq!(first_image_url("[link](https://example.com)"), None);
    assert_eq!(first_image_url("![a](b) ![c](d)"), Some("b".to_string()));
}
