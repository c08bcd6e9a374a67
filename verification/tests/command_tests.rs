use issue_bot::commands::comments::comments_pr_number;
use issue_bot::commands::fetch::{fetch_ack, fetch_args, record_fetch, FetchArgs};
use issue_bot::commands::search::{
    collect_search_results, github_search, search_ack, search_args, search_reply, MenuOption,
    SearchArgs, SearchItem, SearchReply,
};
use issue_bot::commands::{tracked_repository, OptionValue};
use issue_bot::utils::handler::{ContextMap, HashContext};
use issue_bot::text::parse_u64;

fn text(s: &str) -> OptionValue {
    OptionValue::Text(s.to_string())
}

#[test]
fn search_options_are_read_in_order() {
    let a = search_args(&vec![text("open"), text("issues"), text("crash")]);
    assert!(a.open && a.issue);
    assert_eq!(a.query, "crash");
    let b = search_args(&vec![text("closed"), text("pull requests"), text("x")]);
    assert!(!b.open && !b.issue);
}

#[test]
fn search_ack_and_query() {
    let a = SearchArgs { open: true, issue: false, query: "login bug".to_string() };
    assert_eq!(search_ack(&a), "Searching for pull requests open with: login bug");
    let s = github_search(&a);
    assert_eq!(s.query, "user:Fallenbagel repo:jellyseerr type:pr is:open login bug");
    assert_eq!(s.sort, "comments");
    assert_eq!(s.order, "desc");
    let b = SearchArgs { open: false, issue: true, query: "q".to_string() };
    assert_eq!(search_ack(&b), "Searching for issues closed with: q");
    assert_eq!(
        github_search(&b).query,
        "user:Fallenbagel repo:jellyseerr type:issue is:closed q"
    );
}

fn items(numbers: &[u64]) -> Vec<SearchItem> {
    numbers
        .iter()
        .map(|n| SearchItem { number: *n, title: format!("title {}", n) })
        .collect()
}

#[test]
fn search_results_stop_at_zero() {
    let mut m = ContextMap::new();
    let opts = collect_search_results(&items(&[5, 9, 0, 12]), true, &mut m);
    assert_eq!(opts.len(), 2);
    assert_eq!(opts[0].label, "title 5");
    assert_eq!(opts[0].value, "5");
    assert_eq!(opts[1].value, "9");
    assert_eq!(m.get(9), Some(HashContext { is_issue: true }));
    assert_eq!(m.get(12), None);
    assert_eq!(m.len(), 2);
}

#[test]
fn search_results_hold_at_most_25() {
    let numbers: Vec<u64> = (1..=40).collect();
    let mut m = ContextMap::new();
    let opts = collect_search_results(&items(&numbers), false, &mut m);
    assert_eq!(opts.len(), 25);
    assert_eq!(opts[24].value, "25");
    assert_eq!(m.get(25), Some(HashContext { is_issue: false }));
    assert_eq!(m.get(26), None);
    for o in &opts {
        let n = parse_u64(&o.value).unwrap();
        assert_eq!(m.get(n), Some(HashContext { is_issue: false }));
    }
}

#[test]
fn search_reply_without_results() {
    match search_reply(Vec::new(), true) {
        SearchReply::NoResults { content, tts } => {
            assert_eq!(content, "No results found");
            assert!(!tts);
        }
        SearchReply::Menu { .. } => panic!("expected no results"),
    }
}

#[test]
fn search_reply_with_menu() {
    let o = vec![MenuOption { label: "a".to_string(), value: "1".to_string() }];
    match search_reply(o, false) {
        SearchReply::Menu { content, custom_id, options } => {
            assert_eq!(content, "Select a pull request");
            assert_eq!(custom_id, "search_results");
            assert_eq!(options.len(), 1);
        }
        SearchReply::NoResults { .. } => panic!("expected a menu"),
    }
    match search_reply(vec![MenuOption { label: "b".to_string(), value: "2".to_string() }], true) {
        SearchReply::Menu { content, .. } => assert_eq!(content, "Select an issue"),
        SearchReply::NoResults { .. } => panic!("expected a menu"),
    }
}

#[test]
fn fetch_options_and_ack() {
    let a = fetch_args(&vec![text("issues"), OptionValue::Integer(123)]);
    assert!(a.issue);
    assert_eq!(a.number, 123);
    assert_eq!(fetch_ack(&a), "Fetching issue #123");
    let b = fetch_args(&vec![text("pull requests"), OptionValue::Integer(-1)]);
    assert!(!b.issue);
    assert_eq!(b.number, u64::MAX);
    assert_eq!(fetch_ack(&FetchArgs { issue: false, number: 7 }), "Fetching pull request #7");
}

#[test]
fn fetch_records_and_finds_context() {
    let mut m = ContextMap::new();
    let a = FetchArgs { issue: false, number: 99 };
    assert_eq!(record_fetch(&a, &mut m), Some(HashContext { is_issue: false }));
    assert_eq!(m.get(99), Some(HashContext { is_issue: false }));
}

#[test]
fn comments_number_parses_text() {
    assert_eq!(comments_pr_number(&vec![text("1234")]), Some(1234));
    assert_eq!(comments_pr_number(&vec![text("#12")]), None);
    assert_eq!(comments_pr_number(&vec![text("")]), None);
}

#[test]
fn repository_is_fixed() {
    let r = tracked_repository();
    assert_eq!(r.owner, "Fallenbagel");
    assert_eq!(r.name, "jellyseerr");
}
