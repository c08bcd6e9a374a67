use issue_bot::commands::{comments, fetch, ping, search, OptionKind};
use issue_bot::dispatch::{not_implemented_reply, registered_commands, route_command, Route};
use issue_bot::handle_interaction::delivery_error_text;

#[test]
fn search_command_shape() {
    let c = search::register();
    assert_eq!(c.name, "search");
    assert_eq!(c.description, "Search for github issues/pull requests");
    assert_eq!(c.options.len(), 3);
    assert_eq!(c.options[0].name, "status");
    assert_eq!(c.options[0].description, "Search Status");
    assert_eq!(c.options[0].choices.len(), 2);
    assert_eq!(c.options[0].choices[0].name, "open");
    assert_eq!(c.options[0].choices[1].value, "closed");
    assert_eq!(c.options[1].name, "type");
    assert_eq!(c.options[1].choices[1].name, "pull requests");
    assert_eq!(c.options[2].name, "query");
    assert!(c.options[2].choices.is_empty());
    assert!(c.options.iter().all(|o| o.required && o.kind == OptionKind::Text));
}

#[test]
fn fetch_command_shape() {
    let c = fetch::register();
    assert_eq!(c.name, "fetch");
    assert_eq!(c.description, "Fetch a github issue/pull request");
    assert_eq!(c.options[0].description, "Search for issues or pull requests");
    assert_eq!(c.options[0].choices[0].value, "issues");
    assert_eq!(c.options[1].name, "#");
    assert_eq!(c.options[1].kind, OptionKind::Integer);
    assert_eq!(c.options[1].description, "The issue/pr number");
}

#[test]
fn comments_and_ping_command_shape() {
    let c = comments::register();
    assert_eq!(c.name, "comments");
    assert_eq!(c.description, "Get comments for a pr");
    assert_eq!(c.options[0].name, "pr_number");
    assert_eq!(c.options[0].description, "The number of the PR");
    let p = ping::register();
    assert_eq!(p.name, "ping");
    assert!(p.options.is_empty());
    let names: Vec<String> = registered_commands().into_iter().map(|c| c.name).collect();
    assert_eq!(names, vec!["ping", "search", "comments", "fetch"]);
}

#[test]
fn routes_by_name() {
    assert_eq!(route_command("ping"), Route::Ping);
    assert_eq!(route_command("search"), Route::Search);
    assert_eq!(route_command("comments"), Route::Comments);
    assert_eq!(route_command("fetch"), Route::Fetch);
    assert_eq!(route_command("Fetch"), Route::Unknown);
    assert_eq!(route_command(""), Route::Unknown);
}

#[test]
fn fixed_replies() {
    assert_eq!(not_implemented_reply(), "Command not implemented");
    assert_eq!(ping::run(&Vec::new()), "Hey, I'm alive!");
    assert_eq!(delivery_error_text(), "Error finding issues/prs");
}
