//! Which command the bot runs for an interaction, and which commands it registers.

use vstd::prelude::*;

use crate::commands::{comments, fetch, ping, search, CommandSpec};
use crate::text::same_text;

verus! {

/// The commands the bot registers, in order.
pub fn registered_commands() -> (v: Vec<CommandSpec>)
    ensures
        v@.map_values(|c: CommandSpec| c@) == seq![
            ping::register_view(),
            search::register_view(),
            comments::register_view(),
            fetch::register_view(),
        ],
{
    let mut v = Vec::new();
    v.push(ping::register());
    v.push(search::register());
    v.push(comments::register());
    v.push(fetch::register());
    assert(v@.map_values(|c: CommandSpec| c@) =~= seq![
        ping::register_view(),
        search::register_view(),
        comments::register_view(),
        fetch::register_view(),
    ]);
    v
}

/// What the bot does with a slash command, by its name.
#[derive(Clone, Copy, Debug, PartialEq, Eq)]
pub enum Route {
    Ping,
    Search,
    Comments,
    Fetch,
    /// Any other name: the bot answers that the command is not implemented.
    Unknown,
}

/// The route of a command named `name`.
pub open spec fn route_of(name: Seq<char>) -> Route {
    if name == "ping"@ {
        Route::Ping
    } else if name == "search"@ {
        Route::Search
    } else if name == "comments"@ {
        Route::Comments
    } else if name == "fetch"@ {
        Route::Fetch
    } else {
        Route::Unknown
    }
}

/// Picks what to do with a slash command named `name`.
pub fn route_command(name: &str) -> (r: Route)
    ensures
        r == route_of(name@),
{
    if same_text(name, "ping") {
        Route::Ping
    } else if same_text(name, "search") {
        Route::Search
    } else if same_text(name, "comments") {
        Route::Comments
    } else if same_text(name, "fetch") {
        Route::Fetch
    } else {
        Route::Unknown
    }
}

/// Each command that the bot registers is routed to its own handler, never answered as unknown.
pub proof fn lemma_registered_commands_are_routed()
    ensures
        route_of(ping::register_view().name) == Route::Ping,
        route_of(search::register_view().name) == Route::Search,
        route_of(comments::register_view().name) == Route::Comments,
        route_of(fetch::register_view().name) == Route::Fetch,
{
    reveal_strlit("ping");
    reveal_strlit("search");
    reveal_strlit("comments");
    reveal_strlit("fetch");
    assert("search"@.len() != "ping"@.len());
    assert("comments"@.len() != "ping"@.len() && "comments"@.len() != "search"@.len());
    assert("fetch"@.len() != "ping"@.len() && "fetch"@.len() != "search"@.len() && "fetch"@.len()
        != "comments"@.len());
}

/// The answer to a command that the bot does not know.
pub fn not_implemented_reply() -> (s: String)
    ensures
        s@ == "Command not implemented"@,
{
    String::from_str("Command not implemented")
}

} // verus!
