//! `/search`: finds issues or pull requests and offers them in a select menu.

use vstd::prelude::*;

use crate::commands::{
    option, required_option, status_choice_list, status_choices, text_of, text_value,
    type_choice_list, type_choices, Choice, CommandSpec, CommandSpecView, OptionKind, OptionValue,
};
use crate::text::{
    decimal_string, decimal_text, ends_with, lemma_parse_decimal_roundtrip, parsed_u64,
    same_text, starts_with,
};
use crate::utils::handler::{lookup, ContextMap, HashContext};
use crate::utils::search_type::{search_status_text, search_type_text, SearchStatus, SearchType};

verus! {

/// What a `/search` command asks for.
pub struct SearchArgs {
    /// Open (or else closed) items.
    pub open: bool,
    /// Issues (or else pull requests).
    pub issue: bool,
    /// The words to search for.
    pub query: String,
}

/// Whether the options of a `/search` command are there: three texts.
pub open spec fn search_options_given(opts: Seq<OptionValue>) -> bool {
    &&& opts.len() >= 3
    &&& text_of(opts[0]) is Some
    &&& text_of(opts[1]) is Some
    &&& text_of(opts[2]) is Some
}

/// The options of a `/search` command: status, type and query, in that order. A status other
/// than `open` means closed; a type other than `issues` means pull requests.
pub fn search_args(opts: &Vec<OptionValue>) -> (a: SearchArgs)
    requires
        search_options_given(opts@),
    ensures
        a.open == (text_of(opts@[0]) == Some(search_status_text(SearchStatus::Open))),
        a.issue == (text_of(opts@[1]) == Some(search_type_text(SearchType::Issues))),
        text_of(opts@[2]) == Some(a.query@),
{
    let open = same_text(text_value(&opts[0]).as_str(), SearchStatus::Open.as_str());
    let issue = same_text(text_value(&opts[1]).as_str(), SearchType::Issues.as_str());
    let query = text_value(&opts[2]).clone();
    SearchArgs { open, issue, query }
}

/// The reply that acknowledges a `/search` command.
pub open spec fn search_ack_view(open: bool, issue: bool, query: Seq<char>) -> Seq<char> {
    "Searching for "@ + (if issue {
        "issues"@
    } else {
        "pull requests"@
    }) + " "@ + (if open {
        "open"@
    } else {
        "closed"@
    }) + " with: "@ + query
}

/// The acknowledgement names the item type from `issue` alone and the state from `open`
/// alone, and ends with the query.
pub proof fn lemma_search_ack_parts(open: bool, issue: bool, query: Seq<char>)
    ensures
        issue ==> starts_with(search_ack_view(open, issue, query), "Searching for issues "@),
        !issue ==> starts_with(search_ack_view(open, issue, query), "Searching for pull requests "@),
        open ==> ends_with(search_ack_view(open, issue, query), " open with: "@ + query),
        !open ==> ends_with(search_ack_view(open, issue, query), " closed with: "@ + query),
{
    reveal_strlit("Searching for ");
    reveal_strlit("issues");
    reveal_strlit("pull requests");
    reveal_strlit(" ");
    reveal_strlit("open");
    reveal_strlit("closed");
    reveal_strlit(" with: ");
    reveal_strlit("Searching for issues ");
    reveal_strlit("Searching for pull requests ");
    reveal_strlit(" open with: ");
    reveal_strlit(" closed with: ");
    let r = search_ack_view(open, issue, query);
    let head = "Searching for "@ + (if issue {
        "issues"@
    } else {
        "pull requests"@
    }) + " "@;
    let tail = (if open {
        "open"@
    } else {
        "closed"@
    }) + " with: "@ + query;
    assert(r =~= head + tail);
    if issue {
        assert(head =~= "Searching for issues "@);
    } else {
        assert(head =~= "Searching for pull requests "@);
    }
    assert(r.take(head.len() as int) =~= head);
    if open {
        assert(" "@ + tail =~= " open with: "@ + query);
    } else {
        assert(" "@ + tail =~= " closed with: "@ + query);
    }
    assert(r.skip(head.len() - 1) =~= " "@ + tail);
}

/// The reply that acknowledges a `/search` command.
pub fn search_ack(args: &SearchArgs) -> (r: String)
    ensures
        r@ == search_ack_view(args.open, args.issue, args.query@),
{
    let mut r = String::from_str("Searching for ");
    r.append(if args.issue { "issues" } else { "pull requests" });
    r.append(" ");
    r.append(if args.open { "open" } else { "closed" });
    r.append(" with: ");
    r.append(args.query.as_str());
    r
}

/// A search of GitHub issues and pull requests.
pub struct GithubSearch {
    pub query: String,
    pub sort: String,
    pub order: String,
}

/// The GitHub search query for a `/search` command, restricted to the bot's repository.
pub open spec fn github_query_view(open: bool, issue: bool, query: Seq<char>) -> Seq<char> {
    "user:Fallenbagel repo:jellyseerr "@ + (if issue {
        "type:issue"@
    } else {
        "type:pr"@
    }) + " "@ + (if open {
        "is:open"@
    } else {
        "is:closed"@
    }) + " "@ + query
}

/// The query's type filter depends on `issue` alone and its state filter on `open` alone; it
/// starts with the repository filter and ends with the words searched for.
pub proof fn lemma_github_query_parts(open: bool, issue: bool, query: Seq<char>)
    ensures
        issue ==> starts_with(
            github_query_view(open, issue, query),
            "user:Fallenbagel repo:jellyseerr type:issue "@,
        ),
        !issue ==> starts_with(
            github_query_view(open, issue, query),
            "user:Fallenbagel repo:jellyseerr type:pr "@,
        ),
        open ==> ends_with(github_query_view(open, issue, query), " is:open "@ + query),
        !open ==> ends_with(github_query_view(open, issue, query), " is:closed "@ + query),
{
    reveal_strlit("user:Fallenbagel repo:jellyseerr ");
    reveal_strlit("type:issue");
    reveal_strlit("type:pr");
    reveal_strlit(" ");
    reveal_strlit("is:open");
    reveal_strlit("is:closed");
    reveal_strlit("user:Fallenbagel repo:jellyseerr type:issue ");
    reveal_strlit("user:Fallenbagel repo:jellyseerr type:pr ");
    reveal_strlit(" is:open ");
    reveal_strlit(" is:closed ");
    let r = github_query_view(open, issue, query);
    let head = "user:Fallenbagel repo:jellyseerr "@ + (if issue {
        "type:issue"@
    } else {
        "type:pr"@
    }) + " "@;
    let tail = (if open {
        "is:open"@
    } else {
        "is:closed"@
    }) + " "@ + query;
    assert(r =~= head + tail);
    if issue {
        assert(head =~= "user:Fallenbagel repo:jellyseerr type:issue "@);
    } else {
        assert(head =~= "user:Fallenbagel repo:jellyseerr type:pr "@);
    }
    assert(r.take(head.len() as int) =~= head);
    if open {
        assert(" "@ + tail =~= " is:open "@ + query);
    } else {
        assert(" "@ + tail =~= " is:closed "@ + query);
    }
    assert(r.skip(head.len() - 1) =~= " "@ + tail);
}

/// The GitHub search for a `/search` command: its query, most commented first.
pub fn github_search(args: &SearchArgs) -> (s: GithubSearch)
    ensures
        s.query@ == github_query_view(args.open, args.issue, args.query@),
        s.sort@ == "comments"@,
        s.order@ == "desc"@,
{
    let mut q = String::from_str("user:Fallenbagel repo:jellyseerr ");
    q.append(if args.issue { "type:issue" } else { "type:pr" });
    q.append(" ");
    q.append(if args.open { "is:open" } else { "is:closed" });
    q.append(" ");
    q.append(args.query.as_str());
    GithubSearch { query: q, sort: String::from_str("comments"), order: String::from_str("desc") }
}

/// One issue or pull request that a search found.
pub struct SearchItem {
    pub number: u64,
    pub title: String,
}

/// One choice of a select menu: the text shown and the value sent back when it is picked.
pub struct MenuOption {
    pub label: String,
    pub value: String,
}

/// The most choices that a select menu holds.
pub open spec fn menu_limit() -> nat {
    25
}

/// How many items come before the first one numbered 0.
pub open spec fn nonzero_prefix(items: Seq<SearchItem>) -> nat
    decreases items.len(),
{
    if items.len() == 0 || items[0].number == 0 {
        0
    } else {
        1 + nonzero_prefix(items.drop_first())
    }
}

/// How many of the found items a search offers: those before the first one numbered 0, and at
/// most 25.
pub open spec fn offered_count(items: Seq<SearchItem>) -> nat {
    if nonzero_prefix(items) < menu_limit() {
        nonzero_prefix(items)
    } else {
        menu_limit()
    }
}

/// `m` after remembering, for each of `items` in turn, that its number names an issue
/// (`is_issue`) or a pull request.
pub open spec fn remember_all(m: Map<u64, HashContext>, items: Seq<SearchItem>, is_issue: bool) -> Map<
    u64,
    HashContext,
>
    decreases items.len(),
{
    if items.len() == 0 {
        m
    } else {
        remember_all(m, items.drop_last(), is_issue).insert(
            items.last().number,
            HashContext { is_issue },
        )
    }
}

/// Whether `opts` are the menu choices for the first `opts.len()` of `items`: each shows the
/// title and sends back the number in decimal.
pub open spec fn choices_for(opts: Seq<MenuOption>, items: Seq<SearchItem>) -> bool {
    &&& opts.len() <= items.len()
    &&& forall|i: int|
        0 <= i < opts.len() ==> {
            &&& (#[trigger] opts[i]).label@ == items[i].title@
            &&& opts[i].value@ == decimal_text(items[i].number as nat)
        }
}

proof fn lemma_nonzero_prefix(items: Seq<SearchItem>, i: int)
    requires
        0 <= i <= items.len(),
        forall|k: int| 0 <= k < i ==> (#[trigger] items[k]).number != 0,
    ensures
        i == items.len() || items[i].number == 0 ==> nonzero_prefix(items) == i,
        nonzero_prefix(items) >= i,
    decreases i,
{
    if i > 0 {
        assert forall|k: int| 0 <= k < i - 1 implies (#[trigger] items.drop_first()[k]).number
            != 0 by {
            assert(items.drop_first()[k] == items[k + 1]);
        }
        lemma_nonzero_prefix(items.drop_first(), i - 1);
    }
}

/// Turns the found items into select-menu choices, at most 25 and stopping at the first item
/// numbered 0, and remembers for each offered number whether the search was for issues.
pub fn collect_search_results(items: &Vec<SearchItem>, issue: bool, contexts: &mut ContextMap) -> (opts: Vec<MenuOption>)
    ensures
        opts.len() == offered_count(items@),
        choices_for(opts@, items@),
        final(contexts)@ == remember_all(old(contexts)@, items@.take(opts.len() as int), issue),
{
    let mut opts: Vec<MenuOption> = Vec::new();
    let mut i: usize = 0;
    let ghost start = contexts@;
    while i < items.len()
        invariant
            i <= items.len(),
            i < menu_limit(),
            start == old(contexts)@,
            opts.len() == i,
            forall|k: int| 0 <= k < i ==> (#[trigger] items@[k]).number != 0,
            choices_for(opts@, items@),
            contexts@ == remember_all(start, items@.take(i as int), issue),
        decreases items.len() - i,
    {
        if items[i].number == 0 {
            proof {
                lemma_nonzero_prefix(items@, i as int);
            }
            return opts;
        }
        let number = items[i].number;
        contexts.insert(number, HashContext { is_issue: issue });
        proof {
            assert(items@.take(i + 1).drop_last() =~= items@.take(i as int));
        }
        opts.push(MenuOption { label: items[i].title.clone(), value: decimal_string(number) });
        i = i + 1;
        if opts.len() >= 25 {
            proof {
                lemma_nonzero_prefix(items@, i as int);
            }
            return opts;
        }
    }
    proof {
        lemma_nonzero_prefix(items@, i as int);
    }
    opts
}

proof fn lemma_remember_all_has(m: Map<u64, HashContext>, items: Seq<SearchItem>, is_issue: bool, i: int)
    requires
        0 <= i < items.len(),
    ensures
        lookup(remember_all(m, items, is_issue), items[i].number) == Some(HashContext { is_issue }),
    decreases items.len(),
{
    if i < items.len() - 1 && items[i].number != items.last().number {
        assert(items.drop_last()[i] == items[i]);
        lemma_remember_all_has(m, items.drop_last(), is_issue, i);
    }
}

/// Every choice that a search offers can be picked back: its value parses to the number of the
/// item it shows, and after the search that number is remembered with the search's type.
pub proof fn lemma_offered_choices_resolve(
    m: Map<u64, HashContext>,
    items: Seq<SearchItem>,
    opts: Seq<MenuOption>,
    is_issue: bool,
)
    requires
        choices_for(opts, items),
    ensures
        forall|i: int|
            0 <= i < opts.len() ==> {
                &&& parsed_u64((#[trigger] opts[i]).value@) == Some(items[i].number)
                &&& lookup(remember_all(m, items.take(opts.len() as int), is_issue), items[i].number)
                    == Some(HashContext { is_issue })
            },
{
    assert forall|i: int| 0 <= i < opts.len() implies {
        &&& parsed_u64((#[trigger] opts[i]).value@) == Some(items[i].number)
        &&& lookup(remember_all(m, items.take(opts.len() as int), is_issue), items[i].number)
            == Some(HashContext { is_issue })
    } by {
        lemma_parse_decimal_roundtrip(items[i].number);
        assert(items.take(opts.len() as int)[i] == items[i]);
        lemma_remember_all_has(m, items.take(opts.len() as int), is_issue, i);
    }
}

/// What a search answers with once it has the results.
pub enum SearchReply {
    /// Nothing was found: a plain message.
    NoResults { content: String, tts: bool },
    /// A select menu of what was found.
    Menu { content: String, custom_id: String, options: Vec<MenuOption> },
}

/// The prompt above the select menu of a search.
pub open spec fn menu_prompt(issue: bool) -> Seq<char> {
    "Select "@ + (if issue {
        "an issue"@
    } else {
        "a pull request"@
    })
}

/// The answer of a search with choices `options`: a select menu, or a fixed message where
/// there are none.
pub fn search_reply(options: Vec<MenuOption>, issue: bool) -> (r: SearchReply)
    ensures
        options.len() == 0 ==> (r matches SearchReply::NoResults { content, tts } && content@
            == "No results found"@ && !tts),
        options.len() > 0 ==> (r matches SearchReply::Menu { content, custom_id, options: o }
            && content@ == menu_prompt(issue) && custom_id@ == "search_results"@ && o@
            == options@),
{
    if options.len() == 0 {
        SearchReply::NoResults { content: String::from_str("No results found"), tts: false }
    } else {
        let mut content = String::from_str("Select ");
        content.append(if issue { "an issue" } else { "a pull request" });
        SearchReply::Menu { content, custom_id: String::from_str("search_results"), options }
    }
}

/// `/search`: status, type and query.
pub open spec fn register_view() -> CommandSpecView {
    CommandSpecView {
        name: "search"@,
        description: "Search for github issues/pull requests"@,
        options: seq![
            required_option(OptionKind::Text, "status"@, "Search Status"@, status_choices()),
            required_option(
                OptionKind::Text,
                "type"@,
                "Search for issues or pull requests"@,
                type_choices(),
            ),
            required_option(OptionKind::Text, "query"@, "Search query"@, seq![]),
        ],
    }
}

/// The `/search` command.
pub fn register() -> (c: CommandSpec)
    ensures
        c@ == register_view(),
{
    let mut options = Vec::new();
    options.push(option(OptionKind::Text, "status", "Search Status", status_choice_list()));
    options.push(
        option(OptionKind::Text, "type", "Search for issues or pull requests", type_choice_list()),
    );
    let none: Vec<Choice> = Vec::new();
    assert(none@.map_values(|c: Choice| c@) =~= Seq::<(Seq<char>, Seq<char>)>::empty());
    options.push(option(OptionKind::Text, "query", "Search query", none));
    let c = CommandSpec {
        name: String::from_str("search"),
        description: String::from_str("Search for github issues/pull requests"),
        options,
    };
    assert(c@.options =~= register_view().options);
    c
}

} // verus!
