//! `/fetch`: shows one issue or pull request.

use vstd::prelude::*;

use crate::commands::{
    integer_of, option, required_option, text_of, text_value, type_choice_list, type_choices,
    Choice, CommandSpec, CommandSpecView, OptionKind, OptionValue,
};
use crate::text::{decimal_string, decimal_text, ends_with, parsed_u64, same_text, starts_with};
use crate::text::lemma_parse_decimal_roundtrip;
use crate::utils::handler::{lookup, ContextMap, HashContext};
use crate::utils::search_type::{search_type_text, SearchType};

verus! {

/// What a `/fetch` command asks for.
pub struct FetchArgs {
    /// An issue (or else a pull request).
    pub issue: bool,
    pub number: u64,
}

/// Whether the options of a `/fetch` command are there: a text, then an integer.
pub open spec fn fetch_options_given(opts: Seq<OptionValue>) -> bool {
    &&& opts.len() >= 2
    &&& text_of(opts[0]) is Some
    &&& integer_of(opts[1]) is Some
}

/// The number that an integer option names: the integer taken modulo 2^64.
pub open spec fn wrapped_number(i: i64) -> int {
    if i >= 0 {
        i as int
    } else {
        i + 0x1_0000_0000_0000_0000
    }
}

/// The options of a `/fetch` command: type and number, in that order. A type other than
/// `issues` means a pull request.
pub fn fetch_args(opts: &Vec<OptionValue>) -> (a: FetchArgs)
    requires
        fetch_options_given(opts@),
    ensures
        a.issue == (text_of(opts@[0]) == Some(search_type_text(SearchType::Issues))),
        a.number as int == wrapped_number(integer_of(opts@[1])->0),
{
    let issue = same_text(text_value(&opts[0]).as_str(), SearchType::Issues.as_str());
    let i: i64 = match &opts[1] {
        OptionValue::Integer(i) => *i,
        _ => vstd::pervasive::unreached(),
    };
    let number = i as u64;
    assert(i >= 0 ==> number == i) by (bit_vector)
        requires
            number == i as u64,
    ;
    assert(i < 0 ==> number == i + 0x1_0000_0000_0000_0000) by (bit_vector)
        requires
            number == i as u64,
    ;
    FetchArgs { issue, number }
}

/// The reply that acknowledges a `/fetch` command.
pub open spec fn fetch_ack_view(issue: bool, number: u64) -> Seq<char> {
    "Fetching "@ + (if issue {
        "issue"@
    } else {
        "pull request"@
    }) + " #"@ + decimal_text(number as nat)
}

/// The acknowledgement names the item type from `issue` alone, and ends with the number, whose
/// decimal text parses back to it.
pub proof fn lemma_fetch_ack_parts(issue: bool, number: u64)
    ensures
        issue ==> starts_with(fetch_ack_view(issue, number), "Fetching issue #"@),
        !issue ==> starts_with(fetch_ack_view(issue, number), "Fetching pull request #"@),
        ends_with(fetch_ack_view(issue, number), " #"@ + decimal_text(number as nat)),
        parsed_u64(decimal_text(number as nat)) == Some(number),
{
    reveal_strlit("Fetching ");
    reveal_strlit("issue");
    reveal_strlit("pull request");
    reveal_strlit(" #");
    reveal_strlit("Fetching issue #");
    reveal_strlit("Fetching pull request #");
    let r = fetch_ack_view(issue, number);
    let head = "Fetching "@ + (if issue {
        "issue"@
    } else {
        "pull request"@
    });
    let tail = " #"@ + decimal_text(number as nat);
    assert(r =~= head + tail);
    if issue {
        assert(head + " #"@ =~= "Fetching issue #"@);
    } else {
        assert(head + " #"@ =~= "Fetching pull request #"@);
    }
    assert(r.take((head.len() + 2) as int) =~= head + " #"@);
    assert(r.skip(head.len() as int) =~= tail);
    lemma_parse_decimal_roundtrip(number);
}

/// The number that an integer option names is the integer modulo 2^64.
pub proof fn lemma_wrapped_number_is_modular(i: i64)
    ensures
        0 <= wrapped_number(i) < 0x1_0000_0000_0000_0000,
        (wrapped_number(i) - i) % 0x1_0000_0000_0000_0000 == 0,
{
}

/// The reply that acknowledges a `/fetch` command.
pub fn fetch_ack(args: &FetchArgs) -> (r: String)
    ensures
        r@ == fetch_ack_view(args.issue, args.number),
{
    let mut r = String::from_str("Fetching ");
    r.append(if args.issue { "issue" } else { "pull request" });
    r.append(" #");
    let n = decimal_string(args.number);
    r.append(n.as_str());
    r
}

/// Records what a `/fetch` command asked for, then gives what is remembered for its number:
/// always the context just recorded.
pub fn record_fetch(args: &FetchArgs, contexts: &mut ContextMap) -> (r: Option<HashContext>)
    ensures
        final(contexts)@ == old(contexts)@.insert(args.number, HashContext { is_issue: args.issue }),
        r == lookup(final(contexts)@, args.number),
        r == Some(HashContext { is_issue: args.issue }),
{
    contexts.insert(args.number, HashContext { is_issue: args.issue });
    contexts.get(args.number)
}

/// `/fetch`: type and number.
pub open spec fn register_view() -> CommandSpecView {
    CommandSpecView {
        name: "fetch"@,
        description: "Fetch a github issue/pull request"@,
        options: seq![
            required_option(
                OptionKind::Text,
                "type"@,
                "Search for issues or pull requests"@,
                type_choices(),
            ),
            required_option(OptionKind::Integer, "#"@, "The issue/pr number"@, seq![]),
        ],
    }
}

/// The `/fetch` command.
pub fn register() -> (c: CommandSpec)
    ensures
        c@ == register_view(),
{
    let mut options = Vec::new();
    options.push(
        option(OptionKind::Text, "type", "Search for issues or pull requests", type_choice_list()),
    );
    let none: Vec<Choice> = Vec::new();
    assert(none@.map_values(|c: Choice| c@) =~= Seq::<(Seq<char>, Seq<char>)>::empty());
    options.push(option(OptionKind::Integer, "#", "The issue/pr number", none));
    let c = CommandSpec {
        name: String::from_str("fetch"),
        description: String::from_str("Fetch a github issue/pull request"),
        options,
    };
    assert(c@.options =~= register_view().options);
    c
}

} // verus!
