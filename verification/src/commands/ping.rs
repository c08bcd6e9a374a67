//! `/ping`: tells that the bot is up.

use vstd::prelude::*;

use crate::commands::{CommandSpec, CommandSpecView, OptionSpec, OptionValue};

verus! {

/// `/ping`: no options.
pub open spec fn register_view() -> CommandSpecView {
    CommandSpecView { name: "ping"@, description: "A ping command"@, options: seq![] }
}

/// The `/ping` command.
pub fn register() -> (c: CommandSpec)
    ensures
        c@ == register_view(),
{
    let options: Vec<OptionSpec> = Vec::new();
    let c = CommandSpec {
        name: String::from_str("ping"),
        description: String::from_str("A ping command"),
        options,
    };
    assert(c@.options =~= register_view().options);
    c
}

/// The answer to `/ping`.
pub fn run(_options: &Vec<OptionValue>) -> (s: String)
    ensures
        s@ == "Hey, I'm alive!"@,
{
    String::from_str("Hey, I'm alive!")
}

} // verus!
