//! The slash commands: the values users give them, and how they are registered.

pub mod comments;
pub mod fetch;
pub mod ping;
pub mod search;

use vstd::prelude::*;

use crate::utils::search_type::{search_status_text, search_type_text, SearchStatus, SearchType};

verus! {

/// The value a user gave for one option of a slash command.
pub enum OptionValue {
    /// A text value.
    Text(String),
    /// An integer value.
    Integer(i64),
    /// Any other kind of value.
    Other,
}

/// The text of an option value, where it is one.
pub open spec fn text_of(v: OptionValue) -> Option<Seq<char>> {
    match v {
        OptionValue::Text(s) => Some(s@),
        _ => None,
    }
}

/// The integer of an option value, where it is one.
pub open spec fn integer_of(v: OptionValue) -> Option<i64> {
    match v {
        OptionValue::Integer(i) => Some(i),
        _ => None,
    }
}

pub(crate) fn text_value(v: &OptionValue) -> (r: &String)
    requires
        text_of(*v) is Some,
    ensures
        text_of(*v) == Some(r@),
{
    match v {
        OptionValue::Text(s) => s,
        _ => vstd::pervasive::unreached(),
    }
}

/// The kind of value that a command option takes.
#[derive(Clone, Copy, Debug, PartialEq, Eq)]
pub enum OptionKind {
    Text,
    Integer,
}

/// One preset choice of a text option: the name shown and the value sent.
pub struct Choice {
    pub name: String,
    pub value: String,
}

/// One option of a slash command.
pub struct OptionSpec {
    pub kind: OptionKind,
    pub name: String,
    pub description: String,
    pub choices: Vec<Choice>,
    pub required: bool,
}

/// A slash command as the bot registers it.
pub struct CommandSpec {
    pub name: String,
    pub description: String,
    pub options: Vec<OptionSpec>,
}

/// The contents of an [`OptionSpec`]; each choice is a pair of name and value.
pub struct OptionSpecView {
    pub kind: OptionKind,
    pub name: Seq<char>,
    pub description: Seq<char>,
    pub choices: Seq<(Seq<char>, Seq<char>)>,
    pub required: bool,
}

/// The contents of a [`CommandSpec`].
pub struct CommandSpecView {
    pub name: Seq<char>,
    pub description: Seq<char>,
    pub options: Seq<OptionSpecView>,
}

impl View for Choice {
    type V = (Seq<char>, Seq<char>);

    open spec fn view(&self) -> (Seq<char>, Seq<char>) {
        (self.name@, self.value@)
    }
}

impl View for OptionSpec {
    type V = OptionSpecView;

    open spec fn view(&self) -> OptionSpecView {
        OptionSpecView {
            kind: self.kind,
            name: self.name@,
            description: self.description@,
            choices: self.choices@.map_values(|c: Choice| c@),
            required: self.required,
        }
    }
}

impl View for CommandSpec {
    type V = CommandSpecView;

    open spec fn view(&self) -> CommandSpecView {
        CommandSpecView {
            name: self.name@,
            description: self.description@,
            options: self.options@.map_values(|o: OptionSpec| o@),
        }
    }
}

/// The choices between issues and pull requests.
pub open spec fn type_choices() -> Seq<(Seq<char>, Seq<char>)> {
    seq![
        (search_type_text(SearchType::Issues), search_type_text(SearchType::Issues)),
        (search_type_text(SearchType::PullRequests), search_type_text(SearchType::PullRequests)),
    ]
}

/// The choices between open and closed.
pub open spec fn status_choices() -> Seq<(Seq<char>, Seq<char>)> {
    seq![
        (search_status_text(SearchStatus::Open), search_status_text(SearchStatus::Open)),
        (search_status_text(SearchStatus::Closed), search_status_text(SearchStatus::Closed)),
    ]
}

/// A required option.
pub open spec fn required_option(
    kind: OptionKind,
    name: Seq<char>,
    description: Seq<char>,
    choices: Seq<(Seq<char>, Seq<char>)>,
) -> OptionSpecView {
    OptionSpecView { kind, name, description, choices, required: true }
}

pub(crate) fn choice(name: &str, value: &str) -> (c: Choice)
    ensures
        c@ == (name@, value@),
{
    Choice { name: String::from_str(name), value: String::from_str(value) }
}

pub(crate) fn type_choice_list() -> (v: Vec<Choice>)
    ensures
        v@.map_values(|c: Choice| c@) == type_choices(),
{
    let mut v = Vec::new();
    v.push(choice(SearchType::Issues.as_str(), SearchType::Issues.as_str()));
    v.push(choice(SearchType::PullRequests.as_str(), SearchType::PullRequests.as_str()));
    assert(v@.map_values(|c: Choice| c@) =~= type_choices());
    v
}

pub(crate) fn status_choice_list() -> (v: Vec<Choice>)
    ensures
        v@.map_values(|c: Choice| c@) == status_choices(),
{
    let mut v = Vec::new();
    v.push(choice(SearchStatus::Open.as_str(), SearchStatus::Open.as_str()));
    v.push(choice(SearchStatus::Closed.as_str(), SearchStatus::Closed.as_str()));
    assert(v@.map_values(|c: Choice| c@) =~= status_choices());
    v
}

pub(crate) fn option(kind: OptionKind, name: &str, description: &str, choices: Vec<Choice>) -> (o: OptionSpec)
    ensures
        o@ == required_option(kind, name@, description@, choices@.map_values(|c: Choice| c@)),
{
    OptionSpec {
        kind,
        name: String::from_str(name),
        description: String::from_str(description),
        choices,
        required: true,
    }
}

/// A GitHub repository, by owner and name.
pub struct Repository {
    pub owner: String,
    pub name: String,
}

/// The repository whose issues and pull requests the bot looks up.
pub fn tracked_repository() -> (r: Repository)
    ensures
        r.owner@ == "Fallenbagel"@,
        r.name@ == "jellyseerr"@,
{
    Repository { owner: String::from_str("Fallenbagel"), name: String::from_str("jellyseerr") }
}

} // verus!
