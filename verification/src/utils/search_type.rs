use vstd::prelude::*;

verus! {

/// What a search or fetch looks for: issues, or pull requests.
#[derive(Clone, Copy, Debug, PartialEq, Eq)]
pub enum SearchType {
    Issues,
    PullRequests,
}

/// The state of the issues or pull requests a search looks for.
#[derive(Clone, Copy, Debug, PartialEq, Eq)]
pub enum SearchStatus {
    Open,
    Closed,
}

/// The text by which a user picks a search type.
pub open spec fn search_type_text(t: SearchType) -> Seq<char> {
    match t {
        SearchType::Issues => "issues"@,
        SearchType::PullRequests => "pull requests"@,
    }
}

/// The text by which a user picks a search status.
pub open spec fn search_status_text(s: SearchStatus) -> Seq<char> {
    match s {
        SearchStatus::Open => "open"@,
        SearchStatus::Closed => "closed"@,
    }
}

impl SearchType {
    /// The choice text of this search type, as shown to and sent back by users.
    pub fn as_str(&self) -> (s: &str)
        ensures
            s@ == search_type_text(*self),
    {
        match self {
            SearchType::Issues => "issues",
            SearchType::PullRequests => "pull requests",
        }
    }
}

impl SearchStatus {
    /// The choice text of this search status, as shown to and sent back by users.
    pub fn as_str(&self) -> (s: &str)
        ensures
            s@ == search_status_text(*self),
    {
        match self {
            SearchStatus::Open => "open",
            SearchStatus::Closed => "closed",
        }
    }
}


/// The two search types have different choice texts, so a choice text names one type only.
pub proof fn lemma_type_text_names_one_type(t: SearchType)
    ensures
        (search_type_text(t) == search_type_text(SearchType::Issues)) == (t == SearchType::Issues),
{
    reveal_strlit("issues");
    reveal_strlit("pull requests");
    assert("issues"@.len() != "pull requests"@.len());
}

/// The two search statuses have different choice texts, so a choice text names one status only.
pub proof fn lemma_status_text_names_one_status(s: SearchStatus)
    ensures
        (search_status_text(s) == search_status_text(SearchStatus::Open)) == (s
            == SearchStatus::Open),
{
    reveal_strlit("open");
    reveal_strlit("closed");
    assert("open"@.len() != "closed"@.len());
}

} // verus!
