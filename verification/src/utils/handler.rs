use std::collections::HashMap;
use vstd::prelude::*;

verus! {

broadcast use vstd::std_specs::hash::group_hash_axioms;

/// What the bot remembers of a number that it offered or fetched: whether it names an issue
/// (or else a pull request).
#[derive(Clone, Copy, Debug, PartialEq, Eq)]
pub struct HashContext {
    pub is_issue: bool,
}

/// The numbers that the bot has offered or fetched, each with its [`HashContext`].
pub struct ContextMap {
    map: HashMap<u64, HashContext>,
}

impl View for ContextMap {
    type V = Map<u64, HashContext>;

    closed spec fn view(&self) -> Map<u64, HashContext> {
        self.map@
    }
}

/// What a lookup of `number` in `m` gives.
pub open spec fn lookup(m: Map<u64, HashContext>, number: u64) -> Option<HashContext> {
    if m.contains_key(number) {
        Some(m[number])
    } else {
        None
    }
}

impl ContextMap {
    /// A map that remembers nothing.
    pub fn new() -> (m: Self)
        ensures
            m@ == Map::<u64, HashContext>::empty(),
    {
        ContextMap { map: HashMap::new() }
    }

    /// Remembers `context` for `number`, in place of what was remembered for it before.
    pub fn insert(&mut self, number: u64, context: HashContext)
        ensures
            final(self)@ == old(self)@.insert(number, context),
    {
        self.map.insert(number, context);
    }

    /// What is remembered for `number`, if anything.
    pub fn get(&self, number: u64) -> (r: Option<HashContext>)
        ensures
            r == lookup(self@, number),
    {
        match self.map.get(&number) {
            Some(c) => Some(*c),
            None => None,
        }
    }

    /// How many numbers are remembered.
    pub fn len(&self) -> (n: usize)
        ensures
            n == self@.len(),
    {
        self.map.len()
    }
}

/// A lookup right after remembering a context for a number gives that context back.
pub proof fn lemma_lookup_after_insert(m: Map<u64, HashContext>, number: u64, context: HashContext)
    ensures
        lookup(m.insert(number, context), number) == Some(context),
{
}

/// Remembering a context for one number leaves what is remembered for every other number.
pub proof fn lemma_lookup_other_after_insert(
    m: Map<u64, HashContext>,
    number: u64,
    context: HashContext,
    other: u64,
)
    requires
        other != number,
    ensures
        lookup(m.insert(number, context), other) == lookup(m, other),
{
}

} // verus!
