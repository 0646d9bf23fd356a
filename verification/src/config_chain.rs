use vstd::prelude::*;

use crate::config_service::{lookup_view, ConfigRetriever};
use crate::errors::{AppResult, ErrorView};

verus! {

/// The answer of a retriever placed in front of another: the first one's
/// value or error, and the second one's answer where the first has no value.
pub open spec fn first_found(
    first: Result<Option<Seq<char>>, ErrorView>,
    rest: Result<Option<Seq<char>>, ErrorView>,
) -> Result<Option<Seq<char>>, ErrorView> {
    match first {
        Ok(None) => rest,
        other => other,
    }
}

/// Two retrievers, asked in turn.
pub struct ConfigRetrieverChain<T1: ConfigRetriever, T2: ConfigRetriever> {
    first: T1,
    remaining: T2,
}

/// A retriever that holds no value.
pub struct ConfigRetrieverEmpty {}

impl ConfigRetriever for ConfigRetrieverEmpty {
    open spec fn retrieved(&self, key: Seq<char>) -> Result<Option<Seq<char>>, ErrorView> {
        Ok(None)
    }

    open spec fn defined_keys(&self) -> Set<Seq<char>> {
        Set::empty()
    }

    proof fn lemma_defined_keys(&self) {
    }

    fn get(&self, _key: &str) -> (res: AppResult<Option<String>>) {
        Ok(None)
    }
}

/// A chain that holds no value yet; retrievers are put in front of it with
/// [`ConfigRetrieverChain::with`].
pub fn new_empty_chain() -> (c: ConfigRetrieverChain<ConfigRetrieverEmpty, ConfigRetrieverEmpty>)
    ensures
        forall|key: Seq<char>| #[trigger] c.retrieved(key) == Ok::<Option<Seq<char>>, ErrorView>(None),
{
    ConfigRetrieverChain { first: ConfigRetrieverEmpty {}, remaining: ConfigRetrieverEmpty {} }
}

impl<T1: ConfigRetriever, T2: ConfigRetriever> ConfigRetrieverChain<T1, T2> {
    /// The retriever asked first.
    pub closed spec fn head(&self) -> T1 {
        self.first
    }

    /// The retriever asked where the first has no value.
    pub closed spec fn tail(&self) -> T2 {
        self.remaining
    }

    /// The chain with `new_first` in front: it is asked before every retriever
    /// already in the chain.
    pub fn with<T3: ConfigRetriever>(self, new_first: T3) -> (c: ConfigRetrieverChain<T3, ConfigRetrieverChain<T1, T2>>)
        ensures
            c.head() == new_first,
            c.tail() == self,
            forall|key: Seq<char>| #[trigger] c.retrieved(key) == first_found(new_first.retrieved(key), self.retrieved(key)),
    {
        ConfigRetrieverChain { first: new_first, remaining: self }
    }
}

impl<T1: ConfigRetriever, T2: ConfigRetriever> ConfigRetriever for ConfigRetrieverChain<T1, T2> {
    closed spec fn retrieved(&self, key: Seq<char>) -> Result<Option<Seq<char>>, ErrorView> {
        first_found(self.first.retrieved(key), self.remaining.retrieved(key))
    }

    closed spec fn defined_keys(&self) -> Set<Seq<char>> {
        self.first.defined_keys().union(self.remaining.defined_keys())
    }

    proof fn lemma_defined_keys(&self) {
        self.first.lemma_defined_keys();
        self.remaining.lemma_defined_keys();
        vstd::set::axiom_set_union_finite(self.first.defined_keys(), self.remaining.defined_keys());
    }

    fn get(&self, key: &str) -> (res: AppResult<Option<String>>) {
        match self.first.get(key) {
            Ok(Some(v)) => Ok(Some(v)),
            Ok(None) => self.remaining.get(key),
            e => e,
        }
    }
}

impl<T1: ConfigRetriever, T2: ConfigRetriever> ConfigRetrieverChain<T1, T2> {
    /// A chain answers with its first retriever's value or error, and with the
    /// answer of the rest of the chain where the first has no value.
    pub proof fn lemma_chain_lookup(&self, key: Seq<char>)
        ensures
            self.retrieved(key) == first_found(self.head().retrieved(key), self.tail().retrieved(key)),
    {
    }

    /// The keys a chain holds are those of its two parts.
    pub proof fn lemma_chain_keys(&self)
        ensures
            self.defined_keys() == self.head().defined_keys().union(self.tail().defined_keys()),
    {
    }
}

} // verus!
