//! Catalog records: one supported language, the runtime version that the
//! execution service expects for it, and the alternate names it answers to.

use vstd::prelude::*;

use crate::text::str_equal;

verus! {

/// One record of the remote catalog.
#[derive(Clone, Debug, PartialEq, Eq)]
pub struct Language {
    /// Canonical identifier of the language.
    pub language: String,
    /// Exact version string that the execution service expects.
    pub version: String,
    /// Alternate names that also resolve to this record.
    pub aliases: Vec<String>,
}

/// The catalog in fetch order.
pub type Runtimes = Vec<Language>;

/// Mathematical value of a [`Language`] record.
pub struct LanguageView {
    pub language: Seq<char>,
    pub version: Seq<char>,
    pub aliases: Seq<Seq<char>>,
}

impl View for Language {
    type V = LanguageView;

    open spec fn view(&self) -> LanguageView {
        LanguageView {
            language: self.language@,
            version: self.version@,
            aliases: self.aliases.deep_view(),
        }
    }
}

impl DeepView for Language {
    type V = LanguageView;

    open spec fn deep_view(&self) -> LanguageView {
        self@
    }
}

impl LanguageView {
    /// The token is this record's canonical name (case-sensitive, exact).
    pub open spec fn is_named(self, token: Seq<char>) -> bool {
        self.language == token
    }

    /// The token is one of this record's aliases (case-sensitive, exact).
    pub open spec fn has_alias(self, token: Seq<char>) -> bool {
        self.aliases.contains(token)
    }
}

impl Language {
    /// Builds a record from its three parts.
    pub fn new(language: String, version: String, aliases: Vec<String>) -> (entry: Language)
        ensures
            entry@ == (LanguageView {
                language: language@,
                version: version@,
                aliases: aliases.deep_view(),
            }),
    {
        Language { language, version, aliases }
    }

    /// Whether `token` is exactly the canonical name of this record.
    pub fn is_named(&self, token: &str) -> (r: bool)
        ensures
            r == self@.is_named(token@),
    {
        str_equal(self.language.as_str(), token)
    }

    /// Whether `token` is exactly one of the aliases of this record.
    pub fn has_alias(&self, token: &str) -> (r: bool)
        ensures
            r == self@.has_alias(token@),
    {
        let mut i: usize = 0;
        while i < self.aliases.len()
            invariant
                i <= self.aliases.len(),
                forall|j: int| 0 <= j < i ==> self.aliases.deep_view()[j] != token@,
            decreases self.aliases.len() - i,
        {
            if str_equal(self.aliases[i].as_str(), token) {
                assert(self.aliases.deep_view()[i as int] == token@);
                return true;
            }
            i += 1;
        }
        false
    }
}

} // verus!
