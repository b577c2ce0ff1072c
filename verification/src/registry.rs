//! The runtime registry: the catalog as last fetched, and the resolution of
//! a user-supplied token to the record that answers it.
//!
//! A token is matched case-sensitively and exactly. A record whose canonical
//! name is the token wins over any record that merely lists it as an alias;
//! among several candidates of the same kind the first in catalog order wins.

use vstd::prelude::*;

use crate::catalog::{Language, LanguageView};

verus! {

/// Some record of the catalog has `token` as its canonical name.
pub open spec fn named_somewhere(entries: Seq<LanguageView>, token: Seq<char>) -> bool {
    exists|j: int| 0 <= j < entries.len() && (#[trigger] entries[j]).is_named(token)
}

/// Some record of the catalog lists `token` among its aliases.
pub open spec fn aliased_somewhere(entries: Seq<LanguageView>, token: Seq<char>) -> bool {
    exists|j: int| 0 <= j < entries.len() && (#[trigger] entries[j]).has_alias(token)
}

/// Record `i` is the first one whose canonical name is `token`.
pub open spec fn first_named(entries: Seq<LanguageView>, token: Seq<char>, i: int) -> bool {
    &&& 0 <= i < entries.len()
    &&& entries[i].is_named(token)
    &&& forall|j: int| 0 <= j < i ==> !(#[trigger] entries[j]).is_named(token)
}

/// Record `i` is the first one that lists `token` among its aliases.
pub open spec fn first_aliased(entries: Seq<LanguageView>, token: Seq<char>, i: int) -> bool {
    &&& 0 <= i < entries.len()
    &&& entries[i].has_alias(token)
    &&& forall|j: int| 0 <= j < i ==> !(#[trigger] entries[j]).has_alias(token)
}

/// Record `i` is the one that answers `token`: the first with that canonical
/// name, or, where no record has that name, the first with that alias.
pub open spec fn answers(entries: Seq<LanguageView>, token: Seq<char>, i: int) -> bool {
    if named_somewhere(entries, token) {
        first_named(entries, token, i)
    } else {
        first_aliased(entries, token, i)
    }
}

/// Index of the record that answers `token`, if any record does.
pub open spec fn resolved_index(entries: Seq<LanguageView>, token: Seq<char>) -> Option<int> {
    if exists|i: int| answers(entries, token, i) {
        Some(choose|i: int| answers(entries, token, i))
    } else {
        None
    }
}

/// Canonical name and version that `token` resolves to, if it resolves.
pub open spec fn resolution(entries: Seq<LanguageView>, token: Seq<char>) -> Option<
    (Seq<char>, Seq<char>),
> {
    match resolved_index(entries, token) {
        Some(i) => Some((entries[i].language, entries[i].version)),
        None => None,
    }
}

/// The record set after a swap: the new set, whole and in its own order,
/// whatever was held before.
pub open spec fn replaced(held: Seq<LanguageView>, entries: Seq<LanguageView>) -> Seq<
    LanguageView,
> {
    entries
}

/// At most one record answers a token.
pub proof fn lemma_answer_is_unique(entries: Seq<LanguageView>, token: Seq<char>, i: int, j: int)
    requires
        answers(entries, token, i),
        answers(entries, token, j),
    ensures
        i == j,
{
}

/// The record that answers a token is the one that `resolved_index` names.
pub proof fn lemma_answer_is_resolved(entries: Seq<LanguageView>, token: Seq<char>, i: int)
    requires
        answers(entries, token, i),
    ensures
        resolved_index(entries, token) == Some(i),
        resolution(entries, token) == Some((entries[i].language, entries[i].version)),
{
    let k = choose|k: int| answers(entries, token, k);
    lemma_answer_is_unique(entries, token, i, k);
}

/// Among the records up to `i` that satisfy `wanted`, one comes first.
proof fn lemma_first_match(
    entries: Seq<LanguageView>,
    wanted: spec_fn(LanguageView) -> bool,
    i: int,
) -> (k: int)
    requires
        0 <= i < entries.len(),
        wanted(entries[i]),
    ensures
        0 <= k <= i,
        wanted(entries[k]),
        forall|j: int| 0 <= j < k ==> !wanted(#[trigger] entries[j]),
    decreases i,
{
    if exists|j: int| 0 <= j < i && wanted(#[trigger] entries[j]) {
        let j = choose|j: int| 0 <= j < i && wanted(#[trigger] entries[j]);
        lemma_first_match(entries, wanted, j)
    } else {
        i
    }
}

/// Canonical-name precedence. A token that is the canonical name of record
/// `i` resolves to that name and to the version of record `i`, whatever
/// aliases other records list. Where several records share the name, the first
/// of them answers, so the statement asks that the earlier ones carry the same
/// version; with canonical names unique, as the catalog promises, that holds
/// of every record.
pub proof fn lemma_canonical_name_precedence(entries: Seq<LanguageView>, token: Seq<char>, i: int)
    requires
        0 <= i < entries.len(),
        entries[i].is_named(token),
        forall|j: int|
            0 <= j < i && (#[trigger] entries[j]).is_named(token) ==> entries[j].version
                == entries[i].version,
    ensures
        resolution(entries, token) == Some((token, entries[i].version)),
{
    let k = lemma_first_match(entries, |e: LanguageView| e.is_named(token), i);
    assert(first_named(entries, token, k));
    assert(named_somewhere(entries, token));
    lemma_answer_is_resolved(entries, token, k);
}

/// Alias resolution. A token that is no record's canonical name, and that
/// record `i` is the first in catalog order to list as an alias, resolves to
/// the canonical name and version of record `i`.
pub proof fn lemma_alias_resolves_to_first_listing(
    entries: Seq<LanguageView>,
    token: Seq<char>,
    i: int,
)
    requires
        !named_somewhere(entries, token),
        first_aliased(entries, token, i),
    ensures
        resolution(entries, token) == Some((entries[i].language, entries[i].version)),
{
    lemma_answer_is_resolved(entries, token, i);
}

/// Where some record lists the token as an alias, one of them is the first.
pub proof fn lemma_first_listing_exists(entries: Seq<LanguageView>, token: Seq<char>) -> (i: int)
    requires
        aliased_somewhere(entries, token),
    ensures
        first_aliased(entries, token, i),
{
    let j = choose|j: int| 0 <= j < entries.len() && (#[trigger] entries[j]).has_alias(token);
    lemma_first_match(entries, |e: LanguageView| e.has_alias(token), j)
}

/// Resolution misses exactly the unknown tokens: the result is `None` if and
/// only if the token is neither a canonical name nor an alias of any record.
pub proof fn lemma_unknown_token_is_not_found(entries: Seq<LanguageView>, token: Seq<char>)
    ensures
        resolution(entries, token) is None <==> !named_somewhere(entries, token)
            && !aliased_somewhere(entries, token),
{
    if named_somewhere(entries, token) {
        let j = choose|j: int| 0 <= j < entries.len() && (#[trigger] entries[j]).is_named(token);
        let k = lemma_first_match(entries, |e: LanguageView| e.is_named(token), j);
        assert(first_named(entries, token, k));
        lemma_answer_is_resolved(entries, token, k);
    } else if aliased_somewhere(entries, token) {
        let k = lemma_first_listing_exists(entries, token);
        lemma_answer_is_resolved(entries, token, k);
    } else {
        assert forall|i: int| !answers(entries, token, i) by {
            if first_aliased(entries, token, i) {
                assert(entries[i].has_alias(token));
            }
        }
    }
}

/// A swap is whole. After the record set is swapped, the registry holds the
/// new set record for record, and every token resolves as the new set alone
/// decides: no reader of the swapped registry meets a record of the previous
/// set, or a mixture of the two.
pub proof fn lemma_swap_is_whole(
    held: Seq<LanguageView>,
    entries: Seq<LanguageView>,
    token: Seq<char>,
)
    ensures
        replaced(held, entries).len() == entries.len(),
        forall|i: int| 0 <= i < entries.len() ==> replaced(held, entries)[i] == entries[i],
        resolution(replaced(held, entries), token) == resolution(entries, token),
{
}

/// In-memory store of the catalog records, in fetch order.
pub struct RuntimeRegistry {
    entries: Vec<Language>,
}

impl View for RuntimeRegistry {
    type V = Seq<LanguageView>;

    closed spec fn view(&self) -> Seq<LanguageView> {
        self.entries.deep_view()
    }
}

impl RuntimeRegistry {
    /// The registry as it is at process start: no records.
    pub fn new() -> (registry: RuntimeRegistry)
        ensures
            registry@ == Seq::<LanguageView>::empty(),
    {
        let registry = RuntimeRegistry { entries: Vec::new() };
        assert(registry@ =~= Seq::<LanguageView>::empty());
        registry
    }

    /// Number of records held.
    pub fn len(&self) -> (n: usize)
        ensures
            n == self@.len(),
    {
        self.entries.len()
    }

    /// Whether no record is held.
    pub fn is_empty(&self) -> (r: bool)
        ensures
            r == (self@.len() == 0),
    {
        self.entries.len() == 0
    }

    /// Swaps the whole record set for `entries`. Nothing of the previous set
    /// remains, and the new set is held in the order given.
    pub fn replace_all(&mut self, entries: Vec<Language>)
        ensures
            final(self)@ == replaced(old(self)@, entries.deep_view()),
    {
        self.entries = entries;
    }

    /// Resolves `token` to the canonical name and version of the record that
    /// answers it; `None` where no record has it as name or alias.
    pub fn resolve(&self, token: &str) -> (r: Option<(String, String)>)
        ensures
            r.deep_view() == resolution(self@, token@),
    {
        let ghost entries = self@;
        let n = self.entries.len();
        let mut i: usize = 0;
        while i < n
            invariant
                i <= n,
                n == self.entries.len(),
                entries == self@,
                forall|j: int| 0 <= j < i ==> !(#[trigger] entries[j]).is_named(token@),
            decreases n - i,
        {
            if self.entries[i].is_named(token) {
                proof {
                    assert(first_named(entries, token@, i as int));
                    lemma_answer_is_resolved(entries, token@, i as int);
                }
                return Some((self.entries[i].language.clone(), self.entries[i].version.clone()));
            }
            i += 1;
        }
        let mut k: usize = 0;
        while k < n
            invariant
                k <= n,
                n == self.entries.len(),
                entries == self@,
                !named_somewhere(entries, token@),
                forall|j: int| 0 <= j < k ==> !(#[trigger] entries[j]).has_alias(token@),
            decreases n - k,
        {
            if self.entries[k].has_alias(token) {
                proof {
                    assert(first_aliased(entries, token@, k as int));
                    lemma_answer_is_resolved(entries, token@, k as int);
                }
                return Some((self.entries[k].language.clone(), self.entries[k].version.clone()));
            }
            k += 1;
        }
        None
    }
}

} // verus!
