//! What holds of the store across loading and persisting.

use vstd::prelude::*;
use crate::persist::{
    by_name, cache_of, distinct_names, has_name, is_first, lemma_has_first, lemma_lookup_first, lookup,
    merged, AccountConfigView, AccountView, Cache, Config, Store, TokensView,
};
use crate::runner::installed;

verus! {

/// Appending an entry changes a lookup only for a name that was absent
/// and that the new entry carries.
pub proof fn lemma_lookup_push<V>(entries: Seq<(Seq<char>, V)>, entry: (Seq<char>, V), name: Seq<char>)
    ensures
        has_name(entries.push(entry), name) == (has_name(entries, name) || entry.0 == name),
        lookup(entries.push(entry), name) == if has_name(entries, name) {
            lookup(entries, name)
        } else if entry.0 == name {
            Some(entry.1)
        } else {
            None
        },
{
    let longer = entries.push(entry);
    if has_name(entries, name) {
        let i = lemma_has_first(entries, name);
        assert(longer[i] == entries[i]);
        assert forall|j: int| 0 <= j < i implies (#[trigger] longer[j]).0 != name by {
            assert(longer[j] == entries[j]);
        }
        lemma_lookup_first(entries, name, i);
        lemma_lookup_first(longer, name, i);
    } else if entry.0 == name {
        let n = entries.len() as int;
        assert(longer[n] == entry);
        assert forall|j: int| 0 <= j < n implies (#[trigger] longer[j]).0 != name by {
            assert(longer[j] == entries[j]);
        }
        lemma_lookup_first(longer, name, n);
    } else {
        if has_name(longer, name) {
            let i = choose|i: int| 0 <= i < longer.len() && (#[trigger] longer[i]).0 == name;
            if i < entries.len() {
                assert(longer[i] == entries[i]);
            }
        }
    }
}

/// The store that a load builds holds exactly the configured names.
pub proof fn lemma_merged_names(
    config: Seq<(Seq<char>, AccountConfigView)>,
    cache: Seq<(Seq<char>, TokensView)>,
    name: Seq<char>,
)
    ensures
        has_name(merged(config, cache), name) == has_name(config, name),
        has_name(config, name) ==> lookup(merged(config, cache), name) == Some(
            AccountView { conf: lookup(config, name)->Some_0, tokens: lookup(cache, name) },
        ),
{
    let store = merged(config, cache);
    if has_name(store, name) {
        let i = choose|i: int| 0 <= i < store.len() && (#[trigger] store[i]).0 == name;
        assert(config[i].0 == name);
    }
    if has_name(config, name) {
        let i = lemma_has_first(config, name);
        assert(store[i].0 == name);
        assert forall|j: int| 0 <= j < i implies (#[trigger] store[j]).0 != name by {
            assert(config[j].0 != name);
        }
        lemma_lookup_first(config, name, i);
        lemma_lookup_first(store, name, i);
    }
}

/// What is persisted names only accounts of the store.
pub proof fn lemma_cache_names(accounts: Seq<(Seq<char>, AccountView)>, name: Seq<char>)
    ensures
        has_name(cache_of(accounts), name) ==> has_name(accounts, name),
    decreases accounts.len(),
{
    if accounts.len() > 0 {
        let front = accounts.drop_last();
        lemma_cache_names(front, name);
        if has_name(front, name) {
            let i = choose|i: int| 0 <= i < front.len() && (#[trigger] front[i]).0 == name;
            assert(accounts[i] == front[i]);
        }
        match accounts.last().1.tokens {
            Some(tokens) => {
                lemma_lookup_push(cache_of(front), (accounts.last().0, tokens), name);
                assert(accounts[accounts.len() - 1] == accounts.last());
            },
            None => {},
        }
    }
}

/// What is persisted holds, under the name of each account with tokens,
/// that account's tokens.
pub proof fn lemma_cache_lookup(accounts: Seq<(Seq<char>, AccountView)>, name: Seq<char>)
    requires
        lookup(accounts, name) is Some,
        lookup(accounts, name)->Some_0.tokens is Some,
    ensures
        lookup(cache_of(accounts), name) == lookup(accounts, name)->Some_0.tokens,
    decreases accounts.len(),
{
    let i = lemma_has_first(accounts, name);
    lemma_lookup_first(accounts, name, i);
    let front = accounts.drop_last();
    let last = accounts.last();
    if i < accounts.len() - 1 {
        assert(front[i] == accounts[i]);
        assert forall|j: int| 0 <= j < i implies (#[trigger] front[j]).0 != name by {
            assert(front[j] == accounts[j]);
        }
        lemma_lookup_first(front, name, i);
        lemma_cache_lookup(front, name);
        match last.1.tokens {
            Some(tokens) => {
                lemma_lookup_push(cache_of(front), (last.0, tokens), name);
            },
            None => {},
        }
    } else {
        if has_name(front, name) {
            let k = choose|k: int| 0 <= k < front.len() && (#[trigger] front[k]).0 == name;
            assert(accounts[k] == front[k]);
        }
        lemma_cache_names(front, name);
        lemma_lookup_push(cache_of(front), (last.0, last.1.tokens->Some_0), name);
    }
}

/// Persisting a store and loading it again gives every configured account
/// that held tokens the same tokens: the same access token, the same
/// refresh token, the same second of expiration.
pub proof fn lemma_persist_then_load(store: Store, config: Config, name: Seq<char>)
    requires
        has_name(config@, name),
        lookup(store.entries(), name) is Some,
        lookup(store.entries(), name)->Some_0.tokens is Some,
    ensures
        lookup(merged(config@, cache_of(store.entries())), name) is Some,
        lookup(merged(config@, cache_of(store.entries())), name)->Some_0.tokens == lookup(
            store.entries(),
            name,
        )->Some_0.tokens,
{
    lemma_cache_lookup(store.entries(), name);
    lemma_merged_names(config@, cache_of(store.entries()), name);
}

/// A name that the configuration lacks is unknown to the loaded store,
/// whatever the cache holds: looking it up fails with `UnknownAccount`.
pub proof fn lemma_unconfigured_is_unknown(config: Config, cache: Cache, name: Seq<char>)
    requires
        !has_name(config@, name),
    ensures
        !has_name(merged(config@, cache@), name),
        lookup(merged(config@, cache@), name) is None,
        !by_name(merged(config@, cache@)).contains_key(name),
{
    lemma_merged_names(config@, cache@, name);
}

/// A cache entry under a name that the configuration lacks is dropped by
/// the load and is absent from what is persisted afterwards.
pub proof fn lemma_stale_entries_are_pruned(config: Config, cache: Cache, name: Seq<char>)
    requires
        !has_name(config@, name),
    ensures
        !has_name(cache_of(merged(config@, cache@)), name),
{
    lemma_merged_names(config@, cache@, name);
    lemma_cache_names(merged(config@, cache@), name);
}

/// Installing tokens replaces the tokens of the named account as a whole
/// and touches nothing else: the account keeps its settings, every other
/// name gives what it gave before, and names stay unique.
pub proof fn lemma_install_replaces(
    accounts: Seq<(Seq<char>, AccountView)>,
    name: Seq<char>,
    tokens: TokensView,
    other: Seq<char>,
)
    requires
        has_name(accounts, name),
    ensures
        lookup(installed(accounts, name, tokens), name) == Some(
            AccountView { conf: lookup(accounts, name)->Some_0.conf, tokens: Some(tokens) },
        ),
        has_name(installed(accounts, name, tokens), other) == has_name(accounts, other),
        other != name ==> lookup(installed(accounts, name, tokens), other) == lookup(accounts, other),
        distinct_names(accounts) ==> distinct_names(installed(accounts, name, tokens)),
{
    let i = lemma_has_first(accounts, name);
    lemma_lookup_first(accounts, name, i);
    let after = installed(accounts, name, tokens);
    assert forall|j: int| 0 <= j < accounts.len() implies (#[trigger] after[j]).0 == accounts[j].0 by {}
    assert(is_first(after, name, i)) by {
        assert forall|j: int| 0 <= j < i implies (#[trigger] after[j]).0 != name by {
            assert(accounts[j].0 != name);
        }
    }
    lemma_lookup_first(after, name, i);
    if has_name(accounts, other) {
        let k = lemma_has_first(accounts, other);
        assert(is_first(after, other, k)) by {
            assert forall|j: int| 0 <= j < k implies (#[trigger] after[j]).0 != other by {
                assert(accounts[j].0 != other);
            }
        }
        lemma_lookup_first(accounts, other, k);
        lemma_lookup_first(after, other, k);
    } else if has_name(after, other) {
        let k = choose|k: int| 0 <= k < after.len() && (#[trigger] after[k]).0 == other;
        assert(accounts[k].0 == other);
    }
    if distinct_names(accounts) {
        assert forall|a: int, b: int| 0 <= a < b < after.len() implies (#[trigger] after[a]).0 != (
        #[trigger] after[b]).0 by {
            assert(accounts[a].0 != accounts[b].0);
        }
    }
}

/// Installing tokens brings no new name into what is persisted: a name
/// that the accounts lack stays absent.
pub proof fn lemma_install_adds_no_name(
    accounts: Seq<(Seq<char>, AccountView)>,
    name: Seq<char>,
    tokens: TokensView,
    other: Seq<char>,
)
    requires
        has_name(accounts, name),
        !has_name(accounts, other),
    ensures
        !has_name(cache_of(installed(accounts, name, tokens)), other),
{
    lemma_install_replaces(accounts, name, tokens, other);
    lemma_cache_names(installed(accounts, name, tokens), other);
}

/// Once tokens are installed for an account, what is persisted holds
/// exactly those tokens under the account's name.
pub proof fn lemma_installed_tokens_are_persisted(
    accounts: Seq<(Seq<char>, AccountView)>,
    name: Seq<char>,
    tokens: TokensView,
)
    requires
        has_name(accounts, name),
    ensures
        lookup(cache_of(installed(accounts, name, tokens)), name) == Some(tokens),
{
    lemma_install_replaces(accounts, name, tokens, name);
    lemma_cache_lookup(installed(accounts, name, tokens), name);
}

} // verus!
