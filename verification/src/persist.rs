//! The account store: configured accounts, their cached tokens, and the
//! merge and extraction that connect the two.

use vstd::prelude::*;
use crate::error::Error;
use crate::error::ErrorView;
use crate::wire::{path_joined, push_path};

verus! {

/// The static settings of one account.
#[derive(Debug, PartialEq, Eq)]
pub struct AccountConfig {
    pub client_id: String,
    pub client_secret: String,
    pub authorize_url: String,
    pub token_url: String,
    pub scope: String,
}

/// The settings of an account as plain text.
pub struct AccountConfigView {
    pub client_id: Seq<char>,
    pub client_secret: Seq<char>,
    pub authorize_url: Seq<char>,
    pub token_url: Seq<char>,
    pub scope: Seq<char>,
}

impl View for AccountConfig {
    type V = AccountConfigView;

    open spec fn view(&self) -> AccountConfigView {
        AccountConfigView {
            client_id: self.client_id@,
            client_secret: self.client_secret@,
            authorize_url: self.authorize_url@,
            token_url: self.token_url@,
            scope: self.scope@,
        }
    }
}

impl Clone for AccountConfig {
    fn clone(&self) -> (r: Self)
        ensures
            r@ == self@,
    {
        AccountConfig {
            client_id: self.client_id.clone(),
            client_secret: self.client_secret.clone(),
            authorize_url: self.authorize_url.clone(),
            token_url: self.token_url.clone(),
            scope: self.scope.clone(),
        }
    }
}

/// The most recently issued pair of tokens. `expiration` counts seconds
/// since the epoch, UTC.
#[derive(Debug, PartialEq, Eq)]
pub struct Tokens {
    pub access_token: String,
    pub expiration: i64,
    pub refresh_token: String,
}

/// A pair of tokens as plain text, with the second at which it expires.
pub struct TokensView {
    pub access_token: Seq<char>,
    pub expiration: i64,
    pub refresh_token: Seq<char>,
}

impl View for Tokens {
    type V = TokensView;

    open spec fn view(&self) -> TokensView {
        TokensView {
            access_token: self.access_token@,
            expiration: self.expiration,
            refresh_token: self.refresh_token@,
        }
    }
}

impl Clone for Tokens {
    fn clone(&self) -> (r: Self)
        ensures
            r@ == self@,
    {
        Tokens {
            access_token: self.access_token.clone(),
            expiration: self.expiration,
            refresh_token: self.refresh_token.clone(),
        }
    }
}

impl Tokens {
    /// Whether the access token's life ended strictly before `now`.
    pub fn access_token_expired(&self, now: i64) -> (r: bool)
        ensures
            r == (self.expiration < now),
    {
        self.expiration < now
    }
}

/// An account: its settings and, once authorized, its tokens.
#[derive(Debug, PartialEq, Eq)]
pub struct Account {
    pub conf: AccountConfig,
    pub tokens: Option<Tokens>,
}

/// An account by its values.
pub struct AccountView {
    pub conf: AccountConfigView,
    pub tokens: Option<TokensView>,
}

impl AccountView {
    /// The freshness rule: tokens are present and expired before `now`.
    pub open spec fn needs_refresh(self, now: i64) -> bool {
        match self.tokens {
            Some(tokens) => tokens.expiration < now,
            None => false,
        }
    }
}

impl View for Account {
    type V = AccountView;

    open spec fn view(&self) -> AccountView {
        AccountView {
            conf: self.conf@,
            tokens: match self.tokens {
                Some(tokens) => Some(tokens@),
                None => None,
            },
        }
    }
}

impl Account {
    /// True exactly when the account holds tokens whose expiration lies
    /// strictly before `now`. An account without tokens needs no refresh.
    pub fn needs_refresh(&self, now: i64) -> (r: bool)
        ensures
            r == self@.needs_refresh(now),
            self.tokens is None ==> !r,
            self.tokens is Some ==> r == (self.tokens->Some_0.expiration < now),
    {
        if let Some(tokens) = &self.tokens {
            return tokens.access_token_expired(now);
        }
        false
    }
}

/// The values of a list of named entries.
pub open spec fn named<T: View>(entries: Seq<(String, T)>) -> Seq<(Seq<char>, T::V)> {
    Seq::new(entries.len(), |i: int| (entries[i].0@, entries[i].1@))
}

/// Some entry carries `name`.
pub open spec fn has_name<V>(entries: Seq<(Seq<char>, V)>, name: Seq<char>) -> bool {
    exists|i: int| 0 <= i < entries.len() && (#[trigger] entries[i]).0 == name
}

/// Entry `i` is the first that carries `name`.
pub open spec fn is_first<V>(entries: Seq<(Seq<char>, V)>, name: Seq<char>, i: int) -> bool {
    &&& 0 <= i < entries.len()
    &&& entries[i].0 == name
    &&& forall|j: int| 0 <= j < i ==> (#[trigger] entries[j]).0 != name
}

/// The index of the first entry named `name`, where there is one.
pub open spec fn first_index<V>(entries: Seq<(Seq<char>, V)>, name: Seq<char>) -> int {
    choose|i: int| is_first(entries, name, i)
}

/// What the first entry named `name` holds, if there is one.
pub open spec fn lookup<V>(entries: Seq<(Seq<char>, V)>, name: Seq<char>) -> Option<V> {
    if has_name(entries, name) {
        Some(entries[first_index(entries, name)].1)
    } else {
        None
    }
}

/// No name occurs twice.
pub open spec fn distinct_names<V>(entries: Seq<(Seq<char>, V)>) -> bool {
    forall|i: int, j: int|
        0 <= i < j < entries.len() ==> (#[trigger] entries[i]).0 != (#[trigger] entries[j]).0
}

/// The first entry named `name` decides what `lookup` gives.
pub proof fn lemma_lookup_first<V>(entries: Seq<(Seq<char>, V)>, name: Seq<char>, i: int)
    requires
        is_first(entries, name, i),
    ensures
        has_name(entries, name),
        first_index(entries, name) == i,
        lookup(entries, name) == Some(entries[i].1),
{
    let k = first_index(entries, name);
    assert(is_first(entries, name, k));
    assert(k == i) by {
        if k < i {
            assert(entries[k].0 != name);
        }
        if i < k {
            assert(entries[i].0 != name);
        }
    }
}

/// Where a name occurs it has a first occurrence.
pub proof fn lemma_has_first<V>(entries: Seq<(Seq<char>, V)>, name: Seq<char>) -> (i: int)
    requires
        has_name(entries, name),
    ensures
        is_first(entries, name, i),
    decreases entries.len(),
{
    let k = choose|k: int| 0 <= k < entries.len() && (#[trigger] entries[k]).0 == name;
    let front = entries.subrange(0, k);
    if has_name(front, name) {
        let i = lemma_has_first(front, name);
        assert(entries[i] == front[i]);
        assert forall|j: int| 0 <= j < i implies (#[trigger] entries[j]).0 != name by {
            assert(entries[j] == front[j]);
        }
        i
    } else {
        assert forall|j: int| 0 <= j < k implies (#[trigger] entries[j]).0 != name by {
            assert(front[j] == entries[j]);
        }
        k
    }
}

/// The index of the first entry named `name`.
pub fn find<T: View>(entries: &Vec<(String, T)>, name: &str) -> (r: Option<usize>)
    ensures
        match r {
            Some(i) => is_first(named(entries@), name@, i as int),
            None => !has_name(named(entries@), name@),
        },
{
    let key = name.to_owned();
    let mut i: usize = 0;
    while i < entries.len()
        invariant
            i <= entries.len(),
            key@ == name@,
            forall|j: int| 0 <= j < i ==> (#[trigger] named(entries@)[j]).0 != name@,
        decreases entries.len() - i,
    {
        if entries[i].0 == key {
            assert(named(entries@)[i as int].0 == name@);
            return Some(i);
        }
        i += 1;
    }
    None
}

/// Whether some name occurs twice among the entries.
pub fn has_repeated_name<T: View>(entries: &Vec<(String, T)>) -> (r: bool)
    ensures
        r == !distinct_names(named(entries@)),
{
    let ghost all = named(entries@);
    let mut i: usize = 0;
    while i < entries.len()
        invariant
            i <= entries.len(),
            all == named(entries@),
            forall|a: int, b: int|
                0 <= a < b < all.len() && a < i ==> (#[trigger] all[a]).0 != (#[trigger] all[b]).0,
        decreases entries.len() - i,
    {
        let mut j: usize = i + 1;
        while j < entries.len()
            invariant
                i < j <= entries.len(),
                all == named(entries@),
                forall|b: int| i < b < j ==> all[i as int].0 != (#[trigger] all[b]).0,
            decreases entries.len() - j,
        {
            if entries[i].0 == entries[j].0 {
                assert(all[i as int].0 == all[j as int].0);
                return true;
            }
            j += 1;
        }
        i += 1;
    }
    false
}

/// Where a file named `file` is looked for: at the requested path where
/// one was given, else under the directory `mfauth` of `xdgdir`.
pub open spec fn toml_location(
    requested: Option<Seq<char>>,
    xdgdir: Option<Seq<char>>,
    file: Seq<char>,
) -> Seq<char> {
    match requested {
        Some(path) => path,
        None => path_joined(path_joined(xdgdir->Some_0, "mfauth"@), file),
    }
}

/// The path of a configuration or cache file. A requested path wins;
/// without one the file lies under `mfauth` in the user's directory
/// `xdgdir`, which then has to be known.
pub fn find_toml(requested: &Option<String>, xdgdir: Option<String>, file: &str) -> (path: String)
    requires
        requested is Some || xdgdir is Some,
    ensures
        path@ == toml_location(
            match *requested {
                Some(p) => Some(p@),
                None => None,
            },
            match xdgdir {
                Some(p) => Some(p@),
                None => None,
            },
            file@,
        ),
{
    match requested {
        Some(path) => path.clone(),
        None => {
            let home = xdgdir.unwrap();
            let folder = push_path(home.as_str(), "mfauth");
            push_path(folder.as_str(), file)
        },
    }
}

/// The configured accounts, by name.
#[derive(Debug, PartialEq, Eq)]
pub struct Config {
    pub accounts: Vec<(String, AccountConfig)>,
}

impl View for Config {
    type V = Seq<(Seq<char>, AccountConfigView)>;

    open spec fn view(&self) -> Seq<(Seq<char>, AccountConfigView)> {
        named(self.accounts@)
    }
}

/// The cached tokens, by account name.
#[derive(Debug, PartialEq, Eq)]
pub struct Cache {
    pub accounts: Vec<(String, Tokens)>,
}

impl View for Cache {
    type V = Seq<(Seq<char>, TokensView)>;

    open spec fn view(&self) -> Seq<(Seq<char>, TokensView)> {
        named(self.accounts@)
    }
}

/// The accounts of one run: every configured account, with the tokens that
/// the cache held for it.
#[derive(Debug, PartialEq, Eq)]
pub struct Store {
    pub conf_path: String,
    pub cache_path: String,
    pub accounts: Vec<(String, Account)>,
}

/// One account per configured name, in the configuration's order, each with
/// the tokens that the cache holds under that name.
pub open spec fn merged(
    config: Seq<(Seq<char>, AccountConfigView)>,
    cache: Seq<(Seq<char>, TokensView)>,
) -> Seq<(Seq<char>, AccountView)> {
    Seq::new(
        config.len(),
        |i: int| (config[i].0, AccountView { conf: config[i].1, tokens: lookup(cache, config[i].0) }),
    )
}

/// The tokens of the accounts that hold some, in the accounts' order.
pub open spec fn cache_of(accounts: Seq<(Seq<char>, AccountView)>) -> Seq<(Seq<char>, TokensView)>
    decreases accounts.len(),
{
    if accounts.len() == 0 {
        Seq::empty()
    } else {
        let rest = cache_of(accounts.drop_last());
        match accounts.last().1.tokens {
            Some(tokens) => rest.push((accounts.last().0, tokens)),
            None => rest,
        }
    }
}

/// The accounts as a mapping from name to account.
pub open spec fn by_name(accounts: Seq<(Seq<char>, AccountView)>) -> Map<Seq<char>, AccountView> {
    Map::new(|name: Seq<char>| has_name(accounts, name), |name: Seq<char>| lookup(accounts, name)->Some_0)
}

impl Store {
    /// The accounts in the order in which they are held.
    pub open spec fn entries(&self) -> Seq<(Seq<char>, AccountView)> {
        named(self.accounts@)
    }

    /// No account name occurs twice.
    pub open spec fn wf(&self) -> bool {
        distinct_names(self.entries())
    }

    /// Builds the store of a run from the configuration and the cache:
    /// the configuration decides which accounts exist, the cache gives
    /// their tokens, and what the cache holds under other names is left out.
    /// A configuration or a cache in which a name occurs twice is malformed
    /// and gives `PersistenceError`.
    pub fn read(conf_path: String, cache_path: String, config: Config, cache: Cache) -> (r: Result<
        Store,
        Error,
    >)
        ensures
            match r {
                Ok(store) => {
                    &&& distinct_names(config@) && distinct_names(cache@)
                    &&& store.conf_path == conf_path
                    &&& store.cache_path == cache_path
                    &&& store.entries() == merged(config@, cache@)
                    &&& store.wf()
                },
                Err(e) => {
                    &&& !(distinct_names(config@) && distinct_names(cache@))
                    &&& e@ == ErrorView::PersistenceError
                },
            },
    {
        if has_repeated_name(&config.accounts) || has_repeated_name(&cache.accounts) {
            return Err(Error::PersistenceError);
        }
        let Config { accounts: configured } = config;
        let mut accounts: Vec<(String, Account)> = Vec::new();
        let ghost all = named(configured@);
        let mut i: usize = 0;
        while i < configured.len()
            invariant
                i <= configured.len(),
                all == named(configured@),
                accounts@.len() == i,
                forall|j: int| 0 <= j < i ==> (#[trigger] named(accounts@)[j]) == merged(all, cache@)[j],
            decreases configured.len() - i,
        {
            let name = configured[i].0.clone();
            let conf = configured[i].1.clone();
            let tokens = match find(&cache.accounts, name.as_str()) {
                Some(k) => {
                    proof {
                        lemma_lookup_first(cache@, name@, k as int);
                    }
                    Some(cache.accounts[k].1.clone())
                },
                None => None,
            };
            let ghost before = accounts@;
            let account = Account { conf, tokens };
            assert(account@ == merged(all, cache@)[i as int].1);
            assert(name@ == merged(all, cache@)[i as int].0);
            accounts.push((name, account));
            assert forall|j: int| 0 <= j < i + 1 implies (#[trigger] named(accounts@)[j]) == merged(
                all,
                cache@,
            )[j] by {
                if j < i {
                    assert(accounts@[j] == before[j]);
                    assert(named(before)[j] == merged(all, cache@)[j]);
                }
            }
            i += 1;
        }
        let store = Store { conf_path, cache_path, accounts };
        assert(store.entries() =~= merged(config@, cache@));
        Ok(store)
    }

    /// The account named `name`, or `UnknownAccount` where none carries
    /// that name.
    pub fn get(&self, name: &str) -> (r: Result<&Account, Error>)
        ensures
            match r {
                Ok(account) => lookup(self.entries(), name@) == Some(account@),
                Err(e) => !has_name(self.entries(), name@) && e@ == ErrorView::UnknownAccount,
            },
    {
        match find(&self.accounts, name) {
            Some(i) => {
                proof {
                    lemma_lookup_first(self.entries(), name@, i as int);
                }
                Ok(&self.accounts[i].1)
            },
            None => Err(Error::UnknownAccount),
        }
    }

    /// The account named `name`, to be changed in place, or
    /// `UnknownAccount` where none carries that name. Nothing but that
    /// account can change through the reference.
    pub fn get_mut(&mut self, name: &str) -> (r: Result<&mut Account, Error>)
        ensures
            match r {
                Ok(account) => {
                    let i = first_index(old(self).entries(), name@);
                    &&& is_first(old(self).entries(), name@, i)
                    &&& *account == old(self).accounts@[i].1
                    &&& final(self).accounts@ == old(self).accounts@.update(
                        i,
                        (old(self).accounts@[i].0, *final(account)),
                    )
                    &&& final(self).conf_path == old(self).conf_path
                    &&& final(self).cache_path == old(self).cache_path
                },
                Err(e) => {
                    &&& !has_name(old(self).entries(), name@)
                    &&& e@ == ErrorView::UnknownAccount
                    &&& *final(self) == *old(self)
                },
            },
    {
        match find(&self.accounts, name) {
            Some(i) => {
                proof {
                    lemma_lookup_first(self.entries(), name@, i as int);
                }
                Ok(&mut self.accounts[i].1)
            },
            None => Err(Error::UnknownAccount),
        }
    }

    /// What is to be written to the cache: the tokens of every account that
    /// holds some, under the account's name. Settings are never part of it.
    pub fn write(&self) -> (cache: Cache)
        ensures
            cache@ == cache_of(self.entries()),
    {
        let mut out: Vec<(String, Tokens)> = Vec::new();
        let mut i: usize = 0;
        while i < self.accounts.len()
            invariant
                i <= self.accounts.len(),
                named(out@) == cache_of(self.entries().subrange(0, i as int)),
            decreases self.accounts.len() - i,
        {
            proof {
                assert(self.entries().subrange(0, i + 1).drop_last() =~= self.entries().subrange(
                    0,
                    i as int,
                ));
            }
            let ghost before = named(out@);
            if let Some(tokens) = &self.accounts[i].1.tokens {
                out.push((self.accounts[i].0.clone(), tokens.clone()));
                assert(named(out@) =~= before.push((self.accounts[i as int].0@, tokens@)));
            }
            i += 1;
        }
        assert(self.entries().subrange(0, i as int) =~= self.entries());
        Cache { accounts: out }
    }
}

impl View for Store {
    type V = Map<Seq<char>, AccountView>;

    open spec fn view(&self) -> Map<Seq<char>, AccountView> {
        by_name(self.entries())
    }
}

} // verus!
