//! The broker: what to do next for the command of a run, given what has
//! happened so far. The caller shows the link, sends the request and writes
//! the cache; every decision is taken here.

use vstd::prelude::*;
use crate::error::{Error, ErrorView};
use crate::exchange::{exchange_outcome, exchanged, request_for, request_tokens, Reply, TokenRequest, TokenRequestView};
use crate::persist::{
    cache_of, find, first_index, has_name, lemma_lookup_first, lookup, named, Account,
    AccountConfigView, AccountView, Cache, Store, TokensView,
};
use crate::store_laws::lemma_install_replaces;
use crate::wire::{append_query, query_pairs, trim, trimmed, url_query_pairs, url_with_query};

verus! {

/// The command of a run and the account that it is about.
#[derive(Debug, PartialEq, Eq)]
pub enum Action {
    /// Authorize an account: obtain its first pair of tokens.
    Authorize { account: String },
    /// Give a valid access token of an account.
    Access { account: String },
}

impl Action {
    /// The name of the account that the command is about.
    pub open spec fn account_name(self) -> Seq<char> {
        match self {
            Action::Authorize { account } => account@,
            Action::Access { account } => account@,
        }
    }

    /// The name of the account that the command is about.
    pub fn account(&self) -> (name: &str)
        ensures
            name@ == self.account_name(),
    {
        match self {
            Action::Authorize { account } => account.as_str(),
            Action::Access { account } => account.as_str(),
        }
    }
}

/// The options of a run.
#[derive(Debug, PartialEq, Eq)]
pub struct Opts {
    pub verbose: bool,
    pub config: Option<String>,
    pub cache: Option<String>,
    pub action: Action,
}

/// What the caller has to do next.
#[derive(Debug, PartialEq, Eq)]
pub enum Step {
    /// Show the link and read the redirect URL that the user pastes.
    Prompt { url: String },
    /// Send the request to the token endpoint and report the reply.
    Post { request: TokenRequest },
    /// Write the cache; once it is written, print the output.
    Save { cache: Cache, output: String },
    /// Print the output.
    Print { output: String },
}

/// A step by its values.
pub enum StepView {
    Prompt { url: Seq<char> },
    Post { request: TokenRequestView },
    Save { cache: Seq<(Seq<char>, TokensView)>, output: Seq<char> },
    Print { output: Seq<char> },
}

impl View for Step {
    type V = StepView;

    open spec fn view(&self) -> StepView {
        match *self {
            Step::Prompt { url } => StepView::Prompt { url: url@ },
            Step::Post { request } => StepView::Post { request: request@ },
            Step::Save { cache, output } => StepView::Save { cache: cache@, output: output@ },
            Step::Print { output } => StepView::Print { output: output@ },
        }
    }
}

/// A decision, by its values.
pub open spec fn decision_view(decision: Result<Step, Error>) -> Result<StepView, ErrorView> {
    match decision {
        Ok(step) => Ok(step@),
        Err(e) => Err(e@),
    }
}

/// The query parameters of the link at which the user grants access.
pub open spec fn authorize_params(conf: AccountConfigView) -> Seq<(Seq<char>, Seq<char>)> {
    seq![
        ("response_type"@, "code"@),
        ("redirect_uri"@, "http://localhost"@),
        ("client_id"@, conf.client_id),
        ("scope"@, conf.scope),
    ]
}

/// The link at which the user grants access, or `UrlConstructionError`
/// where the account's authorize URL is no URL.
pub open spec fn authorize_link(conf: AccountConfigView) -> Result<Seq<char>, ErrorView> {
    match url_with_query(conf.authorize_url, authorize_params(conf)) {
        Some(link) => Ok(link),
        None => Err(ErrorView::UrlConstructionError),
    }
}

/// The code among the query pairs of a redirect URL: the value of the
/// first pair named `code`.
pub open spec fn code_among(pairs: Seq<(Seq<char>, Seq<char>)>) -> Result<Seq<char>, ErrorView> {
    match lookup(pairs, "code"@) {
        Some(code) => Ok(code),
        None => Err(ErrorView::MissingAuthorizationCode),
    }
}

/// The authorization code in the line that the user pasted.
pub open spec fn redirect_code(input: Seq<char>) -> Result<Seq<char>, ErrorView> {
    match url_query_pairs(trimmed(input)) {
        Some(pairs) => code_among(pairs),
        None => Err(ErrorView::UrlConstructionError),
    }
}

/// The fields of the refresh grant.
pub open spec fn refresh_form(conf: AccountConfigView, refresh_token: Seq<char>) -> Seq<
    (Seq<char>, Seq<char>),
> {
    seq![
        ("grant_type"@, "refresh_token"@),
        ("client_id"@, conf.client_id),
        ("client_secret"@, conf.client_secret),
        ("refresh_token"@, refresh_token),
    ]
}

/// The refresh grant of an account, or `NoTokensToRefresh` where it holds
/// no tokens.
pub open spec fn refresh_request(account: AccountView) -> Result<TokenRequestView, ErrorView> {
    match account.tokens {
        Some(tokens) => Ok(
            request_for(refresh_form(account.conf, tokens.refresh_token), account.conf.token_url),
        ),
        None => Err(ErrorView::NoTokensToRefresh),
    }
}

/// The fields of the authorization-code grant.
pub open spec fn code_form(conf: AccountConfigView, code: Seq<char>) -> Seq<(Seq<char>, Seq<char>)> {
    seq![
        ("grant_type"@, "authorization_code"@),
        ("client_id"@, conf.client_id),
        ("redirect_uri"@, "http://localhost"@),
        ("client_secret"@, conf.client_secret),
        ("code"@, code),
    ]
}

/// The authorization-code grant of an account for `code`.
pub open spec fn code_request(conf: AccountConfigView, code: Seq<char>) -> TokenRequestView {
    request_for(code_form(conf, code), conf.token_url)
}

/// The first step of `access`: an unknown name fails; expired tokens are
/// refreshed; tokens that are still good are printed; an account without
/// tokens is not authorized, and nothing is sent for it.
pub open spec fn access_step(
    accounts: Seq<(Seq<char>, AccountView)>,
    name: Seq<char>,
    now: i64,
) -> Result<StepView, ErrorView> {
    match lookup(accounts, name) {
        None => Err(ErrorView::UnknownAccount),
        Some(account) => match account.tokens {
            None => Err(ErrorView::NotAuthorized),
            Some(tokens) => if account.needs_refresh(now) {
                Ok(
                    StepView::Post {
                        request: request_for(
                            refresh_form(account.conf, tokens.refresh_token),
                            account.conf.token_url,
                        ),
                    },
                )
            } else {
                Ok(StepView::Print { output: tokens.access_token })
            },
        },
    }
}

/// The first step of `authorize`: an unknown name fails; else the user is
/// sent to the account's link.
pub open spec fn authorize_step(accounts: Seq<(Seq<char>, AccountView)>, name: Seq<char>) -> Result<
    StepView,
    ErrorView,
> {
    match lookup(accounts, name) {
        None => Err(ErrorView::UnknownAccount),
        Some(account) => match authorize_link(account.conf) {
            Ok(url) => Ok(StepView::Prompt { url }),
            Err(e) => Err(e),
        },
    }
}

/// The step after the user pasted `input`: the code in it is exchanged
/// for tokens.
pub open spec fn redirect_step(
    accounts: Seq<(Seq<char>, AccountView)>,
    name: Seq<char>,
    input: Seq<char>,
) -> Result<StepView, ErrorView> {
    match lookup(accounts, name) {
        None => Err(ErrorView::UnknownAccount),
        Some(account) => match redirect_code(input) {
            Ok(code) => Ok(StepView::Post { request: code_request(account.conf, code) }),
            Err(e) => Err(e),
        },
    }
}

/// The accounts after `tokens` took the place of whatever the account
/// named `name` held.
pub open spec fn installed(
    accounts: Seq<(Seq<char>, AccountView)>,
    name: Seq<char>,
    tokens: TokensView,
) -> Seq<(Seq<char>, AccountView)> {
    let i = first_index(accounts, name);
    accounts.update(i, (name, AccountView { conf: accounts[i].1.conf, tokens: Some(tokens) }))
}

/// What is printed once new tokens are stored: the access token for
/// `access`, a confirmation for `authorize`.
pub open spec fn output_after(action: Action, tokens: TokensView) -> Seq<char> {
    match action {
        Action::Access { .. } => tokens.access_token,
        Action::Authorize { .. } => "Authorization OK!"@,
    }
}

/// The step after the token endpoint's reply: a failure is surfaced and
/// leaves the accounts as they were; new tokens are stored and the cache is
/// written before anything is printed.
pub open spec fn reply_step(
    accounts: Seq<(Seq<char>, AccountView)>,
    action: Action,
    reply: Reply,
    now: i64,
) -> Result<StepView, ErrorView> {
    match lookup(accounts, action.account_name()) {
        None => Err(ErrorView::UnknownAccount),
        Some(_) => match exchanged(reply, now) {
            Ok(tokens) => Ok(
                StepView::Save {
                    cache: cache_of(installed(accounts, action.account_name(), tokens)),
                    output: output_after(action, tokens),
                },
            ),
            Err(e) => Err(e),
        },
    }
}

/// The accounts after the token endpoint's reply.
pub open spec fn accounts_after(
    accounts: Seq<(Seq<char>, AccountView)>,
    action: Action,
    reply: Reply,
    now: i64,
) -> Seq<(Seq<char>, AccountView)> {
    match (lookup(accounts, action.account_name()), exchanged(reply, now)) {
        (Some(_), Ok(tokens)) => installed(accounts, action.account_name(), tokens),
        _ => accounts,
    }
}

fn field(key: &str, value: &str) -> (pair: (String, String))
    ensures
        pair.0@ == key@,
        pair.1@ == value@,
{
    (key.to_owned(), value.to_owned())
}

/// The authorization code among the query pairs of a redirect URL.
pub fn code_from_pairs(pairs: &Vec<(String, String)>) -> (r: Result<String, Error>)
    ensures
        match r {
            Ok(code) => code_among(named(pairs@)) == Ok::<Seq<char>, ErrorView>(code@),
            Err(e) => code_among(named(pairs@)) == Err::<Seq<char>, ErrorView>(e@),
        },
{
    match find(pairs, "code") {
        Some(i) => {
            proof {
                lemma_lookup_first(named(pairs@), "code"@, i as int);
            }
            Ok(pairs[i].1.clone())
        },
        None => Err(Error::MissingAuthorizationCode),
    }
}

/// The authorization code in the redirect URL that the user pasted.
pub fn code_from_redirect(input: &str) -> (r: Result<String, Error>)
    ensures
        match r {
            Ok(code) => redirect_code(input@) == Ok::<Seq<char>, ErrorView>(code@),
            Err(e) => redirect_code(input@) == Err::<Seq<char>, ErrorView>(e@),
        },
{
    match query_pairs(trim(input)) {
        Some(pairs) => code_from_pairs(&pairs),
        None => Err(Error::UrlConstructionError),
    }
}

/// The broker of one run: its options and its accounts.
#[derive(Debug, PartialEq, Eq)]
pub struct Runner {
    pub opts: Opts,
    pub store: Store,
}

impl Runner {
    /// The broker for `opts` over the loaded accounts.
    pub fn init(opts: Opts, store: Store) -> (runner: Runner)
        ensures
            runner.opts == opts,
            runner.store == store,
    {
        Runner { opts, store }
    }

    /// What is to be written to the cache for the accounts as they are.
    pub fn persist(&self) -> (cache: Cache)
        ensures
            cache@ == cache_of(self.store.entries()),
    {
        self.store.write()
    }

    /// The first step of the run's command at time `now`.
    pub fn run(&self, now: i64) -> (r: Result<Step, Error>)
        ensures
            decision_view(r) == match self.opts.action {
                Action::Authorize { account } => authorize_step(self.store.entries(), account@),
                Action::Access { account } => access_step(self.store.entries(), account@, now),
            },
    {
        match &self.opts.action {
            Action::Authorize { account } => self.authorize(account.as_str()),
            Action::Access { account } => self.get_access_token(account.as_str(), now),
        }
    }

    /// The first step towards a valid access token of the account `name`
    /// at time `now`. Tokens that are still good are printed as they are;
    /// expired ones lead to a refresh grant. An account without tokens fails
    /// with `NotAuthorized`, and no request is made for it.
    pub fn get_access_token(&self, name: &str, now: i64) -> (r: Result<Step, Error>)
        ensures
            decision_view(r) == access_step(self.store.entries(), name@, now),
            !has_name(self.store.entries(), name@) ==> r is Err && r->Err_0@
                == ErrorView::UnknownAccount,
            lookup(self.store.entries(), name@) is Some && lookup(
                self.store.entries(),
                name@,
            )->Some_0.tokens is None ==> r is Err && r->Err_0@ == ErrorView::NotAuthorized,
    {
        let account = match self.store.get(name) {
            Ok(account) => account,
            Err(e) => {
                return Err(e);
            },
        };
        if account.needs_refresh(now) {
            return match self.refresh_access_token(account) {
                Ok(request) => Ok(Step::Post { request }),
                Err(e) => Err(e),
            };
        }
        match &account.tokens {
            Some(tokens) => Ok(Step::Print { output: tokens.access_token.clone() }),
            None => Err(Error::NotAuthorized),
        }
    }

    /// The first step of authorizing the account `name`: the link to show.
    pub fn authorize(&self, name: &str) -> (r: Result<Step, Error>)
        ensures
            decision_view(r) == authorize_step(self.store.entries(), name@),
    {
        let account = match self.store.get(name) {
            Ok(account) => account,
            Err(e) => {
                return Err(e);
            },
        };
        match self.ask_for_code(account) {
            Ok(url) => Ok(Step::Prompt { url }),
            Err(e) => Err(e),
        }
    }

    /// The link at which the user grants access to `account`. The redirect
    /// URL that the user is sent to afterwards carries the code.
    pub fn ask_for_code(&self, account: &Account) -> (r: Result<String, Error>)
        ensures
            match r {
                Ok(url) => authorize_link(account@.conf) == Ok::<Seq<char>, ErrorView>(url@),
                Err(e) => authorize_link(account@.conf) == Err::<Seq<char>, ErrorView>(e@),
            },
    {
        let mut params: Vec<(String, String)> = Vec::new();
        params.push(field("response_type", "code"));
        params.push(field("redirect_uri", "http://localhost"));
        params.push(field("client_id", account.conf.client_id.as_str()));
        params.push(field("scope", account.conf.scope.as_str()));
        assert(named(params@) =~= authorize_params(account@.conf));
        match append_query(account.conf.authorize_url.as_str(), &params) {
            Some(url) => Ok(url),
            None => Err(Error::UrlConstructionError),
        }
    }

    /// The step after the user pasted `input` while the run's account is
    /// being authorized.
    pub fn redirected(&self, input: &str) -> (r: Result<Step, Error>)
        ensures
            decision_view(r) == redirect_step(
                self.store.entries(),
                self.opts.action.account_name(),
                input@,
            ),
    {
        let account = match self.store.get(self.opts.action.account()) {
            Ok(account) => account,
            Err(e) => {
                return Err(e);
            },
        };
        match code_from_redirect(input) {
            Ok(code) => Ok(Step::Post { request: self.use_authorize_code(code.as_str(), account) }),
            Err(e) => Err(e),
        }
    }

    /// The refresh grant for `account`, built from the refresh token that
    /// it holds now.
    pub fn refresh_access_token(&self, account: &Account) -> (r: Result<TokenRequest, Error>)
        ensures
            match r {
                Ok(request) => refresh_request(account@) == Ok::<TokenRequestView, ErrorView>(
                    request@,
                ),
                Err(e) => refresh_request(account@) == Err::<TokenRequestView, ErrorView>(e@),
            },
    {
        let tokens = match &account.tokens {
            Some(tokens) => tokens,
            None => {
                return Err(Error::NoTokensToRefresh);
            },
        };
        let mut form: Vec<(String, String)> = Vec::new();
        form.push(field("grant_type", "refresh_token"));
        form.push(field("client_id", account.conf.client_id.as_str()));
        form.push(field("client_secret", account.conf.client_secret.as_str()));
        form.push(field("refresh_token", tokens.refresh_token.as_str()));
        assert(named(form@) =~= refresh_form(account@.conf, tokens@.refresh_token));
        Ok(request_tokens(&form, account.conf.token_url.as_str()))
    }

    /// The authorization-code grant for `account` and `code`.
    pub fn use_authorize_code(&self, code: &str, account: &Account) -> (request: TokenRequest)
        ensures
            request@ == code_request(account@.conf, code@),
    {
        let mut form: Vec<(String, String)> = Vec::new();
        form.push(field("grant_type", "authorization_code"));
        form.push(field("client_id", account.conf.client_id.as_str()));
        form.push(field("redirect_uri", "http://localhost"));
        form.push(field("client_secret", account.conf.client_secret.as_str()));
        form.push(field("code", code));
        assert(named(form@) =~= code_form(account@.conf, code@));
        request_tokens(&form, account.conf.token_url.as_str())
    }

    /// The step after the token endpoint's `reply`, received at time `now`,
    /// for the run's account. New tokens replace the account's tokens as a
    /// whole, and the cache to write holds them. On any failure the
    /// accounts stay as they were and nothing is to be written.
    pub fn responded(&mut self, reply: &Reply, now: i64) -> (r: Result<Step, Error>)
        ensures
            decision_view(r) == reply_step(old(self).store.entries(), old(self).opts.action, *reply, now),
            final(self).store.entries() == accounts_after(
                old(self).store.entries(),
                old(self).opts.action,
                *reply,
                now,
            ),
            r is Err ==> *final(self) == *old(self),
            final(self).opts == old(self).opts,
            final(self).store.conf_path == old(self).store.conf_path,
            final(self).store.cache_path == old(self).store.cache_path,
            old(self).store.wf() ==> final(self).store.wf(),
    {
        let ghost before = self.store.entries();
        let ghost name = self.opts.action.account_name();
        if self.store.get(self.opts.action.account()).is_err() {
            return Err(Error::UnknownAccount);
        }
        let tokens = match exchange_outcome(reply, now) {
            Ok(tokens) => tokens,
            Err(e) => {
                return Err(e);
            },
        };
        let output = match &self.opts.action {
            Action::Access { .. } => tokens.access_token.clone(),
            Action::Authorize { .. } => "Authorization OK!".to_owned(),
        };
        let ghost issued = tokens@;
        match self.store.get_mut(self.opts.action.account()) {
            Ok(account) => {
                account.tokens = Some(tokens);
            },
            Err(e) => {
                return Err(e);
            },
        }
        assert(self.store.entries() =~= installed(before, name, issued));
        proof {
            lemma_install_replaces(before, name, issued, name);
        }
        let cache = self.persist();
        Ok(Step::Save { cache, output })
    }
}

} // verus!
