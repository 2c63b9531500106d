//! Authorization: the decisions of the interactive flow that obtains a
//! credential, and of the session building that turns stored credentials
//! into usable accounts.

use vstd::prelude::*;
use vstd::string::*;
use crate::accounts::{AccountMap, CredentialState, CredentialValue};
use crate::assoc::{distinct_keys, has_key, lemma_lookup_has_key, lemma_put, lookup, put};
use crate::cache::{Cache, CacheValue};
use crate::error::{AppError, OAuthFailure};
use crate::text::{prefixed, same_set, same_text, texts};

verus! {

/// The provider's authorization endpoint.
pub const AUTH_URL: &'static str = "https://twitter.com/i/oauth2/authorize";

/// The provider's token endpoint.
pub const TOKEN_URL: &'static str = "https://api.twitter.com/2/oauth2/token";

/// Where the provider sends the browser back to.
pub const REDIRECT_URL: &'static str = "http://localhost:31337";

/// The address on which the one-shot callback listener waits.
pub const CALLBACK_ADDRESS: &'static str = "localhost:31337";

/// What the browser is shown once the tokens have arrived.
pub const SUCCESS_PAGE: &'static str =
    "Authentication succeeded! Now you can safely close this page.";

/// What the remote API said of one stored credential.
#[derive(Debug)]
pub enum TokenCheck {
    /// The token is no longer valid.
    Expired,
    /// The token is valid, and belongs to the account that the API names.
    Valid { account_id: String },
}

/// What session building yields: the sessions, keyed by the identifier that
/// the remote API gave, and the store to write back, if one is to be written.
#[derive(Debug)]
pub struct SessionSet {
    pub clients: AccountMap,
    pub persist: Option<Cache>,
}

/// Whether a store can be used under the configured scopes: there is one,
/// and its scopes are the same set.
pub open spec fn usable(scopes: Seq<Seq<char>>, stored: Option<CacheValue>) -> bool {
    stored matches Some(cache) && cache.scopes.to_set() == scopes.to_set()
}

/// A credential that has passed its check.
pub open spec fn validated(credential: CredentialValue) -> CredentialValue {
    CredentialValue { state: CredentialState::Valid, ..credential }
}

/// The stored accounts whose check said `Valid`, under their stored
/// identifiers and in their stored order.
pub open spec fn survivors(
    accounts: Seq<(Seq<char>, CredentialValue)>,
    checks: Seq<TokenCheck>,
) -> Seq<(Seq<char>, CredentialValue)>
    recommends
        accounts.len() == checks.len(),
    decreases accounts.len(),
{
    if accounts.len() == 0 || accounts.len() != checks.len() {
        Seq::empty()
    } else {
        let before = survivors(accounts.drop_last(), checks.drop_last());
        match checks.last() {
            TokenCheck::Valid { .. } => put(
                before,
                accounts.last().0,
                validated(accounts.last().1),
            ),
            TokenCheck::Expired => before,
        }
    }
}

/// The sessions: for each stored account whose check said `Valid`, its
/// credential under the identifier that the check names. Where two checks
/// name one identifier, the later account has the session.
pub open spec fn sessions(
    accounts: Seq<(Seq<char>, CredentialValue)>,
    checks: Seq<TokenCheck>,
) -> Seq<(Seq<char>, CredentialValue)>
    recommends
        accounts.len() == checks.len(),
    decreases accounts.len(),
{
    if accounts.len() == 0 || accounts.len() != checks.len() {
        Seq::empty()
    } else {
        let before = sessions(accounts.drop_last(), checks.drop_last());
        match checks.last() {
            TokenCheck::Valid { account_id } => put(
                before,
                account_id@,
                validated(accounts.last().1),
            ),
            TokenCheck::Expired => before,
        }
    }
}

/// What the flow waits for.
#[derive(Debug)]
pub enum AuthState {
    /// The authorization URL is out; the callback has not come. `state` is
    /// the CSRF token that was sent, `verifier` the PKCE verifier.
    AwaitingCallback { state: String, verifier: String },
    /// The code is at the token endpoint.
    AwaitingTokens,
    /// The flow is over.
    Finished,
}

/// What happened outside.
#[derive(Debug)]
pub enum AuthEvent {
    /// The listener received its one request: its path and query.
    Callback { request_url: String },
    /// The user handed in the address that the browser was sent back to.
    Redirected { address: String },
    /// The token endpoint answered with tokens.
    Exchanged { access_token: String, refresh_token: Option<String> },
    /// The token endpoint did not.
    ExchangeFailed { detail: String },
}

/// What is to be done outside next.
#[derive(Debug)]
pub enum AuthAction {
    /// Exchange the code, with the verifier, at the token endpoint.
    Exchange { code: String, verifier: String },
    /// Show the browser `page`; the flow yields the two tokens.
    Succeed { access_token: String, refresh_token: String, page: String },
    /// The attempt is over, with this failure.
    Fail(AppError),
}

/// The pairs of a query, each name and value by its text.
pub open spec fn pair_texts(pairs: Seq<(String, String)>) -> Seq<(Seq<char>, Seq<char>)> {
    Seq::new(pairs.len(), |i: int| (pairs[i].0@, pairs[i].1@))
}

/// The name and value pairs of an address's query, as the URL parser and
/// the form decoder read them; nothing where the address is no absolute URL.
pub uninterp spec fn query_pairs_in(address: Seq<char>) -> Option<Seq<(Seq<char>, Seq<char>)>>;

/// `url::Url::parse` on `address`, then `Url::query_pairs` on the result,
/// each pair copied into owned strings. The contract claims only that the
/// outcome is a function of the address: the pairs are
/// `query_pairs_in(address)`, and the call fails exactly where that is
/// nothing. The error carries the parser's message.
#[verifier::external_body]
fn query_pairs(address: &str) -> (r: Result<Vec<(String, String)>, String>)
    ensures
        match r {
            Ok(pairs) => query_pairs_in(address@) == Some(pair_texts(pairs@)),
            Err(_) => query_pairs_in(address@) is None,
        },
{
    match url::Url::parse(address) {
        Ok(parsed) => Ok(
            parsed.query_pairs().map(|(k, v)| (k.into_owned(), v.into_owned())).collect(),
        ),
        Err(e) => Err(e.to_string()),
    }
}

/// The authorization address that the OAuth2 client builds for the given
/// endpoint, redirect address, client, scopes, PKCE verifier and CSRF state;
/// nothing where the endpoint or the redirect address is no URL.
pub uninterp spec fn authorization_url_in(
    auth_url: Seq<char>,
    redirect_url: Seq<char>,
    client_id: Seq<char>,
    scopes: Seq<Seq<char>>,
    verifier: Seq<char>,
    state: Seq<char>,
) -> Option<Seq<char>>;

/// Whether a PKCE verifier has a length that the OAuth2 client accepts: 43
/// to 128 bytes.
pub open spec fn verifier_fits(verifier: Seq<char>) -> bool {
    43 <= vstd::utf8::encode_utf8(verifier).len() <= 128
}

/// `oauth2::PkceCodeChallenge::new_random_sha256`, of which the verifier's
/// secret is kept. The verifier is random: the contract claims only its
/// length, which that function asserts before it returns.
#[verifier::external_body]
fn random_verifier() -> (r: String)
    ensures
        verifier_fits(r@),
{
    oauth2::PkceCodeChallenge::new_random_sha256().1.secret().clone()
}

/// `oauth2::CsrfToken::new_random`, of which the secret is kept. The token
/// is random: nothing is claimed of it.
#[verifier::external_body]
fn random_state() -> String {
    oauth2::CsrfToken::new_random().secret().clone()
}

/// `oauth2::Client::authorize_url` with the given scopes and the SHA-256
/// challenge of the verifier (`PkceCodeChallenge::from_code_verifier_sha256`,
/// which panics on a verifier of another length than `requires` admits),
/// then `AuthorizationRequest::url`. The client is built from the endpoint,
/// the redirect address and the client identifier alone. The contract
/// claims only that the outcome is a function of the arguments: the address
/// is `authorization_url_in` of them, and the call fails exactly where that
/// is nothing.
#[verifier::external_body]
fn authorization_url(
    auth_url: &str,
    redirect_url: &str,
    client_id: &str,
    scopes: &Vec<String>,
    verifier: &str,
    state: &str,
) -> (r: Result<String, String>)
    requires
        verifier_fits(verifier@),
    ensures
        match r {
            Ok(url) => authorization_url_in(
                auth_url@,
                redirect_url@,
                client_id@,
                texts(scopes@),
                verifier@,
                state@,
            ) == Some(url@),
            Err(_) => authorization_url_in(
                auth_url@,
                redirect_url@,
                client_id@,
                texts(scopes@),
                verifier@,
                state@,
            ) is None,
        },
{
    let auth = oauth2::AuthUrl::new(auth_url.to_owned()).map_err(|e| e.to_string())?;
    let redirect = oauth2::RedirectUrl::new(redirect_url.to_owned()).map_err(|e| e.to_string())?;
    let id = oauth2::ClientId::new(client_id.to_owned());
    let client = oauth2::basic::BasicClient::new(id, None, auth, None).set_redirect_uri(redirect);
    let key = oauth2::PkceCodeVerifier::new(verifier.to_owned());
    let request = client
        .authorize_url(|| oauth2::CsrfToken::new(state.to_owned()))
        .add_scopes(scopes.iter().map(|s| oauth2::Scope::new(s.clone())))
        .set_pkce_challenge(oauth2::PkceCodeChallenge::from_code_verifier_sha256(&key));
    Ok(request.url().0.to_string())
}

/// The value of the first pair called `name`.
pub fn first_value<'a>(pairs: &'a Vec<(String, String)>, name: &str) -> (r: Option<&'a String>)
    ensures
        match r {
            Some(value) => lookup(pair_texts(pairs@), name@) == Some(value@),
            None => lookup(pair_texts(pairs@), name@) is None,
        },
{
    let wanted = String::from_str(name);
    let ghost all = pair_texts(pairs@);
    let mut i: usize = 0;
    assert(all.skip(0) =~= all);
    while i < pairs.len()
        invariant
            i <= pairs.len(),
            wanted@ == name@,
            all == pair_texts(pairs@),
            lookup(all, name@) == lookup(all.skip(i as int), name@),
        decreases pairs.len() - i,
    {
        proof {
            let rest = all.skip(i as int);
            assert(rest[0] == all[i as int]);
            assert(rest.drop_first() =~= all.skip(i as int + 1));
        }
        if pairs[i].0 == wanted {
            return Some(&pairs[i].1);
        }
        i += 1;
    }
    assert(all.skip(i as int).len() == 0);
    None
}

/// What a callback with the given query comes to when `expected` is the CSRF
/// token that was sent out: the authorization code, where the query holds a
/// `code` and a `state` and that state is `expected`, character for
/// character; else the failure, of which a missing code comes first.
pub open spec fn callback_outcome(
    expected: Seq<char>,
    pairs: Seq<(Seq<char>, Seq<char>)>,
) -> Result<Seq<char>, OAuthFailure> {
    match (lookup(pairs, "code"@), lookup(pairs, "state"@)) {
        (None, _) => Err(OAuthFailure::MissingCode),
        (Some(_), None) => Err(OAuthFailure::MissingState),
        (Some(code), Some(returned)) => if returned == expected {
            Ok(code)
        } else {
            Err(OAuthFailure::InvalidState)
        },
    }
}

/// Checks the pairs of a callback's query against the CSRF token that was
/// sent out, and yields the authorization code.
pub fn check_callback(expected: &str, pairs: &Vec<(String, String)>) -> (r: Result<
    String,
    AppError,
>)
    ensures
        match r {
            Ok(code) => callback_outcome(expected@, pair_texts(pairs@)) == Ok::<
                Seq<char>,
                OAuthFailure,
            >(code@),
            Err(AppError::OAuth(failure)) => callback_outcome(expected@, pair_texts(pairs@))
                == Err::<Seq<char>, OAuthFailure>(failure),
            Err(_) => false,
        },
{
    let code = match first_value(pairs, "code") {
        Some(code) => code,
        None => {
            return Err(AppError::OAuth(OAuthFailure::MissingCode));
        },
    };
    let returned = match first_value(pairs, "state") {
        Some(returned) => returned,
        None => {
            return Err(AppError::OAuth(OAuthFailure::MissingState));
        },
    };
    if !same_text(returned.as_str(), expected) {
        return Err(AppError::OAuth(OAuthFailure::InvalidState));
    }
    Ok(code.clone())
}

/// What reading the callback at `address` comes to, where `expected` is the
/// CSRF token that was sent out and `parsed` is what the URL parser made of
/// the address's query.
pub open spec fn callback_read(
    expected: Seq<char>,
    parsed: Option<Seq<(Seq<char>, Seq<char>)>>,
    r: Result<String, AppError>,
) -> bool {
    match parsed {
        None => r matches Err(AppError::OAuthUrlParse(_)),
        Some(pairs) => match callback_outcome(expected, pairs) {
            Ok(code) => r matches Ok(found) && found@ == code,
            Err(failure) => r == Err::<String, AppError>(AppError::OAuth(failure)),
        },
    }
}

/// Reads the authorization code from the address that the browser was sent
/// back to: the address is parsed, and its query is checked against the CSRF
/// token that was sent out. An address that is no URL is refused with the
/// parser's message.
pub fn read_callback(expected: &str, address: &str) -> (r: Result<String, AppError>)
    ensures
        callback_read(expected@, query_pairs_in(address@), r),
{
    match query_pairs(address) {
        Ok(pairs) => check_callback(expected, &pairs),
        Err(message) => Err(AppError::OAuthUrlParse(message)),
    }
}

/// The address that a callback's request stands for: the request's path and
/// query behind the redirect address.
pub open spec fn callback_address(request_url: Seq<char>) -> Seq<char> {
    REDIRECT_URL@ + "/"@ + request_url
}

/// The address that an event brings back, where it brings one: that of the
/// listener's request, or the one that the user handed in.
pub open spec fn returned_address(event: AuthEvent) -> Option<Seq<char>> {
    match event {
        AuthEvent::Callback { request_url } => Some(callback_address(request_url@)),
        AuthEvent::Redirected { address } => Some(address@),
        _ => None,
    }
}

/// What the flow does, while it waits for the callback, on the address that
/// came back.
pub open spec fn on_callback(
    expected: String,
    verifier: String,
    address: Seq<char>,
    next: AuthState,
    action: AuthAction,
) -> bool {
    match query_pairs_in(address) {
        None => {
            &&& next is Finished
            &&& action matches AuthAction::Fail(AppError::OAuthUrlParse(_))
        },
        Some(pairs) => match callback_outcome(expected@, pairs) {
            Ok(code) => {
                &&& next is AwaitingTokens
                &&& action matches AuthAction::Exchange { code: sent, verifier: proof_key }
                &&& sent@ == code
                &&& proof_key == verifier
            },
            Err(failure) => next is Finished && action == AuthAction::Fail(
                AppError::OAuth(failure),
            ),
        },
    }
}

/// What the flow does on an event in a state. Only a callback whose state is
/// the one that was sent out leads to an exchange; an event that the state
/// does not wait for ends the flow.
pub open spec fn stepped(
    state: AuthState,
    event: AuthEvent,
    next: AuthState,
    action: AuthAction,
) -> bool {
    match (state, event) {
        (
            AuthState::AwaitingCallback { state: expected, verifier },
            AuthEvent::Callback { request_url },
        ) => on_callback(expected, verifier, callback_address(request_url@), next, action),
        (
            AuthState::AwaitingCallback { state: expected, verifier },
            AuthEvent::Redirected { address },
        ) => on_callback(expected, verifier, address@, next, action),
        (AuthState::AwaitingTokens, AuthEvent::Exchanged { access_token, refresh_token }) => {
            &&& next is Finished
            &&& action matches AuthAction::Succeed { access_token: access, refresh_token: refresh, page }
            &&& access == access_token
            &&& page@ == SUCCESS_PAGE@
            &&& match refresh_token {
                Some(token) => refresh == token,
                None => refresh@ == Seq::<char>::empty(),
            }
        },
        (AuthState::AwaitingTokens, AuthEvent::ExchangeFailed { detail }) => {
            next is Finished && action == AuthAction::Fail(
                AppError::OAuth(OAuthFailure::Exchange(detail)),
            )
        },
        _ => next is Finished && action == AuthAction::Fail(
            AppError::OAuth(OAuthFailure::Unexpected),
        ),
    }
}

/// Whether the flow waited for a callback, and the callback that came
/// carries the state that was sent out, and `code` as its code.
pub open spec fn callback_proves(state: AuthState, event: AuthEvent, code: Seq<char>) -> bool {
    &&& state matches AuthState::AwaitingCallback { state: expected, .. }
    &&& returned_address(event) matches Some(address)
    &&& query_pairs_in(address) matches Some(pairs)
    &&& lookup(pairs, "state"@) == Some(expected@)
    &&& lookup(pairs, "code"@) == Some(code)
}

/// What is needed to authorize accounts and to build their sessions.
#[derive(Debug)]
pub struct Auth {
    client_id: String,
    client_secret: String,
    scopes: Vec<String>,
    cache_path: String,
}

impl Auth {
    /// The client's identifier and secret, the scopes to ask for, and where
    /// the credential store lies.
    pub fn new(client_id: String, client_secret: String, scopes: Vec<String>, cache_path: String) -> (r:
        Auth)
        ensures
            r.client_id_text() == client_id@,
            r.client_secret_text() == client_secret@,
            r.scope_texts() == texts(scopes@),
            r.cache_path_text() == cache_path@,
    {
        Auth { client_id, client_secret, scopes, cache_path }
    }

    /// The client identifier.
    pub closed spec fn client_id_text(self) -> Seq<char> {
        self.client_id@
    }

    /// The client secret.
    pub closed spec fn client_secret_text(self) -> Seq<char> {
        self.client_secret@
    }

    /// The configured scopes.
    pub closed spec fn scope_texts(self) -> Seq<Seq<char>> {
        texts(self.scopes@)
    }

    /// The path of the credential store.
    pub closed spec fn cache_path_text(self) -> Seq<char> {
        self.cache_path@
    }

    /// The client identifier.
    pub fn client_id(&self) -> (r: &String)
        ensures
            r@ == self.client_id_text(),
    {
        &self.client_id
    }

    /// The client secret.
    pub fn client_secret(&self) -> (r: &String)
        ensures
            r@ == self.client_secret_text(),
    {
        &self.client_secret
    }

    /// The configured scopes.
    pub fn scopes(&self) -> (r: &Vec<String>)
        ensures
            texts(r@) == self.scope_texts(),
    {
        &self.scopes
    }

    /// The path of the credential store.
    pub fn cache_path(&self) -> (r: &String)
        ensures
            r@ == self.cache_path_text(),
    {
        &self.cache_path
    }

    /// What an authorization with the given CSRF state and PKCE verifier
    /// starts with, given the address that the OAuth2 client built.
    pub open spec fn started(
        self,
        state: String,
        verifier: String,
        r: Result<(AuthState, String), AppError>,
    ) -> bool {
        if !verifier_fits(verifier@) {
            r matches Err(AppError::OAuth(OAuthFailure::Verifier))
        } else {
            match authorization_url_in(
                AUTH_URL@,
                REDIRECT_URL@,
                self.client_id_text(),
                self.scope_texts(),
                verifier@,
                state@,
            ) {
                Some(address) => {
                    &&& r matches Ok((next, url))
                    &&& next == (AuthState::AwaitingCallback { state, verifier })
                    &&& url@ == address
                },
                None => r matches Err(AppError::OAuthUrlParse(_)),
            }
        }
    }

    /// Starts an authorization with a given CSRF state and PKCE verifier:
    /// yields the address to show the user, which asks for the configured
    /// scopes and carries the state and the verifier's challenge, and the
    /// state in which the flow waits for the callback. A verifier of
    /// another length than 43 to 128 bytes is refused.
    pub fn authorization(&self, state: String, verifier: String) -> (r: Result<
        (AuthState, String),
        AppError,
    >)
        ensures
            self.started(state, verifier, r),
    {
        let n = verifier.as_str().as_bytes().len();
        if n < 43 || n > 128 {
            return Err(AppError::OAuth(OAuthFailure::Verifier));
        }
        match authorization_url(
            AUTH_URL,
            REDIRECT_URL,
            self.client_id.as_str(),
            &self.scopes,
            verifier.as_str(),
            state.as_str(),
        ) {
            Ok(url) => Ok((AuthState::AwaitingCallback { state, verifier }, url)),
            Err(message) => Err(AppError::OAuthUrlParse(message)),
        }
    }

    /// Starts an authorization with a fresh random CSRF state and PKCE
    /// verifier. Whatever was drawn, the outcome is that of
    /// [`Auth::authorization`] on it, and the verifier is never refused.
    pub fn begin(&self) -> (r: Result<(AuthState, String), AppError>)
        ensures
            exists|state: String, verifier: String|
                verifier_fits(verifier@) && #[trigger] self.started(state, verifier, r),
    {
        let verifier = random_verifier();
        let state = random_state();
        self.authorization(state, verifier)
    }

    /// Whether the stored credentials can be used: there is a store and its
    /// scopes are the configured set. Where this is false no credential is
    /// to be checked against the remote API.
    pub fn accepts(&self, stored: &Option<Cache>) -> (r: bool)
        ensures
            r == usable(
                self.scope_texts(),
                match stored {
                    Some(cache) => Some(cache@),
                    None => None,
                },
            ),
    {
        match stored {
            Some(cache) => same_set(&cache.scopes, &self.scopes),
            None => false,
        }
    }

    /// Builds the sessions from the store and from what the remote API said
    /// of each stored credential, `checks[i]` of the store's account `i`.
    ///
    /// Without a store, or with one whose scopes are not the configured set,
    /// there are no sessions and nothing is written back, whatever the
    /// checks say. Else the sessions are the valid credentials under the
    /// identifiers that the API gave, and the store to write back holds the
    /// stored scopes and exactly the valid credentials under their stored
    /// identifiers. It is an error to hand in another number of checks than
    /// the store has accounts.
    pub fn clients(&self, stored: Option<Cache>, checks: &Vec<TokenCheck>) -> (r: Result<
        SessionSet,
        AppError,
    >)
        ensures
            match stored {
                Some(cache) if cache@.scopes.to_set() == self.scope_texts().to_set() => {
                    if checks.len() == cache@.accounts.len() {
                        &&& r matches Ok(set)
                        &&& set.clients@ == sessions(cache@.accounts, checks@)
                        &&& distinct_keys(set.clients@)
                        &&& set.persist matches Some(kept)
                        &&& kept@.scopes == cache@.scopes
                        &&& kept@.accounts == survivors(cache@.accounts, checks@)
                        &&& distinct_keys(kept@.accounts)
                    } else {
                        r matches Err(AppError::Other(detail)) && detail@
                            == "one check is needed for each stored account"@
                    }
                },
                _ => {
                    &&& r matches Ok(set)
                    &&& set.clients@.len() == 0
                    &&& set.persist is None
                },
            },
    {
        if !self.accepts(&stored) {
            return Ok(SessionSet { clients: AccountMap::new(), persist: None });
        }
        let cache = match stored {
            Some(cache) => cache,
            None => {
                return Ok(SessionSet { clients: AccountMap::new(), persist: None });
            },
        };
        let n = cache.accounts.len();
        if checks.len() != n {
            return Err(
                AppError::Other(String::from_str("one check is needed for each stored account")),
            );
        }
        let ghost accounts = cache.accounts@;
        let mut clients = AccountMap::new();
        let mut kept = AccountMap::new();
        let mut i: usize = 0;
        assert(accounts.take(0) =~= Seq::empty());
        assert(checks@.take(0) =~= Seq::empty());
        while i < n
            invariant
                accounts == cache.accounts@,
                n == accounts.len(),
                n == checks.len(),
                i <= n,
                clients@ == sessions(accounts.take(i as int), checks@.take(i as int)),
                kept@ == survivors(accounts.take(i as int), checks@.take(i as int)),
                distinct_keys(clients@),
                distinct_keys(kept@),
            decreases n - i,
        {
            proof {
                assert(accounts.take(i as int + 1).drop_last() =~= accounts.take(i as int));
                assert(checks@.take(i as int + 1).drop_last() =~= checks@.take(i as int));
                assert(accounts.take(i as int + 1).last() == accounts[i as int]);
                assert(checks@.take(i as int + 1).last() == checks@[i as int]);
            }
            match (cache.accounts.get(i), &checks[i]) {
                (Some(account), TokenCheck::Valid { account_id }) => {
                    clients = clients.insert(
                        account_id.clone(),
                        account.credential.with_state(CredentialState::Valid),
                    );
                    kept = kept.insert(
                        account.account_id.clone(),
                        account.credential.with_state(CredentialState::Valid),
                    );
                },
                _ => {},
            }
            i += 1;
        }
        assert(accounts.take(n as int) =~= accounts);
        assert(checks@.take(n as int) =~= checks@);
        Ok(SessionSet { clients, persist: Some(Cache { accounts: kept, scopes: cache.scopes }) })
    }

    /// One step of the interactive authorization: what to do next, given
    /// what the flow waits for and what happened.
    ///
    /// On the callback, or on the address that the user hands in, the
    /// address is read, `code` and `state` are looked up
    /// in its query, and the state is compared with the one that was sent
    /// out. Only where they are equal is the code handed out for the
    /// exchange: on any other callback the attempt ends, and no exchange is
    /// asked for. Tokens that arrive without a refresh token yield the empty
    /// string in its place.
    pub fn generate_tokens(&self, state: AuthState, event: AuthEvent) -> (r: (AuthState, AuthAction))
        ensures
            stepped(state, event, r.0, r.1),
            r.1 matches AuthAction::Exchange { code, .. } ==> callback_proves(state, event, code@),
            (state matches AuthState::AwaitingCallback { state: expected, .. } ==> (
            returned_address(event) matches Some(address) ==> (query_pairs_in(address) matches Some(
                pairs,
            ) ==> (lookup(pairs, "state"@) matches Some(returned) ==> (returned != expected@
                && lookup(pairs, "code"@) is Some ==> r.0 is Finished && r.1 == AuthAction::Fail(
                AppError::OAuth(OAuthFailure::InvalidState),
            )))))),
    {
        match (state, event) {
            (
                AuthState::AwaitingCallback { state: expected, verifier },
                AuthEvent::Callback { request_url },
            ) => {
                let mut address = prefixed(REDIRECT_URL, "/");
                address.append(request_url.as_str());
                match read_callback(expected.as_str(), address.as_str()) {
                    Ok(code) => (AuthState::AwaitingTokens, AuthAction::Exchange { code, verifier }),
                    Err(e) => (AuthState::Finished, AuthAction::Fail(e)),
                }
            },
            (
                AuthState::AwaitingCallback { state: expected, verifier },
                AuthEvent::Redirected { address },
            ) => {
                match read_callback(expected.as_str(), address.as_str()) {
                    Ok(code) => (AuthState::AwaitingTokens, AuthAction::Exchange { code, verifier }),
                    Err(e) => (AuthState::Finished, AuthAction::Fail(e)),
                }
            },
            (AuthState::AwaitingTokens, AuthEvent::Exchanged { access_token, refresh_token }) => {
                let refresh_token = match refresh_token {
                    Some(token) => token,
                    None => String::new(),
                };
                (
                    AuthState::Finished,
                    AuthAction::Succeed {
                        access_token,
                        refresh_token,
                        page: String::from_str(SUCCESS_PAGE),
                    },
                )
            },
            (AuthState::AwaitingTokens, AuthEvent::ExchangeFailed { detail }) => (
                AuthState::Finished,
                AuthAction::Fail(AppError::OAuth(OAuthFailure::Exchange(detail))),
            ),
            _ => (AuthState::Finished, AuthAction::Fail(AppError::OAuth(OAuthFailure::Unexpected))),
        }
    }
}

/// What is written back after session building holds exactly the stored
/// accounts that passed their check: each of them has its credential, marked
/// valid, under its stored identifier, and an account that did not pass is
/// no longer there.
pub proof fn lemma_survivors(accounts: Seq<(Seq<char>, CredentialValue)>, checks: Seq<TokenCheck>)
    requires
        distinct_keys(accounts),
        accounts.len() == checks.len(),
    ensures
        distinct_keys(survivors(accounts, checks)),
        forall|i: int|
            0 <= i < accounts.len() ==> lookup(survivors(accounts, checks), (#[trigger] accounts[i]).0)
                == if checks[i] is Valid {
                Some(validated(accounts[i].1))
            } else {
                None
            },
        forall|key: Seq<char>|
            #[trigger] has_key(survivors(accounts, checks), key) ==> has_key(accounts, key),
    decreases accounts.len(),
{
    if accounts.len() == 0 {
        assert forall|key: Seq<char>| !#[trigger] has_key(survivors(accounts, checks), key) by {}
    } else {
        let n = accounts.len() - 1;
        let head = accounts.drop_last();
        let before = survivors(head, checks.drop_last());
        let after = survivors(accounts, checks);
        lemma_survivors(head, checks.drop_last());
        let key = accounts[n].0;
        assert(!has_key(before, key)) by {
            if has_key(before, key) {
                assert(has_key(head, key));
                let j = crate::assoc::position(head, key);
                assert(accounts[j].0 != accounts[n].0);
            }
        }
        lemma_lookup_has_key(before, key);
        assert forall|i: int| 0 <= i < accounts.len() implies lookup(
            after,
            (#[trigger] accounts[i]).0,
        ) == if checks[i] is Valid {
            Some(validated(accounts[i].1))
        } else {
            None
        } by {
            if checks[n] is Valid {
                lemma_put(before, key, validated(accounts[n].1), accounts[i].0);
            }
            if i < n {
                assert(head[i] == accounts[i]);
                assert(accounts[i].0 != accounts[n].0);
            }
        }
        assert forall|other: Seq<char>| #[trigger] has_key(after, other) implies has_key(
            accounts,
            other,
        ) by {
            if checks[n] is Valid {
                lemma_put(before, key, validated(accounts[n].1), other);
            }
            if other == key {
                assert(accounts[n].0 == other);
            } else {
                assert(has_key(before, other));
                assert(has_key(head, other));
                let j = crate::assoc::position(head, other);
                assert(accounts[j].0 == other);
            }
        }
        if checks[n] is Valid {
            lemma_put(before, key, validated(accounts[n].1), key);
        }
    }
}

} // verus!
