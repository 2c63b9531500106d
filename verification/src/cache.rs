//! The credential store: the scope set that credentials were issued under,
//! and the accounts' credentials, as one JSON document.

use vstd::prelude::*;
use vstd::string::*;
use crate::accounts::{AccountMap, Credential, CredentialState, CredentialValue};
use crate::assoc::{distinct_keys, has_key, lookup, put};
use crate::error::AppError;
use crate::json::{array_items, document_in, lemma_array_view, member, member_of, members_in};
use crate::json::{names_to_json, object_members, object_of, text_in};
use crate::json::{text_of, text_values, Json, JsonValue};
use crate::text::texts;

verus! {

/// What the store holds.
#[derive(Debug)]
pub struct Cache {
    pub accounts: AccountMap,
    pub scopes: Vec<String>,
}

/// The value of a [`Cache`].
pub struct CacheValue {
    pub accounts: Seq<(Seq<char>, CredentialValue)>,
    pub scopes: Seq<Seq<char>>,
}

impl View for Cache {
    type V = CacheValue;

    open spec fn view(&self) -> CacheValue {
        CacheValue { accounts: self.accounts@, scopes: texts(self.scopes@) }
    }
}

impl Default for Cache {
    fn default() -> (r: Self)
        ensures
            r@.accounts.len() == 0,
            r@.scopes.len() == 0,
    {
        Cache { accounts: AccountMap::new(), scopes: Vec::new() }
    }
}

/// The document of a credential: its two tokens. Its validity state is not
/// written.
pub open spec fn credential_document(credential: CredentialValue) -> JsonValue {
    JsonValue::Object(
        seq![
            ("access_token"@, JsonValue::Text(credential.access_token)),
            ("refresh_token"@, JsonValue::Text(credential.refresh_token)),
        ],
    )
}

/// The members of the accounts object: one per account, under its identifier.
pub open spec fn account_members(accounts: Seq<(Seq<char>, CredentialValue)>) -> Seq<
    (Seq<char>, JsonValue),
> {
    Seq::new(accounts.len(), |i: int| (accounts[i].0, credential_document(accounts[i].1)))
}

/// The document of the store: the scopes as an array of strings, the accounts
/// as an object keyed by account identifier.
pub open spec fn cache_document(cache: CacheValue) -> JsonValue {
    JsonValue::Object(
        seq![
            ("scopes"@, JsonValue::Array(text_values(cache.scopes))),
            ("accounts"@, JsonValue::Object(account_members(cache.accounts))),
        ],
    )
}

/// The credential that a document holds: an object with the two tokens as
/// strings. It is `Cached`.
pub open spec fn credential_in(document: JsonValue) -> Option<CredentialValue> {
    if document is Object && text_in(lookup(document->Object_0, "access_token"@)) is Some
        && text_in(lookup(document->Object_0, "refresh_token"@)) is Some {
        Some(
            CredentialValue {
                access_token: text_in(lookup(document->Object_0, "access_token"@))->Some_0,
                refresh_token: text_in(lookup(document->Object_0, "refresh_token"@))->Some_0,
                state: CredentialState::Cached,
            },
        )
    } else {
        None
    }
}

/// The accounts that the members of an object hold: each member is inserted
/// under its name, in order, so that a later member replaces an earlier one
/// of the same name. Nothing where a member holds no credential.
pub open spec fn accounts_in(members: Seq<(Seq<char>, JsonValue)>) -> Option<
    Seq<(Seq<char>, CredentialValue)>,
>
    decreases members.len(),
{
    if members.len() == 0 {
        Some(Seq::empty())
    } else {
        match (accounts_in(members.drop_last()), credential_in(members.last().1)) {
            (Some(before), Some(credential)) => Some(put(before, members.last().0, credential)),
            _ => None,
        }
    }
}

/// The texts that an array of strings holds; nothing where an item is not a
/// string.
pub open spec fn scopes_in(items: Seq<JsonValue>) -> Option<Seq<Seq<char>>> {
    if forall|i: int| 0 <= i < items.len() ==> (#[trigger] items[i]) is Text {
        Some(Seq::new(items.len(), |i: int| items[i]->Text_0))
    } else {
        None
    }
}

/// The items held by a value that is an array.
pub open spec fn items_in(value: Option<JsonValue>) -> Option<Seq<JsonValue>> {
    match value {
        Some(JsonValue::Array(items)) => Some(items),
        _ => None,
    }
}

/// What is wrong with a document that holds no store: the first of its
/// faults, in the order object, scopes, accounts.
pub open spec fn store_fault(document: JsonValue) -> Seq<char> {
    if !(document is Object) {
        "the store is an object"@
    } else if match items_in(lookup(document->Object_0, "scopes"@)) {
        Some(items) => scopes_in(items) is None,
        None => true,
    } {
        "scopes is missing or not a list of strings"@
    } else {
        "accounts is missing or not an object of credentials"@
    }
}

/// The store that a document holds: an object with an array of strings under
/// `scopes` and an object of credentials under `accounts`.
pub open spec fn cache_in(document: JsonValue) -> Option<CacheValue> {
    if document is Object {
        match (
            items_in(lookup(document->Object_0, "scopes"@)),
            members_in(lookup(document->Object_0, "accounts"@)),
        ) {
            (Some(items), Some(members)) => match (scopes_in(items), accounts_in(members)) {
                (Some(scopes), Some(accounts)) => Some(CacheValue { accounts, scopes }),
                _ => None,
            },
            _ => None,
        }
    } else {
        None
    }
}

impl Credential {
    /// The credential as a JSON document.
    pub fn to_json(&self) -> (r: Json)
        ensures
            r@ == credential_document(self@),
    {
        let members = vec![
            member_of("access_token", Json::Text(self.access_token.clone())),
            member_of("refresh_token", Json::Text(self.refresh_token.clone())),
        ];
        assert(object_members(members@) =~= credential_document(self@)->Object_0);
        object_of(members)
    }

    /// Reads a credential from its document.
    pub fn from_json(document: &Json) -> (r: Option<Credential>)
        ensures
            match r {
                Some(c) => credential_in(document@) == Some(c@),
                None => credential_in(document@) is None,
            },
    {
        let members = match document.as_members() {
            Some(members) => members,
            None => {
                return None;
            },
        };
        let access_token = match member(members, "access_token") {
            Some(value) => value.as_text(),
            None => None,
        };
        let refresh_token = match member(members, "refresh_token") {
            Some(value) => value.as_text(),
            None => None,
        };
        match (access_token, refresh_token) {
            (Some(access_token), Some(refresh_token)) => Some(
                Credential::new(access_token.clone(), refresh_token.clone()),
            ),
            _ => None,
        }
    }
}

fn accounts_to_json(accounts: &AccountMap) -> (r: Json)
    ensures
        r@ == JsonValue::Object(account_members(accounts@)),
{
    let mut out: Vec<(String, Json)> = Vec::new();
    let n = accounts.len();
    let mut i: usize = 0;
    while i < n
        invariant
            n == accounts@.len(),
            i <= n,
            out.len() == i,
            forall|k: int|
                0 <= k < i ==> (out@[k].0@, out@[k].1@) == account_members(accounts@)[k],
        decreases n - i,
    {
        match accounts.get(i) {
            Some(account) => {
                out.push((account.account_id.clone(), account.credential.to_json()));
            },
            None => {},
        }
        i += 1;
    }
    assert(object_members(out@) =~= account_members(accounts@));
    object_of(out)
}

fn accounts_from_json(members: &Vec<(String, Json)>) -> (r: Option<AccountMap>)
    ensures
        match r {
            Some(accounts) => accounts_in(object_members(members@)) == Some(accounts@),
            None => accounts_in(object_members(members@)) is None,
        },
{
    let ghost all = object_members(members@);
    let mut accounts = AccountMap::new();
    let mut i: usize = 0;
    assert(all.take(0) =~= Seq::empty());
    while i < members.len()
        invariant
            all == object_members(members@),
            i <= members.len(),
            accounts_in(all.take(i as int)) == Some(accounts@),
        decreases members.len() - i,
    {
        proof {
            assert(all.take(i as int + 1).drop_last() =~= all.take(i as int));
            assert(all.take(i as int + 1).last() == all[i as int]);
        }
        match Credential::from_json(&members[i].1) {
            Some(credential) => {
                accounts = accounts.insert(members[i].0.clone(), credential);
            },
            None => {
                proof {
                    lemma_accounts_in_prefix(all, i as int + 1);
                }
                return None;
            },
        }
        i += 1;
    }
    assert(all.take(i as int) =~= all);
    Some(accounts)
}

/// Where a prefix of the members holds no accounts, the whole does not.
proof fn lemma_accounts_in_prefix(members: Seq<(Seq<char>, JsonValue)>, n: int)
    requires
        0 <= n <= members.len(),
        accounts_in(members.take(n)) is None,
    ensures
        accounts_in(members) is None,
    decreases members.len() - n,
{
    if n < members.len() {
        assert(members.take(n + 1).drop_last() =~= members.take(n));
        lemma_accounts_in_prefix(members, n + 1);
    } else {
        assert(members.take(n) =~= members);
    }
}

fn scopes_from_json(items: &Vec<Json>) -> (r: Option<Vec<String>>)
    ensures
        match r {
            Some(scopes) => scopes_in(array_items(items@)) == Some(texts(scopes@)),
            None => scopes_in(array_items(items@)) is None,
        },
{
    let mut out: Vec<String> = Vec::new();
    let mut i: usize = 0;
    while i < items.len()
        invariant
            i <= items.len(),
            out.len() == i,
            forall|k: int| 0 <= k < i ==> array_items(items@)[k] == JsonValue::Text(out@[k]@),
        decreases items.len() - i,
    {
        match items[i].as_text() {
            Some(s) => {
                out.push(s.clone());
            },
            None => {
                assert(!(array_items(items@)[i as int] is Text));
                return None;
            },
        }
        i += 1;
    }
    assert(scopes_in(array_items(items@))->Some_0 =~= texts(out@));
    Some(out)
}

impl Cache {
    /// The store as a JSON document.
    pub fn to_json(&self) -> (r: Json)
        ensures
            r@ == cache_document(self@),
    {
        let members = vec![
            member_of("scopes", names_to_json(&self.scopes)),
            member_of("accounts", accounts_to_json(&self.accounts)),
        ];
        assert(object_members(members@) =~= cache_document(self@)->Object_0);
        object_of(members)
    }

    /// Reads the store from its document. A document that holds no store is
    /// a failure of the store's format. Members that the store does not name
    /// are passed over.
    pub fn from_json(document: &Json) -> (r: Result<Cache, AppError>)
        ensures
            match r {
                Ok(cache) => cache_in(document@) == Some(cache@),
                Err(AppError::CacheParse(detail)) => cache_in(document@) is None && detail@
                    == store_fault(document@),
                Err(_) => false,
            },
    {
        let members = match document.as_members() {
            Some(members) => members,
            None => {
                return Err(AppError::CacheParse(String::from_str("the store is an object")));
            },
        };
        let scopes = match member(members, "scopes") {
            Some(Json::Array(items)) => {
                proof {
                    lemma_array_view(*items);
                }
                scopes_from_json(items)
            },
            _ => None,
        };
        let accounts = match member(members, "accounts") {
            Some(value) => match value.as_members() {
                Some(fields) => accounts_from_json(fields),
                None => None,
            },
            None => None,
        };
        match (scopes, accounts) {
            (Some(scopes), Some(accounts)) => Ok(Cache { accounts, scopes }),
            (None, _) => Err(
                AppError::CacheParse(String::from_str("scopes is missing or not a list of strings")),
            ),
            _ => Err(
                AppError::CacheParse(
                    String::from_str("accounts is missing or not an object of credentials"),
                ),
            ),
        }
    }
}

/// Reads and writes the store's content. What it reads has not been checked
/// against the remote API: every credential comes out `Cached`.
#[derive(Debug)]
pub struct CacheManager {
    cache_path: String,
}

impl CacheManager {
    /// A manager of the store at `path`.
    pub fn new(path: String) -> (r: Result<CacheManager, AppError>)
        ensures
            r matches Ok(manager) && manager.path_text() == path@,
    {
        Ok(CacheManager { cache_path: path })
    }

    /// The path of the backing file.
    pub closed spec fn path_text(self) -> Seq<char> {
        self.cache_path@
    }

    /// The path of the backing file.
    pub fn path(&self) -> (r: &String)
        ensures
            r@ == self.path_text(),
    {
        &self.cache_path
    }

    /// What a load comes to, given what the JSON parser made of the backing
    /// file's content: without a file there is no store yet; a content that
    /// is no JSON document, or a document that holds no store, is a failure
    /// of the store's format.
    pub open spec fn loaded(
        parsed: Option<Option<JsonValue>>,
        r: Result<Option<Cache>, AppError>,
    ) -> bool {
        match parsed {
            None => r matches Ok(None),
            Some(None) => r matches Err(AppError::CacheParse(_)),
            Some(Some(document)) => match cache_in(document) {
                Some(cache) => r matches Ok(Some(loaded)) && loaded@ == cache,
                None => r matches Err(AppError::CacheParse(detail)) && detail@ == store_fault(
                    document,
                ),
            },
        }
    }

    /// Reads the store from the content of the backing file: `None` where
    /// the file does not exist.
    pub fn load(&self, content: Option<&str>) -> (r: Result<Option<Cache>, AppError>)
        ensures
            CacheManager::loaded(
                match content {
                    Some(text) => Some(document_in(text@)),
                    None => None,
                },
                r,
            ),
    {
        match content {
            None => Ok(None),
            Some(text) => match Json::parse(text) {
                Ok(document) => match Cache::from_json(&document) {
                    Ok(cache) => Ok(Some(cache)),
                    Err(e) => Err(e),
                },
                Err(message) => Err(AppError::CacheParse(message)),
            },
        }
    }

    /// The content that replaces the backing file: the document of exactly
    /// the given scopes and credentials, as JSON text. Nothing of an earlier
    /// content is kept.
    pub fn save(&self, scopes: Vec<String>, credentials: AccountMap) -> (r: String)
        ensures
            r@ == text_of(
                cache_document(CacheValue { accounts: credentials@, scopes: texts(scopes@) }),
            ),
    {
        let cache = Cache { accounts: credentials, scopes };
        let document = cache.to_json();
        document.render()
    }
}

/// A credential is read back from its document with the tokens it had. Its
/// validity state is not written, so it comes back `Cached`.
pub proof fn lemma_credential_round_trip(credential: CredentialValue)
    ensures
        credential_in(credential_document(credential)) == Some(
            CredentialValue { state: CredentialState::Cached, ..credential },
        ),
{
    reveal_with_fuel(lookup, 3);
    reveal_strlit("access_token");
    reveal_strlit("refresh_token");
    assert("access_token"@[0] != "refresh_token"@[0]);
}

/// Accounts with distinct identifiers are read back from their members as
/// they were, in their order, each `Cached`.
pub proof fn lemma_accounts_round_trip(accounts: Seq<(Seq<char>, CredentialValue)>)
    requires
        distinct_keys(accounts),
    ensures
        accounts_in(account_members(accounts)) == Some(
            Seq::new(
                accounts.len(),
                |i: int|
                    (
                        accounts[i].0,
                        CredentialValue { state: CredentialState::Cached, ..accounts[i].1 },
                    ),
            ),
        ),
    decreases accounts.len(),
{
    let cached = Seq::new(
        accounts.len(),
        |i: int| (accounts[i].0, CredentialValue { state: CredentialState::Cached, ..accounts[i].1 }),
    );
    if accounts.len() == 0 {
        assert(cached =~= Seq::empty());
    } else {
        let before = accounts.drop_last();
        let members = account_members(accounts);
        assert(members.drop_last() =~= account_members(before));
        lemma_accounts_round_trip(before);
        lemma_credential_round_trip(accounts.last().1);
        let read = accounts_in(account_members(before))->Some_0;
        assert(!has_key(read, accounts.last().0)) by {
            if has_key(read, accounts.last().0) {
                let i = crate::assoc::position(read, accounts.last().0);
                assert(read[i].0 == accounts[i].0);
                assert(accounts[i].0 != accounts[accounts.len() - 1].0);
            }
        }
        assert(put(read, members.last().0, credential_in(members.last().1)->Some_0) =~= cached);
    }
}

/// Saving and then loading yields exactly what was saved: the store that is
/// read from the document of a store is that store. This holds of every
/// store whose account identifiers are distinct and whose credentials are
/// `Cached`, the state in which the store keeps them.
pub proof fn lemma_cache_round_trip(cache: CacheValue)
    requires
        distinct_keys(cache.accounts),
        forall|i: int|
            0 <= i < cache.accounts.len() ==> (#[trigger] cache.accounts[i]).1.state
                == CredentialState::Cached,
    ensures
        cache_in(cache_document(cache)) == Some(cache),
{
    reveal_with_fuel(lookup, 3);
    reveal_strlit("scopes");
    reveal_strlit("accounts");
    assert("scopes"@[0] != "accounts"@[0]);
    lemma_accounts_round_trip(cache.accounts);
    let items = text_values(cache.scopes);
    assert(scopes_in(items)->Some_0 =~= cache.scopes);
    assert(accounts_in(account_members(cache.accounts))->Some_0 =~= cache.accounts);
}

/// The same at the level of the backing file: where the JSON parser reads
/// back the document that the serializer wrote, a load of what was saved
/// succeeds with exactly the saved scopes and accounts.
pub proof fn lemma_save_then_load(cache: CacheValue, r: Result<Option<Cache>, AppError>)
    requires
        distinct_keys(cache.accounts),
        forall|i: int|
            0 <= i < cache.accounts.len() ==> (#[trigger] cache.accounts[i]).1.state
                == CredentialState::Cached,
        document_in(text_of(cache_document(cache))) == Some(cache_document(cache)),
        CacheManager::loaded(Some(document_in(text_of(cache_document(cache)))), r),
    ensures
        r matches Ok(Some(loaded)) && loaded@ == cache,
{
    lemma_cache_round_trip(cache);
}

} // verus!
