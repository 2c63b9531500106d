//! Credentials and the map from account identifiers to them.

use vstd::prelude::*;
use vstd::string::*;
use crate::assoc::{distinct_keys, has_key, keys, lookup, position, put};
use crate::assoc::{lemma_lookup_at, lemma_lookup_has_key};

verus! {

/// What is known of a credential's validity. The store does not keep it:
/// what is loaded is `Cached` until it has been checked.
#[derive(Debug, Clone, Copy, PartialEq, Eq, Structural)]
pub enum CredentialState {
    Cached,
    Expired,
    Valid,
}

impl Default for CredentialState {
    fn default() -> (r: Self)
        ensures
            r == CredentialState::Cached,
    {
        CredentialState::Cached
    }
}

/// An access and refresh token pair for one account.
#[derive(Debug, Clone)]
pub struct Credential {
    pub access_token: String,
    pub refresh_token: String,
    pub state: CredentialState,
}

/// The value of a [`Credential`].
pub struct CredentialValue {
    pub access_token: Seq<char>,
    pub refresh_token: Seq<char>,
    pub state: CredentialState,
}

impl View for Credential {
    type V = CredentialValue;

    open spec fn view(&self) -> CredentialValue {
        CredentialValue {
            access_token: self.access_token@,
            refresh_token: self.refresh_token@,
            state: self.state,
        }
    }
}

impl Credential {
    /// A credential as it comes out of the store or of an authorization.
    pub fn new(access_token: String, refresh_token: String) -> (r: Credential)
        ensures
            r.access_token == access_token,
            r.refresh_token == refresh_token,
            r.state == CredentialState::Cached,
    {
        Credential { access_token, refresh_token, state: CredentialState::Cached }
    }

    /// An independent copy.
    pub fn duplicate(&self) -> (r: Credential)
        ensures
            r@ == self@,
    {
        Credential {
            access_token: self.access_token.clone(),
            refresh_token: self.refresh_token.clone(),
            state: self.state,
        }
    }

    /// A copy with another validity state.
    pub fn with_state(&self, state: CredentialState) -> (r: Credential)
        ensures
            r@ == (CredentialValue { state, ..self@ }),
    {
        Credential {
            access_token: self.access_token.clone(),
            refresh_token: self.refresh_token.clone(),
            state,
        }
    }
}

/// One account: its identifier and its credential.
#[derive(Debug, Clone)]
pub struct Account {
    pub account_id: String,
    pub credential: Credential,
}

/// The entries of a list of accounts, each as identifier and credential value.
pub open spec fn account_entries(accounts: Seq<Account>) -> Seq<(Seq<char>, CredentialValue)> {
    Seq::new(accounts.len(), |i: int| (accounts[i].account_id@, accounts[i].credential@))
}

/// A map from account identifier to credential. It keeps its entries in the
/// order in which their identifiers were first inserted; no identifier
/// occurs twice.
#[derive(Debug)]
pub struct AccountMap {
    entries: Vec<Account>,
}

impl View for AccountMap {
    type V = Seq<(Seq<char>, CredentialValue)>;

    closed spec fn view(&self) -> Seq<(Seq<char>, CredentialValue)> {
        account_entries(self.entries@)
    }
}

impl AccountMap {
    #[verifier::type_invariant]
    spec fn well_formed(self) -> bool {
        distinct_keys(account_entries(self.entries@))
    }

    /// The empty map.
    pub fn new() -> (r: AccountMap)
        ensures
            r@ == Seq::<(Seq<char>, CredentialValue)>::empty(),
    {
        let r = AccountMap { entries: Vec::new() };
        assert(r@ =~= Seq::<(Seq<char>, CredentialValue)>::empty());
        r
    }

    /// The number of accounts. No two of them share an identifier.
    pub fn len(&self) -> (r: usize)
        ensures
            r == self@.len(),
            distinct_keys(self@),
    {
        proof {
            use_type_invariant(self);
        }
        self.entries.len()
    }

    /// The account at position `i`, if there is one.
    pub fn get(&self, i: usize) -> (r: Option<&Account>)
        ensures
            match r {
                Some(a) => i < self@.len() && self@[i as int] == (a.account_id@, a.credential@),
                None => i >= self@.len(),
            },
    {
        if i < self.entries.len() {
            Some(&self.entries[i])
        } else {
            None
        }
    }

    fn index_of(&self, account_id: &str) -> (r: Option<usize>)
        ensures
            match r {
                Some(i) => i < self@.len() && self@[i as int].0 == account_id@,
                None => !has_key(self@, account_id@),
            },
    {
        let wanted = String::from_str(account_id);
        let mut i: usize = 0;
        while i < self.entries.len()
            invariant
                i <= self.entries.len(),
                wanted@ == account_id@,
                forall|k: int| 0 <= k < i ==> (#[trigger] self@[k]).0 != account_id@,
            decreases self.entries.len() - i,
        {
            if self.entries[i].account_id == wanted {
                return Some(i);
            }
            i += 1;
        }
        None
    }

    /// The credential kept under `account_id`.
    pub fn find(&self, account_id: &str) -> (r: Option<&Credential>)
        ensures
            match r {
                Some(c) => lookup(self@, account_id@) == Some(c@),
                None => lookup(self@, account_id@) is None,
            },
    {
        proof {
            use_type_invariant(self);
            lemma_lookup_has_key(self@, account_id@);
        }
        match self.index_of(account_id) {
            Some(i) => {
                proof {
                    lemma_lookup_at(self@, i as int);
                }
                Some(&self.entries[i].credential)
            },
            None => None,
        }
    }

    /// Whether an account is kept under `account_id`.
    pub fn contains(&self, account_id: &str) -> (r: bool)
        ensures
            r == has_key(self@, account_id@),
    {
        match self.index_of(account_id) {
            Some(i) => {
                assert(self@[i as int].0 == account_id@);
                true
            },
            None => false,
        }
    }

    /// The map with `credential` under `account_id`: in the place of the
    /// credential that was kept there, or as a new last entry.
    pub fn insert(self, account_id: String, credential: Credential) -> (r: AccountMap)
        ensures
            r@ == put(self@, account_id@, credential@),
            distinct_keys(r@),
    {
        proof {
            use_type_invariant(&self);
            crate::assoc::lemma_put(self@, account_id@, credential@, account_id@);
        }
        let ghost before = self@;
        let found = self.index_of(account_id.as_str());
        let mut entries = self.entries;
        match found {
            Some(i) => {
                proof {
                    assert(before[i as int].0 == account_id@);
                    assert(has_key(before, account_id@));
                    let p = position(before, account_id@);
                    if p != i as int {
                        if p < i as int {
                            assert(before[p].0 != before[i as int].0);
                        } else {
                            assert(before[i as int].0 != before[p].0);
                        }
                    }
                }
                entries.set(i, Account { account_id, credential });
                assert(account_entries(entries@) =~= put(before, account_id@, credential@));
            },
            None => {
                entries.push(Account { account_id, credential });
                assert(account_entries(entries@) =~= put(before, account_id@, credential@));
            },
        }
        AccountMap { entries }
    }

    /// The identifiers of the accounts, in the map's order.
    pub fn ids(&self) -> (r: Vec<String>)
        ensures
            crate::text::texts(r@) == keys(self@),
    {
        let mut out: Vec<String> = Vec::new();
        let mut i: usize = 0;
        while i < self.entries.len()
            invariant
                i <= self.entries.len(),
                out.len() == i,
                forall|k: int| 0 <= k < i ==> out@[k]@ == (#[trigger] self@[k]).0,
            decreases self.entries.len() - i,
        {
            out.push(self.entries[i].account_id.clone());
            i += 1;
        }
        assert(crate::text::texts(out@) =~= keys(self@));
        out
    }
}

} // verus!
