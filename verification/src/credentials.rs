//! Who may still use, or store, which credential.
//!
//! Work that outlives the command that started it holds a lease. Signing out
//! or starting over makes every lease of the credential stale at once, so a
//! late result can neither be used nor written back.

use vstd::prelude::*;

use crate::error::{ApiError, ApiResult, ApiSource};
use crate::text::{chars_of, is_white, whitespace};

verus! {

/// A place for one stored credential.
#[derive(Clone, Copy, Debug, PartialEq, Eq, Structural)]
pub enum Slot {
    Shared,
    Personal,
    Playback,
    Proxy,
}

/// The slot of an application's Web API grant.
pub open spec fn slot_of(source: ApiSource) -> Slot {
    match source {
        ApiSource::Shared => Slot::Shared,
        ApiSource::Personal => Slot::Personal,
    }
}

pub fn web_slot(source: ApiSource) -> (slot: Slot)
    ensures
        slot == slot_of(source),
{
    match source {
        ApiSource::Shared => Slot::Shared,
        ApiSource::Personal => Slot::Personal,
    }
}

/// Leave to use a credential, for as long as nobody withdraws it.
#[derive(Clone, Copy, Debug, PartialEq, Eq, Structural)]
pub struct Lease {
    pub slot: Slot,
    pub epoch: u64,
}

/// The epoch of each slot. A lease counts while its epoch is the slot's.
#[derive(Clone, Copy, Debug, PartialEq, Eq, Structural)]
pub struct Ledger {
    pub shared: u64,
    pub personal: u64,
    pub playback: u64,
    pub proxy: u64,
}

impl Ledger {
    pub open spec fn initial() -> Ledger {
        Ledger { shared: 0, personal: 0, playback: 0, proxy: 0 }
    }

    pub open spec fn epoch(self, slot: Slot) -> u64 {
        match slot {
            Slot::Shared => self.shared,
            Slot::Personal => self.personal,
            Slot::Playback => self.playback,
            Slot::Proxy => self.proxy,
        }
    }

    /// Every epoch can still be counted up this often.
    pub open spec fn spare(self, times: nat) -> bool {
        &&& self.shared + times <= u64::MAX
        &&& self.personal + times <= u64::MAX
        &&& self.playback + times <= u64::MAX
        &&& self.proxy + times <= u64::MAX
    }

    pub open spec fn lease_of(self, slot: Slot) -> Lease {
        Lease { slot, epoch: self.epoch(slot) }
    }

    pub open spec fn holds(self, lease: Lease) -> bool {
        self.epoch(lease.slot) == lease.epoch
    }

    pub open spec fn invalidated(self, slot: Slot) -> Ledger {
        match slot {
            Slot::Shared => Ledger { shared: (self.shared + 1) as u64, ..self },
            Slot::Personal => Ledger { personal: (self.personal + 1) as u64, ..self },
            Slot::Playback => Ledger { playback: (self.playback + 1) as u64, ..self },
            Slot::Proxy => Ledger { proxy: (self.proxy + 1) as u64, ..self },
        }
    }

    /// Every Spotify credential withdrawn.
    pub open spec fn without_spotify(self) -> Ledger {
        self.invalidated(Slot::Shared).invalidated(Slot::Personal).invalidated(Slot::Playback)
    }

    pub fn new() -> (ledger: Ledger)
        ensures
            ledger == Ledger::initial(),
    {
        Ledger { shared: 0, personal: 0, playback: 0, proxy: 0 }
    }

    pub fn lease(&self, slot: Slot) -> (lease: Lease)
        ensures
            lease == self.lease_of(slot),
            self.holds(lease),
    {
        let epoch: u64 = match slot {
            Slot::Shared => self.shared,
            Slot::Personal => self.personal,
            Slot::Playback => self.playback,
            Slot::Proxy => self.proxy,
        };
        Lease { slot, epoch }
    }

    /// Whether a lease still counts.
    pub fn current(&self, lease: Lease) -> (r: bool)
        ensures
            r == self.holds(lease),
    {
        self.lease(lease.slot).epoch == lease.epoch
    }

    /// Makes every lease of a slot stale.
    pub fn invalidate(&mut self, slot: Slot)
        requires
            old(self).epoch(slot) < u64::MAX,
        ensures
            *final(self) == old(self).invalidated(slot),
    {
        match slot {
            Slot::Shared => {
                self.shared = self.shared + 1;
            },
            Slot::Personal => {
                self.personal = self.personal + 1;
            },
            Slot::Playback => {
                self.playback = self.playback + 1;
            },
            Slot::Proxy => {
                self.proxy = self.proxy + 1;
            },
        }
    }

    /// Makes every lease of a Spotify credential stale.
    pub fn revoke_spotify(&mut self)
        requires
            old(self).spare(1),
        ensures
            *final(self) == old(self).without_spotify(),
    {
        self.invalidate(Slot::Shared);
        self.invalidate(Slot::Personal);
        self.invalidate(Slot::Playback);
    }
}

/// A lease that became stale is not current again, whatever is invalidated
/// after it; the leases of other slots are left alone.
pub proof fn stale_leases_stay_stale(ledger: Ledger, lease: Lease, slot: Slot)
    requires
        ledger.spare(1),
        lease.epoch <= ledger.epoch(lease.slot),
    ensures
        !ledger.invalidated(lease.slot).holds(lease),
        !ledger.holds(lease) ==> !ledger.invalidated(slot).holds(lease),
        slot != lease.slot ==> ledger.invalidated(slot).holds(lease) == ledger.holds(lease),
        lease.epoch <= ledger.invalidated(slot).epoch(lease.slot),
{
}

/// Signing out makes every lease of a Spotify credential stale and keeps the
/// proxy's.
pub proof fn revoking_spotify_keeps_the_proxy(ledger: Ledger, lease: Lease)
    requires
        ledger.spare(1),
        ledger.holds(lease),
    ensures
        ledger.without_spotify().holds(lease) == (lease.slot == Slot::Proxy),
{
}

/// A Web API grant: tokens of one registered application.
#[derive(Debug, PartialEq, Eq)]
pub struct StoredToken {
    pub client_id: String,
    pub access_token: String,
    pub refresh_token: String,
    pub expires_at: u64,
    pub scope: String,
}

impl Clone for StoredToken {
    fn clone(&self) -> (r: Self)
        ensures
            r == *self,
    {
        StoredToken {
            client_id: self.client_id.clone(),
            access_token: self.access_token.clone(),
            refresh_token: self.refresh_token.clone(),
            expires_at: self.expires_at,
            scope: self.scope.clone(),
        }
    }
}

impl Default for StoredToken {
    fn default() -> (r: Self)
        ensures
            r.client_id@.len() == 0,
            r.access_token@.len() == 0,
            r.refresh_token@.len() == 0,
            r.expires_at == 0,
            r.scope@.len() == 0,
    {
        StoredToken {
            client_id: String::new(),
            access_token: String::new(),
            refresh_token: String::new(),
            expires_at: 0,
            scope: String::new(),
        }
    }
}

/// Whether a word stands in a text, between blanks.
pub open spec fn has_word(text: Seq<char>, word: Seq<char>) -> bool {
    exists|at: int|
        0 <= at <= text.len() - word.len() && #[trigger] text.subrange(at, at + word.len()) == word
            && (at == 0 || whitespace(text[at - 1])) && (at + word.len() == text.len()
            || whitespace(text[at + word.len()]))
}

fn contains_word(text: &str, word: &str) -> (r: bool)
    ensures
        r == has_word(text@, word@),
{
    let chars = chars_of(text);
    let wanted = chars_of(word);
    let mut at: usize = 0;
    while at <= chars.len() && wanted.len() <= chars.len() - at
        invariant
            chars@ == text@,
            wanted@ == word@,
            at <= chars@.len() + 1,
            chars@.len() == chars.len(),
            forall|k: int|
                0 <= k < at && k <= text@.len() - word@.len() ==> !(#[trigger] text@.subrange(
                    k,
                    k + word@.len(),
                ) == word@ && (k == 0 || whitespace(text@[k - 1])) && (k + word@.len()
                    == text@.len() || whitespace(text@[k + word@.len()]))),
        decreases chars.len() + 1 - at,
    {
        let mut i: usize = 0;
        while i < wanted.len() && chars[at + i] == wanted[i]
            invariant
                chars@ == text@,
                wanted@ == word@,
                i <= wanted@.len(),
                at + wanted@.len() <= chars@.len(),
                chars@.len() == chars.len(),
                forall|k: int| 0 <= k < i ==> chars@[at + k] == wanted@[k],
            decreases wanted.len() - i,
        {
            i += 1;
        }
        let same = i == wanted.len();
        proof {
            if same {
                assert(text@.subrange(at as int, at + word@.len()) =~= word@);
            } else {
                assert(text@.subrange(at as int, at + word@.len())[i as int] != word@[i as int]);
            }
        }
        if same && (at == 0 || is_white(chars[at - 1])) && (at + wanted.len() == chars.len()
            || is_white(chars[at + wanted.len()])) {
            return true;
        }
        if at == chars.len() {
            return false;
        }
        at += 1;
    }
    false
}

/// Whether a grant has every permission that is needed.
pub open spec fn covers(scope: Seq<char>, needed: Seq<String>) -> bool {
    forall|i: int| 0 <= i < needed.len() ==> has_word(scope, (#[trigger] needed[i])@)
}

impl StoredToken {
    pub fn has_scopes(&self, needed: &Vec<String>) -> (r: bool)
        ensures
            r == covers(self.scope@, needed@),
    {
        let mut i: usize = 0;
        while i < needed.len()
            invariant
                i <= needed@.len(),
                forall|k: int| 0 <= k < i ==> has_word(self.scope@, (#[trigger] needed@[k])@),
            decreases needed.len() - i,
        {
            if !contains_word(self.scope.as_str(), needed[i].as_str()) {
                return false;
            }
            i += 1;
        }
        true
    }
}

/// How an attempt to get a fresh token ended.
#[derive(Debug, PartialEq, Eq)]
pub enum Refresh {
    /// There is no network client to ask with.
    NoClient(String),
    /// The token endpoint gave new tokens.
    Renewed(StoredToken),
    /// The token endpoint answered with something that holds no token.
    Unusable,
    /// The token endpoint refused the grant.
    Rejected,
    /// The token endpoint could not be asked.
    Unreachable(String),
}

/// What a request that needs a token does first.
#[derive(Clone, Copy, Debug, PartialEq, Eq, Structural)]
pub enum TokenStep {
    /// The grant was withdrawn.
    Expired,
    /// The token at hand is good.
    UseHeld,
    /// A fresh token has to be asked for.
    Refresh,
}

/// Where the tokens of requests come from. The playback grant has its own, and
/// they are never used here.
pub enum TokenProvider {
    Web(WebTokens),
}

/// A Web API grant in use: renewed as it ages, and stored once the account
/// behind it is known.
pub struct WebTokens {
    pub token: StoredToken,
    pub lease: Lease,
    pub remember: bool,
    pub source: ApiSource,
}

/// What an attempt to renew comes to: the request's answer, the token held
/// from now on, and the token to store.
pub struct Renewal {
    pub answer: ApiResult<String>,
    pub store: Option<StoredToken>,
}

impl WebTokens {
    pub fn new(token: StoredToken, lease: Lease, source: ApiSource) -> (r: WebTokens)
        ensures
            r.token == token,
            r.lease == lease,
            r.source == source,
            !r.remember,
    {
        WebTokens { token, lease, remember: false, source }
    }

    /// Starts storing the grant, once the account behind it was verified. The
    /// token to store now; `None` when the grant was withdrawn.
    pub fn remember(&mut self, ledger: &Ledger) -> (store: Option<StoredToken>)
        ensures
            final(self).remember,
            final(self).token == old(self).token,
            final(self).lease == old(self).lease,
            final(self).source == old(self).source,
            store == if ledger.holds(old(self).lease) {
                Some(old(self).token)
            } else {
                None
            },
    {
        self.remember = true;
        if ledger.current(self.lease) {
            Some(self.token.clone())
        } else {
            None
        }
    }

    pub open spec fn token_step(self, ledger: Ledger, force: bool, aging: bool) -> TokenStep {
        if !ledger.holds(self.lease) {
            TokenStep::Expired
        } else if force || aging {
            TokenStep::Refresh
        } else {
            TokenStep::UseHeld
        }
    }

    /// What a request that needs a token does first. `force` is set after the
    /// server refused the token, `aging` when the token is close to its end.
    pub fn access_token(&self, ledger: &Ledger, force: bool, aging: bool) -> (r: Result<
        Option<String>,
        ApiError,
    >)
        ensures
            match self.token_step(*ledger, force, aging) {
                TokenStep::Expired => r == Result::<Option<String>, ApiError>::Err(
                    ApiError::SignInExpired { api_source: self.source },
                ),
                TokenStep::UseHeld => r == Result::<Option<String>, ApiError>::Ok(
                    Some(self.token.access_token),
                ),
                TokenStep::Refresh => r == Result::<Option<String>, ApiError>::Ok(None),
            },
    {
        if !ledger.current(self.lease) {
            Err(ApiError::SignInExpired { api_source: self.source })
        } else if force || aging {
            Ok(None)
        } else {
            Ok(Some(self.token.access_token.clone()))
        }
    }

    /// The token held once an attempt to renew has ended.
    pub open spec fn held_after(self, ledger: Ledger, outcome: Refresh) -> StoredToken {
        match outcome {
            Refresh::Renewed(updated) => if ledger.holds(self.lease) {
                updated
            } else {
                self.token
            },
            _ => self.token,
        }
    }

    pub open spec fn answer_after(
        self,
        ledger: Ledger,
        outcome: Refresh,
        force: bool,
        expired: bool,
    ) -> ApiResult<String> {
        match outcome {
            Refresh::NoClient(detail) => Err(ApiError::Network(detail)),
            Refresh::Renewed(updated) => if ledger.holds(self.lease) {
                Ok(updated.access_token)
            } else {
                Err(ApiError::SignInExpired { api_source: self.source })
            },
            Refresh::Unusable => Ok(self.token.access_token),
            Refresh::Rejected => Err(ApiError::SignInExpired { api_source: self.source }),
            Refresh::Unreachable(detail) => if force || expired {
                Err(ApiError::Network(detail))
            } else {
                Ok(self.token.access_token)
            },
        }
    }

    pub open spec fn store_after(self, ledger: Ledger, outcome: Refresh) -> Option<StoredToken> {
        match outcome {
            Refresh::Renewed(updated) => if ledger.holds(self.lease) && self.remember {
                Some(updated)
            } else {
                None
            },
            _ => None,
        }
    }

    /// Takes the end of an attempt to renew. `expired` says whether the token
    /// at hand has run out: one that has not is still used when the endpoint
    /// cannot be reached.
    pub fn renewed(
        &mut self,
        ledger: &Ledger,
        outcome: Refresh,
        force: bool,
        expired: bool,
    ) -> (r: Renewal)
        ensures
            r.answer == old(self).answer_after(*ledger, outcome, force, expired),
            r.store == old(self).store_after(*ledger, outcome),
            final(self).token == old(self).held_after(*ledger, outcome),
            final(self).lease == old(self).lease,
            final(self).remember == old(self).remember,
            final(self).source == old(self).source,
    {
        match outcome {
            Refresh::NoClient(detail) => Renewal {
                answer: Err(ApiError::Network(detail)),
                store: None,
            },
            Refresh::Renewed(updated) => {
                if !ledger.current(self.lease) {
                    return Renewal {
                        answer: Err(ApiError::SignInExpired { api_source: self.source }),
                        store: None,
                    };
                }
                let store = if self.remember {
                    Some(updated.clone())
                } else {
                    None
                };
                let answer = Ok(updated.access_token.clone());
                self.token = updated;
                Renewal { answer, store }
            },
            Refresh::Unusable => Renewal {
                answer: Ok(self.token.access_token.clone()),
                store: None,
            },
            Refresh::Rejected => Renewal {
                answer: Err(ApiError::SignInExpired { api_source: self.source }),
                store: None,
            },
            Refresh::Unreachable(detail) => {
                if force || expired {
                    Renewal { answer: Err(ApiError::Network(detail)), store: None }
                } else {
                    Renewal { answer: Ok(self.token.access_token.clone()), store: None }
                }
            },
        }
    }
}

/// A grant that was withdrawn gives out no token before a refresh, hands on
/// and stores no token that a refresh brought, and asks for a new sign-in.
pub proof fn a_withdrawn_grant_gives_and_stores_nothing(
    tokens: WebTokens,
    ledger: Ledger,
    updated: StoredToken,
    force: bool,
    aging: bool,
    expired: bool,
)
    requires
        !ledger.holds(tokens.lease),
    ensures
        tokens.token_step(ledger, force, aging) is Expired,
        tokens.answer_after(ledger, Refresh::Renewed(updated), force, expired) == ApiResult::<
            String,
        >::Err(ApiError::SignInExpired { api_source: tokens.source }),
        tokens.store_after(ledger, Refresh::Renewed(updated)) is None,
        tokens.held_after(ledger, Refresh::Renewed(updated)) == tokens.token,
{
}

/// Nothing is stored before the account behind the grant is verified.
pub proof fn an_unverified_grant_is_not_stored(tokens: WebTokens, ledger: Ledger, outcome: Refresh)
    requires
        !tokens.remember,
    ensures
        tokens.store_after(ledger, outcome) is None,
{
}

} // verus!
