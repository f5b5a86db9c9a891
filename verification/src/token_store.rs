//! The token store: a mapping from access token to user identity in which
//! every entry expires a fixed time after it was written.

use vstd::prelude::*;
use crate::auth::{AuthorizationKey, AuthorizedUserId};
use crate::id::UserId;

verus! {

/// One live or expired login, as the model sees it.
pub struct Session {
    pub user: UserId,
    pub expires_at: nat,
}

/// The store as a mathematical value: a clock and the entries written so far
/// that were not deleted. An entry is live while the clock is before its
/// expiry.
pub struct TokenStoreView {
    pub now: nat,
    pub sessions: Map<Seq<char>, Session>,
}

impl TokenStoreView {
    pub open spec fn empty() -> TokenStoreView {
        TokenStoreView { now: 0, sessions: Map::empty() }
    }

    /// Whether `token` resolves at the present time.
    pub open spec fn is_live(self, token: Seq<char>) -> bool {
        self.sessions.dom().contains(token) && self.now < self.sessions[token].expires_at
    }

    /// The identity that `token` resolves to, if it is live.
    pub open spec fn resolve(self, token: Seq<char>) -> Option<UserId> {
        if self.is_live(token) {
            Some(self.sessions[token].user)
        } else {
            None
        }
    }

    /// The store after `token` was written for `user`, to expire `ttl`
    /// seconds from now. An earlier entry under the same token is replaced.
    pub open spec fn put(self, token: Seq<char>, user: UserId, ttl: nat) -> TokenStoreView {
        TokenStoreView {
            now: self.now,
            sessions: self.sessions.insert(token, Session { user, expires_at: self.now + ttl }),
        }
    }

    /// The store after `token` was deleted, whether it was there or not.
    pub open spec fn delete(self, token: Seq<char>) -> TokenStoreView {
        TokenStoreView { now: self.now, sessions: self.sessions.remove(token) }
    }

    /// The store after `seconds` have passed.
    pub open spec fn advance(self, seconds: nat) -> TokenStoreView {
        TokenStoreView { now: self.now + seconds, sessions: self.sessions }
    }
}

struct TokenEntry {
    key: String,
    user: UserId,
    expires_at: u128,
}

/// An in-memory token store with a clock of its own. Time passes only when
/// `advance` is called.
pub struct TokenStore {
    entries: Vec<TokenEntry>,
    now: u64,
}

spec fn holds_key(entries: Seq<TokenEntry>, key: Seq<char>) -> bool {
    exists|i: int| 0 <= i < entries.len() && #[trigger] entries[i].key@ == key
}

spec fn index_of(entries: Seq<TokenEntry>, key: Seq<char>) -> int {
    choose|i: int| 0 <= i < entries.len() && #[trigger] entries[i].key@ == key
}

spec fn distinct_keys(entries: Seq<TokenEntry>) -> bool {
    forall|i: int, j: int|
        0 <= i < entries.len() && 0 <= j < entries.len() && i != j
            ==> #[trigger] entries[i].key@ != #[trigger] entries[j].key@
}

spec fn sessions_of(entries: Seq<TokenEntry>) -> Map<Seq<char>, Session> {
    Map::new(
        |key: Seq<char>| holds_key(entries, key),
        |key: Seq<char>| {
            let entry = entries[index_of(entries, key)];
            Session { user: entry.user, expires_at: entry.expires_at as nat }
        },
    )
}

proof fn session_at(entries: Seq<TokenEntry>, i: int)
    requires
        distinct_keys(entries),
        0 <= i < entries.len(),
    ensures
        sessions_of(entries).dom().contains(entries[i].key@),
        sessions_of(entries)[entries[i].key@] == (Session {
            user: entries[i].user,
            expires_at: entries[i].expires_at as nat,
        }),
{
    let key = entries[i].key@;
    assert(holds_key(entries, key));
    let j = index_of(entries, key);
    assert(0 <= j < entries.len() && entries[j].key@ == key);
    assert(j == i);
}

impl View for TokenStore {
    type V = TokenStoreView;

    closed spec fn view(&self) -> TokenStoreView {
        TokenStoreView { now: self.now as nat, sessions: sessions_of(self.entries@) }
    }
}

impl TokenStore {
    /// Whether the store is well formed: no token is held twice.
    pub closed spec fn wf(&self) -> bool {
        distinct_keys(self.entries@)
    }

    /// An empty store at time zero.
    pub fn new() -> (store: TokenStore)
        ensures
            store.wf(),
            store@ == TokenStoreView::empty(),
    {
        let store = TokenStore { entries: Vec::new(), now: 0 };
        assert(store@.sessions =~= Map::empty());
        store
    }

    fn find(&self, token: &str) -> (found: Option<usize>)
        ensures
            found matches Some(i) ==> i < self.entries@.len() && self.entries@[i as int].key@ == token@,
            found is None ==> !holds_key(self.entries@, token@),
    {
        let wanted = token.to_owned();
        let mut i: usize = 0;
        while i < self.entries.len()
            invariant
                i <= self.entries@.len(),
                wanted@ == token@,
                forall|k: int| 0 <= k < i ==> #[trigger] self.entries@[k].key@ != token@,
            decreases self.entries@.len() - i,
        {
            if self.entries[i].key == wanted {
                return Some(i);
            }
            i = i + 1;
        }
        None
    }

    /// The present time of the store's clock, in seconds.
    pub fn now(&self) -> (now: u64)
        ensures
            now == self@.now,
    {
        self.now
    }

    /// Stores `token` for `identity`, to expire `ttl` seconds from now. The
    /// expiry is set with the write. Writing a token that is already there
    /// replaces its entry and nothing else.
    pub fn put(&mut self, token: &AuthorizationKey, identity: &AuthorizedUserId, ttl: u64)
        requires
            old(self).wf(),
        ensures
            final(self).wf(),
            final(self)@ == old(self)@.put(token@, identity.0, ttl as nat),
    {
        let expires_at: u128 = self.now as u128 + ttl as u128;
        let entry = TokenEntry { key: token.inner(), user: identity.0, expires_at };
        let ghost before = self.entries@;
        match self.find(token.0.as_str()) {
            Some(i) => {
                self.entries.set(i, entry);
                let ghost after = self.entries@;
                assert(distinct_keys(after)) by {
                    assert forall|a: int, b: int|
                        0 <= a < after.len() && 0 <= b < after.len() && a != b
                        implies #[trigger] after[a].key@ != #[trigger] after[b].key@ by {
                        assert(after[a].key@ == before[a].key@);
                        assert(after[b].key@ == before[b].key@);
                    }
                }
                assert(sessions_of(after) =~= sessions_of(before).insert(
                    token@,
                    Session { user: identity.0, expires_at: expires_at as nat },
                )) by {
                    assert forall|key: Seq<char>| holds_key(after, key) == (holds_key(before, key) || key == token@) by {
                        if holds_key(after, key) {
                            let a = index_of(after, key);
                            assert(before[a].key@ == after[a].key@);
                        }
                        if holds_key(before, key) {
                            let b = index_of(before, key);
                            assert(after[b].key@ == before[b].key@);
                        }
                        if key == token@ {
                            assert(after[i as int].key@ == key);
                        }
                    }
                    assert forall|key: Seq<char>| holds_key(after, key) && key != token@
                        implies sessions_of(after)[key] == sessions_of(before)[key] by {
                        let a = index_of(after, key);
                        assert(a != i);
                        assert(before[a].key@ == key);
                        session_at(before, a);
                        session_at(after, a);
                    }
                    session_at(after, i as int);
                }
            },
            None => {
                self.entries.push(entry);
                let ghost after = self.entries@;
                let ghost last = before.len() as int;
                assert(distinct_keys(after)) by {
                    assert forall|a: int, b: int|
                        0 <= a < after.len() && 0 <= b < after.len() && a != b
                        implies #[trigger] after[a].key@ != #[trigger] after[b].key@ by {
                        if a < last {
                            assert(after[a].key@ == before[a].key@);
                        }
                        if b < last {
                            assert(after[b].key@ == before[b].key@);
                        }
                    }
                }
                assert(sessions_of(after) =~= sessions_of(before).insert(
                    token@,
                    Session { user: identity.0, expires_at: expires_at as nat },
                )) by {
                    assert forall|key: Seq<char>| holds_key(after, key) == (holds_key(before, key) || key == token@) by {
                        if holds_key(after, key) {
                            let a = index_of(after, key);
                            if a < last {
                                assert(before[a].key@ == key);
                            }
                        }
                        if holds_key(before, key) {
                            let b = index_of(before, key);
                            assert(after[b].key@ == key);
                        }
                        if key == token@ {
                            assert(after[last].key@ == key);
                        }
                    }
                    assert forall|key: Seq<char>| holds_key(after, key) && key != token@
                        implies sessions_of(after)[key] == sessions_of(before)[key] by {
                        let a = index_of(after, key);
                        assert(a < last);
                        assert(before[a].key@ == key);
                        session_at(before, a);
                        session_at(after, a);
                    }
                    session_at(after, last);
                }
            },
        }
    }

    /// The identity stored under `token`, or `None` where the token was never
    /// written, was deleted, or has expired. Reading extends no lifetime.
    pub fn get(&self, token: &AuthorizationKey) -> (found: Option<AuthorizedUserId>)
        requires
            self.wf(),
        ensures
            found == (match self@.resolve(token@) {
                Some(user) => Some(AuthorizedUserId(user)),
                None => None,
            }),
    {
        match self.find(token.0.as_str()) {
            Some(i) => {
                proof {
                    session_at(self.entries@, i as int);
                }
                if (self.now as u128) < self.entries[i].expires_at {
                    Some(AuthorizedUserId(self.entries[i].user))
                } else {
                    None
                }
            },
            None => None,
        }
    }

    /// Removes `token`. Deleting a token that is not there changes nothing
    /// and is no error.
    pub fn delete(&mut self, token: &AuthorizationKey)
        requires
            old(self).wf(),
        ensures
            final(self).wf(),
            final(self)@ == old(self)@.delete(token@),
    {
        let ghost before = self.entries@;
        match self.find(token.0.as_str()) {
            Some(i) => {
                self.entries.remove(i);
                let ghost after = self.entries@;
                assert(forall|k: int| 0 <= k < i ==> after[k] == before[k]);
                assert(forall|k: int| i <= k < after.len() ==> after[k] == before[k + 1]);
                assert(distinct_keys(after)) by {
                    assert forall|a: int, b: int|
                        0 <= a < after.len() && 0 <= b < after.len() && a != b
                        implies #[trigger] after[a].key@ != #[trigger] after[b].key@ by {
                        let a0 = if a < i { a } else { a + 1 };
                        let b0 = if b < i { b } else { b + 1 };
                        assert(after[a].key@ == before[a0].key@);
                        assert(after[b].key@ == before[b0].key@);
                    }
                }
                assert(sessions_of(after) =~= sessions_of(before).remove(token@)) by {
                    assert forall|key: Seq<char>| holds_key(after, key) == (holds_key(before, key) && key != token@) by {
                        if holds_key(after, key) {
                            let a = index_of(after, key);
                            let a0 = if a < i { a } else { a + 1 };
                            assert(before[a0].key@ == key);
                            assert(a0 != i);
                        }
                        if holds_key(before, key) && key != token@ {
                            let b = index_of(before, key);
                            assert(b != i);
                            let b1 = if b < i { b } else { b - 1 };
                            assert(after[b1].key@ == key);
                        }
                    }
                    assert forall|key: Seq<char>| holds_key(after, key)
                        implies sessions_of(after)[key] == sessions_of(before)[key] by {
                        let a = index_of(after, key);
                        let a0 = if a < i { a } else { a + 1 };
                        assert(before[a0] == after[a]);
                        session_at(before, a0);
                        session_at(after, a);
                    }
                }
            },
            None => {
                assert(sessions_of(before) =~= sessions_of(before).remove(token@));
            },
        }
    }

    /// Lets `seconds` pass. Returns `false`, and leaves the clock where it
    /// is, where the clock cannot count that far.
    pub fn advance(&mut self, seconds: u64) -> (advanced: bool)
        requires
            old(self).wf(),
        ensures
            final(self).wf(),
            advanced == (old(self)@.now + seconds <= u64::MAX),
            advanced ==> final(self)@ == old(self)@.advance(seconds as nat),
            !advanced ==> final(self)@ == old(self)@,
    {
        match self.now.checked_add(seconds) {
            Some(later) => {
                self.now = later;
                true
            },
            None => false,
        }
    }
}

} // verus!

verus! {

/// A token resolves to the identity it was stored for as soon as it is
/// stored, given a lifetime that is not zero.
pub proof fn put_then_resolve(store: TokenStoreView, token: Seq<char>, user: UserId, ttl: nat)
    requires
        ttl > 0,
    ensures
        store.put(token, user, ttl).resolve(token) == Some(user),
{
}

/// Storing one token leaves what every other token resolves to unchanged.
pub proof fn put_keeps_other_tokens(
    store: TokenStoreView,
    token: Seq<char>,
    user: UserId,
    ttl: nat,
    other: Seq<char>,
)
    requires
        other != token,
    ensures
        store.put(token, user, ttl).resolve(other) == store.resolve(other),
{
}

/// A stored token resolves for exactly its lifetime, counted from the
/// write: while less than `ttl` seconds have passed it resolves to the user,
/// and from then on to nothing, with no delete.
pub proof fn token_expires_after_ttl(
    store: TokenStoreView,
    token: Seq<char>,
    user: UserId,
    ttl: nat,
    elapsed: nat,
)
    ensures
        elapsed < ttl ==> store.put(token, user, ttl).advance(elapsed).resolve(token) == Some(user),
        elapsed >= ttl ==> store.put(token, user, ttl).advance(elapsed).resolve(token) is None,
{
}

/// A deleted token resolves to nothing, however much of its lifetime was
/// left and however much time passes afterwards.
pub proof fn delete_then_resolve(store: TokenStoreView, token: Seq<char>, elapsed: nat)
    ensures
        store.delete(token).resolve(token) is None,
        store.delete(token).advance(elapsed).resolve(token) is None,
{
}

/// Deleting is idempotent: a second delete, or a delete of a token that was
/// never stored, changes nothing.
pub proof fn delete_is_idempotent(store: TokenStoreView, token: Seq<char>)
    ensures
        store.delete(token).delete(token) == store.delete(token),
        !store.sessions.dom().contains(token) ==> store.delete(token) == store,
{
    assert(store.sessions.remove(token).remove(token) =~= store.sessions.remove(token));
    if !store.sessions.dom().contains(token) {
        assert(store.sessions.remove(token) =~= store.sessions);
    }
}

/// No resurrection: a token that does not resolve stays that way while time
/// passes, while any token is deleted, and while other tokens are stored.
pub proof fn dead_token_stays_dead(
    store: TokenStoreView,
    token: Seq<char>,
    elapsed: nat,
    other: Seq<char>,
    user: UserId,
    ttl: nat,
)
    requires
        store.resolve(token) is None,
    ensures
        store.advance(elapsed).resolve(token) is None,
        store.delete(other).resolve(token) is None,
        other != token ==> store.put(other, user, ttl).resolve(token) is None,
{
}

} // verus!
