//! The cache of session secrets: for each user id, the secret of the
//! user's latest session token, kept for thirty minutes at most.
use vstd::prelude::*;
use moka::sync::Cache;
use std::collections::hash_map::RandomState;
use std::time::Duration;

verus! {

/// A moka cache from user ids to secrets, held where nothing else can
/// reach it: it is never cloned, so every insertion and removal on it
/// goes through the functions of this module.
#[verifier::external_body]
pub struct SecretStore {
    cache: Cache<i64, String, RandomState>,
}

/// What has been written to a store, by user id: the secret inserted last
/// under each id, less the ids removed since.
pub uninterp spec fn store_writes(store: SecretStore) -> Map<i64, Seq<char>>;

/// The largest number of entries a store was built to hold.
pub uninterp spec fn store_max_capacity(store: SecretStore) -> u64;

/// How many seconds after its insertion an entry of a store expires, as
/// the store was built.
pub uninterp spec fn store_time_to_live_secs(store: SecretStore) -> u64;

/// The longest time to live a cache can be built with: a thousand years of
/// 365 days.
pub open spec fn max_time_to_live_secs() -> u64 {
    31536000000
}

/// A new, empty store that holds at most `max_capacity` entries, each for
/// `ttl_secs` seconds after it was inserted.
///
/// Calls `Cache::builder`, `time_to_live`, `max_capacity` and `build` of
/// `moka::sync`. The builder panics on a time to live longer than a
/// thousand years, which `requires` leaves out. The contract claims that
/// the store keeps the two limits it was built with and that nothing has
/// been written to it.
#[verifier::external_body]
fn build_store(ttl_secs: u64, max_capacity: u64) -> (s: SecretStore)
    requires
        ttl_secs <= max_time_to_live_secs(),
    ensures
        store_max_capacity(s) == max_capacity,
        store_time_to_live_secs(s) == ttl_secs,
        store_writes(s).is_empty(),
{
    SecretStore {
        cache: Cache::builder().time_to_live(Duration::from_secs(ttl_secs)).max_capacity(max_capacity).build(),
    }
}

/// Inserts a secret under a user id, replacing any entry under that id.
///
/// Calls `moka::sync::Cache::insert`. The contract records the write; the
/// entry may still expire or be evicted later.
#[verifier::external_body]
fn store_insert(store: &mut SecretStore, userid: i64, secret: String)
    ensures
        store_writes(*final(store)) == store_writes(*old(store)).insert(userid, secret@),
        store_max_capacity(*final(store)) == store_max_capacity(*old(store)),
        store_time_to_live_secs(*final(store)) == store_time_to_live_secs(*old(store)),
{
    store.cache.insert(userid, secret)
}

/// The entry under a user id, if the store still holds one.
///
/// Calls `moka::sync::Cache::get`, which gives the value inserted last
/// under the key, or nothing once it was removed, expired or evicted;
/// which of the two comes out depends on the time.
#[verifier::external_body]
fn store_get(store: &SecretStore, userid: i64) -> (r: Option<String>)
    ensures
        r matches Some(s) ==> store_writes(*store).contains_key(userid) && s@ == store_writes(*store)[userid],
{
    store.cache.get(&userid)
}

/// Takes the entry under a user id out of the store, giving it back if the
/// store still held it.
///
/// Calls `moka::sync::Cache::remove`, which gives the value inserted last
/// under the key, or nothing once it expired or was evicted.
#[verifier::external_body]
fn store_remove(store: &mut SecretStore, userid: i64) -> (r: Option<String>)
    ensures
        store_writes(*final(store)) == store_writes(*old(store)).remove(userid),
        store_max_capacity(*final(store)) == store_max_capacity(*old(store)),
        store_time_to_live_secs(*final(store)) == store_time_to_live_secs(*old(store)),
        r matches Some(s) ==> store_writes(*old(store)).contains_key(userid) && s@ == store_writes(
            *old(store),
        )[userid],
{
    store.cache.remove(&userid)
}

/// How long a session secret stays in the cache: thirty minutes.
pub const USER_CACHE_TTL_SECS: u64 = 1800;

/// How many session secrets the cache holds at most.
pub const USER_CACHE_MAX_CAPACITY: u64 = 10000;

/// The cache of session secrets by user id.
pub struct UserCache {
    store: SecretStore,
}

impl UserCache {
    /// The number of entries the cache holds at most.
    pub closed spec fn max_capacity(&self) -> u64 {
        store_max_capacity(self.store)
    }

    /// The seconds an entry stays after its insertion.
    pub closed spec fn time_to_live_secs(&self) -> u64 {
        store_time_to_live_secs(self.store)
    }

    /// The secrets stored in the cache, by user id: the latest one stored
    /// for each user, less those taken out. The cache may have let any of
    /// them expire or evicted it since.
    pub closed spec fn stored(&self) -> Map<i64, Seq<char>> {
        store_writes(self.store)
    }

    /// Stores the secret of a user's latest session, replacing any earlier
    /// one.
    pub fn store(&mut self, userid: i64, secret: String)
        ensures
            final(self).stored() == old(self).stored().insert(userid, secret@),
            final(self).max_capacity() == old(self).max_capacity(),
            final(self).time_to_live_secs() == old(self).time_to_live_secs(),
    {
        store_insert(&mut self.store, userid, secret);
    }

    /// The secret of a user's latest session, if the cache still holds it:
    /// never an older one, and nothing for a user whose secret was taken
    /// out or never stored.
    pub fn load(&self, userid: i64) -> (r: Option<String>)
        ensures
            r matches Some(s) ==> self.stored().contains_key(userid) && s@ == self.stored()[userid],
    {
        store_get(&self.store, userid)
    }

    /// Takes the stored secret of a user's session out of the cache, and
    /// gives it back if the cache still held it.
    pub fn remove(&mut self, userid: i64) -> (r: Option<String>)
        ensures
            final(self).stored() == old(self).stored().remove(userid),
            final(self).max_capacity() == old(self).max_capacity(),
            final(self).time_to_live_secs() == old(self).time_to_live_secs(),
            r matches Some(s) ==> old(self).stored().contains_key(userid) && s@ == old(self).stored()[userid],
    {
        store_remove(&mut self.store, userid)
    }
}

/// A new, empty cache of session secrets: thirty minutes to live, ten
/// thousand entries at most.
pub fn user_cache() -> (c: UserCache)
    ensures
        c.max_capacity() == USER_CACHE_MAX_CAPACITY,
        c.time_to_live_secs() == USER_CACHE_TTL_SECS,
        c.stored().is_empty(),
{
    UserCache { store: build_store(USER_CACHE_TTL_SECS, USER_CACHE_MAX_CAPACITY) }
}

/// After a secret is stored for a user, loading that user gives that
/// secret or nothing (once it expired or was evicted), never an older one;
/// after the secret is taken out, loading that user gives nothing.
pub proof fn lemma_load_after_store_and_remove(
    before: UserCache,
    stored: UserCache,
    removed: UserCache,
    userid: i64,
    secret: String,
    loaded: Option<String>,
    reloaded: Option<String>,
)
    requires
        stored.stored() == before.stored().insert(userid, secret@),
        loaded matches Some(s) ==> stored.stored().contains_key(userid) && s@ == stored.stored()[userid],
        removed.stored() == stored.stored().remove(userid),
        reloaded matches Some(s) ==> removed.stored().contains_key(userid) && s@ == removed.stored()[userid],
    ensures
        loaded matches Some(s) ==> s@ == secret@,
        reloaded is None,
{
}

} // verus!
