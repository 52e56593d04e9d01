use std::collections::HashMap;
use vstd::prelude::*;

use crate::status::StatusTweet;
use crate::tweet::Tweet;

verus! {

broadcast use vstd::std_specs::hash::group_hash_axioms;

/// The singleton account record: an optional credential for the remote
/// service. Its issuance lifecycle is outside this library.
pub struct UserRecord {
    pub token: Option<String>,
}

impl Clone for UserRecord {
    fn clone(&self) -> (r: Self)
        ensures
            r == *self,
    {
        UserRecord {
            token: match &self.token {
                Some(t) => Some(t.clone()),
                None => None,
            },
        }
    }
}

/// No two records share an id.
pub open spec fn ids_unique(s: Seq<Tweet>) -> bool {
    forall|i: int, j: int| 0 <= i < j < s.len() ==> s[i].id != s[j].id
}

/// Some record in `s` carries `id`.
pub open spec fn has_id(s: Seq<Tweet>, id: u64) -> bool {
    exists|i: int| 0 <= i < s.len() && s[i].id == id
}

/// The whole logical content of the store: the records keyed by their ids,
/// and the singleton account record.
pub struct Document {
    pub tweets: Vec<Tweet>,
    pub user: UserRecord,
}

impl Document {
    /// Well-formedness: the records form a map keyed by id.
    pub open spec fn wf(self) -> bool {
        ids_unique(self.tweets@)
    }
}

/// Clones a record sequence exactly.
pub(crate) fn clone_tweets(v: &Vec<Tweet>) -> (r: Vec<Tweet>)
    ensures
        r@ == v@,
{
    let mut r: Vec<Tweet> = Vec::new();
    let mut i: usize = 0;
    while i < v.len()
        invariant
            i <= v.len(),
            r@ == v@.take(i as int),
        decreases v.len() - i,
    {
        r.push(v[i].clone());
        proof {
            assert(v@.take(i + 1) =~= v@.take(i as int).push(v@[i as int]));
        }
        i = i + 1;
    }
    proof {
        assert(v@.take(v@.len() as int) =~= v@);
    }
    r
}

/// Two documents with the same records and the same account record.
pub open spec fn doc_eq(a: Document, b: Document) -> bool {
    &&& a.tweets@ == b.tweets@
    &&& a.user == b.user
}

impl Clone for Document {
    fn clone(&self) -> (r: Self)
        ensures
            doc_eq(r, *self),
    {
        Document { tweets: clone_tweets(&self.tweets), user: self.user.clone() }
    }
}

/// The store: the live in-memory document, and the durable copy that the
/// last explicit save committed. A write that is not followed by a save is
/// never durably observable, and the durable copy only ever changes by a
/// whole-document replace.
pub struct Store {
    pub live: Document,
    pub durable: Document,
}

/// The transition that one durable save makes: the live document is kept and
/// becomes the durable copy, whole.
pub open spec fn saved(pre: Store, post: Store) -> bool {
    &&& post.live == pre.live
    &&& doc_eq(post.durable, pre.live)
}

/// The transition that one load makes: the durable copy is kept and replaces
/// the live document, whole.
pub open spec fn loaded(pre: Store, post: Store) -> bool {
    &&& doc_eq(post.live, pre.durable)
    &&& post.durable == pre.durable
}

impl Store {
    pub open spec fn wf(self) -> bool {
        &&& self.live.wf()
        &&& self.durable.wf()
    }

    /// An empty store for the given account record, already saved.
    pub fn new(user: UserRecord) -> (r: Store)
        ensures
            r.wf(),
            r.live.tweets@ == Seq::<Tweet>::empty(),
            r.live.user == user,
            doc_eq(r.durable, r.live),
    {
        let live = Document { tweets: Vec::new(), user };
        let durable = live.clone();
        Store { live, durable }
    }

    /// A snapshot view of the current in-memory state.
    pub fn read(&self) -> (d: &Document)
        ensures
            *d == self.live,
    {
        &self.live
    }

    /// Persists the in-memory document as the durable copy, whole.
    pub fn save(&mut self)
        ensures
            saved(*old(self), *final(self)),
    {
        self.durable = self.live.clone();
    }

    /// Replaces the in-memory document with the durable copy, whole.
    pub fn load(&mut self)
        ensures
            loaded(*old(self), *final(self)),
    {
        self.live = self.durable.clone();
    }
}

/// Round trip: a save followed by a load reproduces the saved document —
/// the same map of records and the same account record.
pub proof fn lemma_save_load_round_trip(s0: Store, s1: Store, s2: Store)
    requires
        saved(s0, s1),
        loaded(s1, s2),
    ensures
        doc_eq(s2.live, s0.live),
        doc_eq(s2.durable, s0.live),
{
}

/// True exactly when some stored record carries `id`.
fn contains_id(v: &Vec<Tweet>, id: u64) -> (r: bool)
    ensures
        r == has_id(v@, id),
{
    let mut i: usize = 0;
    while i < v.len()
        invariant
            i <= v.len(),
            forall|j: int| 0 <= j < i ==> v@[j].id != id,
        decreases v.len() - i,
    {
        if v[i].id == id {
            return true;
        }
        i = i + 1;
    }
    false
}

impl Tweet {
    /// Inserts this record into the store if its id is still free, then
    /// saves durably. An id that already exists makes the insert a silent
    /// no-op: no field of the existing record changes, and the store keeps
    /// its size.
    pub fn save(&self, store: &mut Store)
        requires
            old(store).wf(),
        ensures
            final(store).wf(),
            doc_eq(final(store).durable, final(store).live),
            final(store).live.user == old(store).live.user,
            has_id(old(store).live.tweets@, self.id) ==> final(store).live == old(
                store,
            ).live,
            !has_id(old(store).live.tweets@, self.id) ==> final(store).live.tweets@ == old(
                store,
            ).live.tweets@.push(*self),
    {
        if !contains_id(&store.live.tweets, self.id) {
            store.live.tweets.push(self.clone());
        }
        store.save();
    }
}

/// Whether a record matches a status filter; no filter matches every record.
pub open spec fn status_matches(t: Tweet, status: Option<StatusTweet>) -> bool {
    match status {
        Some(s) => t.status == s,
        None => true,
    }
}

/// The records of `s` that match the filter, as the map their ids key.
pub open spec fn select_map(s: Seq<Tweet>, status: Option<StatusTweet>) -> Map<u64, Tweet>
    decreases s.len(),
{
    if s.len() == 0 {
        Map::empty()
    } else {
        let m = select_map(s.drop_last(), status);
        if status_matches(s.last(), status) {
            m.insert(s.last().id, s.last())
        } else {
            m
        }
    }
}

/// The records of the live document that match the status filter, keyed by
/// id.
pub fn find_by_status(store: &Store, status: Option<StatusTweet>) -> (r: HashMap<u64, Tweet>)
    ensures
        r@ == select_map(store.live.tweets@, status),
{
    let tweets = &store.live.tweets;
    let mut r: HashMap<u64, Tweet> = HashMap::new();
    let mut i: usize = 0;
    while i < tweets.len()
        invariant
            i <= tweets.len(),
            r@ == select_map(tweets@.take(i as int), status),
        decreases tweets.len() - i,
    {
        let t = &tweets[i];
        let keep = match status {
            Some(s) => t.status == s,
            None => true,
        };
        if keep {
            let copy = t.clone();
            r.insert(copy.id, copy);
        }
        proof {
            assert(tweets@.take(i + 1).drop_last() =~= tweets@.take(i as int));
            assert(tweets@.take(i + 1).last() == tweets@[i as int]);
        }
        i = i + 1;
    }
    proof {
        assert(tweets@.take(tweets@.len() as int) =~= tweets@);
    }
    r
}

/// Every record of the live document, keyed by id.
pub fn get_all(store: &Store) -> (r: HashMap<u64, Tweet>)
    ensures
        r@ == select_map(store.live.tweets@, None),
{
    find_by_status(store, None)
}

/// The records still awaiting review, keyed by id.
pub fn get_pending(store: &Store) -> (r: HashMap<u64, Tweet>)
    ensures
        r@ == select_map(store.live.tweets@, Some(StatusTweet::Pending)),
{
    find_by_status(store, Some(StatusTweet::Pending))
}

/// The records the blocklist discarded, keyed by id.
pub fn get_discarted(store: &Store) -> (r: HashMap<u64, Tweet>)
    ensures
        r@ == select_map(store.live.tweets@, Some(StatusTweet::Discarted)),
{
    find_by_status(store, Some(StatusTweet::Discarted))
}

/// The records the pipeline liked, keyed by id.
pub fn get_liked(store: &Store) -> (r: HashMap<u64, Tweet>)
    ensures
        r@ == select_map(store.live.tweets@, Some(StatusTweet::Liked)),
{
    find_by_status(store, Some(StatusTweet::Liked))
}

} // verus!
