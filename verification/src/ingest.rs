use vstd::prelude::*;

use crate::store::{doc_eq, has_id, ids_unique, Store};
use crate::tweet::{is_record_of, new, RemotePost, Tweet};

verus! {

/// A post that ingestion accepts: one the calling account had not already
/// favorited at fetch time.
pub open spec fn accepted(p: RemotePost) -> bool {
    !(p.favorited matches Some(true))
}

/// A record that ingestion may append: the `Pending` record of some
/// accepted post of the batch.
pub open spec fn from_accepted(t: Tweet, posts: Seq<RemotePost>) -> bool {
    exists|k: int| 0 <= k < posts.len() && accepted(posts[k]) && is_record_of(t, posts[k])
}

/// What one ingestion run does to the record sequence: existing records are
/// kept exactly as they were, every appended record is the `Pending` record
/// of some accepted post, and every accepted post's id is stored afterwards.
pub open spec fn ingested(pre: Seq<Tweet>, post: Seq<Tweet>, posts: Seq<RemotePost>) -> bool {
    &&& pre.len() <= post.len()
    &&& forall|j: int| 0 <= j < pre.len() ==> post[j] == pre[j]
    &&& forall|j: int|
        #![trigger post[j]]
        pre.len() <= j < post.len() ==> from_accepted(post[j], posts)
    &&& forall|k: int|
        0 <= k < posts.len() && accepted(posts[k]) ==> has_id(post, posts[k].id)
}

/// Converts freshly fetched posts to `Pending` records and inserts each
/// idempotently, saving durably with every insert. A post already favorited
/// is filtered out; an id already stored is a silent no-op that never
/// overwrites the existing record.
pub fn ingest(store: &mut Store, posts: &Vec<RemotePost>)
    requires
        old(store).wf(),
    ensures
        final(store).wf(),
        final(store).live.user == old(store).live.user,
        ingested(old(store).live.tweets@, final(store).live.tweets@, posts@),
        (exists|k: int| 0 <= k < posts@.len() && accepted(posts@[k])) ==> doc_eq(
            final(store).durable,
            final(store).live,
        ),
        !(exists|k: int| 0 <= k < posts@.len() && accepted(posts@[k])) ==> *final(store) == *old(
            store,
        ),
{
    let mut k: usize = 0;
    while k < posts.len()
        invariant
            k <= posts.len(),
            old(store).wf(),
            store.wf(),
            store.live.user == old(store).live.user,
            old(store).live.tweets@.len() <= store.live.tweets@.len(),
            forall|j: int|
                0 <= j < old(store).live.tweets@.len() ==> store.live.tweets@[j] == old(
                    store,
                ).live.tweets@[j],
            forall|j: int|
                #![trigger store.live.tweets@[j]]
                old(store).live.tweets@.len() <= j < store.live.tweets@.len() ==> from_accepted(
                    store.live.tweets@[j],
                    posts@,
                ),
            forall|k2: int|
                0 <= k2 < k && accepted(posts@[k2]) ==> has_id(
                    store.live.tweets@,
                    posts@[k2].id,
                ),
            (exists|k2: int| 0 <= k2 < k && accepted(posts@[k2])) ==> doc_eq(
                store.durable,
                store.live,
            ),
            !(exists|k2: int| 0 <= k2 < k && accepted(posts@[k2])) ==> *store == *old(store),
        decreases posts.len() - k,
    {
        let p = &posts[k];
        let skip = match p.favorited {
            Some(true) => true,
            _ => false,
        };
        if !skip {
            let ghost before = store.live.tweets@;
            let t = new(p);
            t.save(store);
            proof {
                assert(accepted(posts@[k as int]));
                assert forall|j: int|
                    #![trigger store.live.tweets@[j]]
                    old(store).live.tweets@.len() <= j < store.live.tweets@.len() implies
                    from_accepted(store.live.tweets@[j], posts@) by {
                    if j < before.len() {
                        assert(store.live.tweets@[j] == before[j]);
                    } else {
                        assert(store.live.tweets@ == before.push(t));
                        assert(store.live.tweets@[j] == t);
                        assert(is_record_of(store.live.tweets@[j], posts@[k as int]));
                    }
                }
                assert forall|k2: int|
                    0 <= k2 < k + 1 && accepted(posts@[k2]) implies has_id(
                    store.live.tweets@,
                    posts@[k2].id,
                ) by {
                    if k2 < k {
                        let i = choose|i: int|
                            0 <= i < before.len() && before[i].id == posts@[k2].id;
                        assert(store.live.tweets@[i].id == posts@[k2].id);
                    } else {
                        if has_id(before, t.id) {
                            let i = choose|i: int| 0 <= i < before.len() && before[i].id == t.id;
                            assert(store.live.tweets@[i].id == t.id);
                        } else {
                            assert(store.live.tweets@.last() == t);
                        }
                    }
                }
            }
        }
        k = k + 1;
    }
}

/// Idempotent ingestion: when every accepted post's id already exists in the
/// store, the run is a no-op — the store keeps its size and no field of any
/// existing record changes.
pub proof fn lemma_ingestion_idempotent(pre: Seq<Tweet>, post: Seq<Tweet>, posts: Seq<RemotePost>)
    requires
        ingested(pre, post, posts),
        ids_unique(post),
        forall|k: int| 0 <= k < posts.len() && accepted(posts[k]) ==> has_id(pre, posts[k].id),
    ensures
        post == pre,
{
    if post.len() > pre.len() {
        let j = pre.len() as int;
        assert(from_accepted(post[j], posts));
        let k = choose|k: int|
            0 <= k < posts.len() && accepted(posts[k]) && is_record_of(post[j], posts[k]);
        let i = choose|i: int| 0 <= i < pre.len() && pre[i].id == posts[k].id;
        assert(post[i].id == posts[k].id);
        assert(post[j].id == posts[k].id);
    }
    assert(post =~= pre);
}

/// Favorited exclusion: a remote post returned as already favorited never
/// produces a stored record — an id that was absent before ingestion, and
/// that only favorited posts carry, is still absent afterwards.
pub proof fn lemma_favorited_excluded(
    pre: Seq<Tweet>,
    post: Seq<Tweet>,
    posts: Seq<RemotePost>,
    id: u64,
)
    requires
        ingested(pre, post, posts),
        !has_id(pre, id),
        forall|k: int| 0 <= k < posts.len() && posts[k].id == id ==> !accepted(posts[k]),
    ensures
        !has_id(post, id),
{
    if has_id(post, id) {
        let j = choose|j: int| 0 <= j < post.len() && post[j].id == id;
        if j < pre.len() {
            assert(pre[j].id == id);
        } else {
            assert(from_accepted(post[j], posts));
            let k = choose|k: int|
                0 <= k < posts.len() && accepted(posts[k]) && is_record_of(post[j], posts[k]);
            assert(posts[k].id == id);
        }
    }
}

} // verus!
