use vstd::pervasive::VecAdditionalExecFns;
use vstd::prelude::*;

use crate::classify::{
    blocklist_pattern, discard_hit, kept_fields, pattern_compiles, to_decide_discard, PatternError,
};
use crate::config::Config;
use crate::remote::{to_decide_like, RemoteService, RemoteServiceError};
use crate::status::StatusTweet;
use crate::store::{clone_tweets, doc_eq, ids_unique, Store};
use crate::tweet::Tweet;

verus! {

/// An error that aborted a run before its single commit.
#[derive(Clone, Copy, Debug, PartialEq, Eq, Structural)]
pub enum RunError {
    Pattern(PatternError),
    Remote(RemoteServiceError),
}

/// What one successful run does to one record: the immutable fields are
/// kept; a terminal record is untouched; a `Pending` record is discarded
/// when the blocklist flags its text, is liked when a credential is present,
/// and otherwise stays `Pending`, untouched.
pub open spec fn run_outcome(a: Tweet, b: Tweet, black: Seq<Seq<char>>, has_token: bool) -> bool {
    &&& kept_fields(a, b)
    &&& (a.status !is Pending ==> b == a)
    &&& (a.status is Pending ==> (if discard_hit(black, a.text@) {
        b.status is Discarted
    } else if !has_token {
        b == a
    } else {
        b.status is Liked
    }))
}

/// For any `Pending` record processed once, the result is `Discarted`,
/// `Liked`, or still `Pending` — the last only when no credential is
/// present, and then the record is untouched.
pub proof fn lemma_run_outcome_states(a: Tweet, b: Tweet, black: Seq<Seq<char>>, has_token: bool)
    requires
        a.status is Pending,
        run_outcome(a, b, black, has_token),
    ensures
        b.status is Discarted || b.status is Liked || b.status is Pending,
        b.status is Pending ==> !has_token && b == a,
{
}

/// Whether some record of the snapshot still awaits review.
pub open spec fn some_pending(s: Seq<Tweet>) -> bool {
    exists|j: int| 0 <= j < s.len() && s[j].status is Pending
}

/// One full run: every `Pending` record of a fixed snapshot goes through the
/// discard check and then the like check on a working copy, and the store
/// commits once, durably, at the end. Any classifier error aborts the run
/// before that commit and leaves the store — live and durable — exactly as
/// it was. A blocklist that cannot compile is reported exactly when a
/// `Pending` record forces a match attempt.
pub fn processing<R: RemoteService>(store: &mut Store, config: &Config, remote: &mut R) -> (r:
    Result<(), RunError>)
    requires
        old(store).wf(),
    ensures
        final(store).wf(),
        r is Err ==> *final(store) == *old(store),
        (r matches Err(e) && e is Pattern) <==> (config.black_list@.len() > 0 && !pattern_compiles(
            blocklist_pattern(config.black_list@.map_values(|p: String| p@)),
        ) && some_pending(old(store).live.tweets@)),
        (r matches Err(e) && e is Remote) ==> some_pending(old(store).live.tweets@) && old(
            store,
        ).live.user.token is Some,
        r is Ok ==> {
            &&& final(store).live.user == old(store).live.user
            &&& final(store).live.tweets@.len() == old(store).live.tweets@.len()
            &&& forall|j: int|
                0 <= j < old(store).live.tweets@.len() ==> run_outcome(
                    old(store).live.tweets@[j],
                    final(store).live.tweets@[j],
                    config.black_list@.map_values(|p: String| p@),
                    old(store).live.user.token is Some,
                )
            &&& doc_eq(final(store).durable, final(store).live)
        },
{
    let ghost black = config.black_list@.map_values(|p: String| p@);
    let user = store.live.user.clone();
    let token = user.token;
    let mut working = clone_tweets(&store.live.tweets);
    let n = working.len();
    let mut i: usize = 0;
    while i < n
        invariant
            *store == *old(store),
            old(store).wf(),
            black == config.black_list@.map_values(|p: String| p@),
            token == old(store).live.user.token,
            n == old(store).live.tweets@.len(),
            working@.len() == n,
            i <= n,
            forall|j: int| i <= j < n ==> working@[j] == old(store).live.tweets@[j],
            forall|j: int|
                0 <= j < i ==> run_outcome(
                    old(store).live.tweets@[j],
                    working@[j],
                    black,
                    old(store).live.user.token is Some,
                ),
            (exists|j: int| 0 <= j < i && old(store).live.tweets@[j].status is Pending) ==> (
            black.len() == 0 || pattern_compiles(blocklist_pattern(black))),
        decreases n - i,
    {
        let mut t = working[i].clone();
        if matches!(t.status, StatusTweet::Pending) {
            match to_decide_discard(&mut t, &config.black_list) {
                Ok(()) => {},
                Err(e) => {
                    proof {
                        assert(old(store).live.tweets@[i as int].status is Pending);
                        assert(some_pending(old(store).live.tweets@));
                    }
                    return Err(RunError::Pattern(e));
                },
            }
            match to_decide_like(remote, &mut t, &token) {
                Ok(()) => {},
                Err(e) => {
                    proof {
                        assert(old(store).live.tweets@[i as int].status is Pending);
                        assert(some_pending(old(store).live.tweets@));
                    }
                    return Err(RunError::Remote(e));
                },
            }
            working.set(i, t);
        }
        i = i + 1;
    }
    proof {
        assert(ids_unique(working@)) by {
            assert(forall|j: int|
                0 <= j < n ==> working@[j].id == old(store).live.tweets@[j].id);
        }
    }
    store.live.tweets = working;
    store.save();
    Ok(())
}

} // verus!
