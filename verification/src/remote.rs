use vstd::prelude::*;

use crate::classify::kept_fields;
use crate::status::StatusTweet;
use crate::tweet::Tweet;

verus! {

/// A failure of the remote show or like operation; it aborts the whole run.
#[derive(Clone, Copy, Debug, PartialEq, Eq, Structural)]
pub struct RemoteServiceError;

/// The remote social platform, as the pipeline consumes it: read a post's
/// current favorited state, and like a post. Implementations are outside
/// this library, so nothing is promised of either call; the callers state
/// what holds whatever comes back.
pub trait RemoteService {
    /// Whether the calling account has already favorited the post.
    fn show(&mut self, id: u64, token: &str) -> Result<bool, RemoteServiceError>;

    /// Likes the post on behalf of the calling account.
    fn like(&mut self, id: u64, token: &str) -> Result<(), RemoteServiceError>;
}

/// Engages a surviving record: a `Discarted` record and a run without a
/// credential are no-ops; otherwise the remote favorited state is read, the
/// post is liked when it was not yet favorited, and the record becomes
/// `Liked` by the transition rule. On a remote failure the record is left
/// untouched and the error is surfaced.
pub fn to_decide_like<R: RemoteService>(
    remote: &mut R,
    tweet: &mut Tweet,
    token: &Option<String>,
) -> (r: Result<(), RemoteServiceError>)
    ensures
        kept_fields(*old(tweet), *final(tweet)),
        old(tweet).status is Discarted ==> r is Ok && *final(tweet) == *old(tweet),
        token is None ==> r is Ok && *final(tweet) == *old(tweet),
        r is Err ==> *final(tweet) == *old(tweet),
        r is Ok && old(tweet).status !is Discarted && token is Some ==> final(tweet).status == old(
            tweet,
        ).status.spec_transition(StatusTweet::Liked),
{
    if matches!(tweet.status, StatusTweet::Discarted) {
        return Ok(());
    }
    match token {
        None => Ok(()),
        Some(tok) => {
            match remote.show(tweet.id, tok.as_str()) {
                Ok(is_favorited) => {
                    if !is_favorited {
                        match remote.like(tweet.id, tok.as_str()) {
                            Ok(()) => {},
                            Err(e) => {
                                return Err(e);
                            },
                        }
                    }
                    tweet.status = tweet.status.transition(StatusTweet::Liked);
                    Ok(())
                },
                Err(e) => Err(e),
            }
        },
    }
}

} // verus!
