use vstd::prelude::*;
use vstd::string::StringExecFns;

use crate::status::StatusTweet;
use crate::text::{dec_str_of, u64_to_string};

verus! {

/// A stored record of one remote post. `id`, `text`, `url` and
/// `screen_name` never change after creation; only `status` moves, and only
/// forward through the state machine.
#[derive(Debug)]
pub struct Tweet {
    pub id: u64,
    pub text: String,
    pub url: Option<String>,
    pub screen_name: Option<String>,
    pub status: StatusTweet,
}

impl Clone for Tweet {
    fn clone(&self) -> (r: Self)
        ensures
            r == *self,
    {
        Tweet {
            id: self.id,
            text: self.text.clone(),
            url: match &self.url {
                Some(u) => Some(u.clone()),
                None => None,
            },
            screen_name: match &self.screen_name {
                Some(n) => Some(n.clone()),
                None => None,
            },
            status: self.status,
        }
    }
}

/// One post as the remote search endpoint returns it: the fields the
/// pipeline reads, as plain values.
#[derive(Debug)]
pub struct RemotePost {
    pub id: u64,
    pub text: String,
    pub screen_name: Option<String>,
    pub favorited: Option<bool>,
}

/// The address derived for a post whose author handle is known.
pub open spec fn url_of(name: Seq<char>, id: u64) -> Seq<char> {
    "https://www.twitter.com/"@ + name + "/status/"@ + dec_str_of(id as nat)
}

/// The record that ingestion builds for `post`: same id and text, the url
/// derived from the author handle when one is present.
pub open spec fn is_record_of(t: Tweet, post: RemotePost) -> bool {
    &&& t.id == post.id
    &&& t.text == post.text
    &&& t.screen_name == post.screen_name
    &&& t.status is Pending
    &&& (post.screen_name is None ==> t.url is None)
    &&& (post.screen_name matches Some(n) ==> t.url matches Some(u) && u@ == url_of(n@, post.id))
}

/// Builds the `Pending` record for one freshly fetched post.
pub fn new(post: &RemotePost) -> (t: Tweet)
    ensures
        is_record_of(t, *post),
{
    let id = post.id;
    let text = post.text.clone();
    let mut screen_name: Option<String> = None;
    let mut url: Option<String> = None;
    let status = StatusTweet::Pending;

    if let Some(name) = &post.screen_name {
        screen_name = Some(name.clone());
        let mut u = String::new();
        u.append("https://www.twitter.com/");
        u.append(name.as_str());
        u.append("/status/");
        let digits = u64_to_string(id);
        u.append(digits.as_str());
        url = Some(u);
    }

    Tweet { id, text, screen_name, url, status }
}

} // verus!
