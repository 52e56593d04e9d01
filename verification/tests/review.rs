use tweet_review::classify::{to_decide_discard, PatternError};
use tweet_review::config::{build_query, Config};
use tweet_review::ingest::ingest;
use tweet_review::process::{processing, RunError};
use tweet_review::remote::{to_decide_like, RemoteService, RemoteServiceError};
use tweet_review::status::StatusTweet;
use tweet_review::store::{find_by_status, get_all, get_discarted, get_liked, get_pending, Store, UserRecord};
use tweet_review::tweet::{new, RemotePost, Tweet};

fn pending_tweet(id: u64, text: &str) -> Tweet {
    Tweet {
        id,
        text: text.to_string(),
        url: None,
        screen_name: None,
        status: StatusTweet::Pending,
    }
}

fn store_with_token() -> Store {
    Store::new(UserRecord { token: Some("sometoken".to_string()) })
}

fn store_without_token() -> Store {
    Store::new(UserRecord { token: None })
}

/// A remote service that records its calls and can be told to fail.
struct FakeRemote {
    favorited_ids: Vec<u64>,
    fail_show_on: Option<u64>,
    fail_like_on: Option<u64>,
    shows: Vec<u64>,
    likes: Vec<u64>,
}

impl FakeRemote {
    fn reliable() -> FakeRemote {
        FakeRemote {
            favorited_ids: Vec::new(),
            fail_show_on: None,
            fail_like_on: None,
            shows: Vec::new(),
            likes: Vec::new(),
        }
    }
}

impl RemoteService for FakeRemote {
    fn show(&mut self, id: u64, _token: &str) -> Result<bool, RemoteServiceError> {
        if self.fail_show_on == Some(id) {
            return Err(RemoteServiceError);
        }
        self.shows.push(id);
        Ok(self.favorited_ids.contains(&id))
    }

    fn like(&mut self, id: u64, _token: &str) -> Result<(), RemoteServiceError> {
        if self.fail_like_on == Some(id) {
            return Err(RemoteServiceError);
        }
        self.likes.push(id);
        Ok(())
    }
}

#[test]
fn blocklist_discards_matching_text() {
    let black_list = vec!["spam".to_string(), "ad".to_string()];
    let mut t = pending_tweet(1, "Buy this AD now");
    assert!(to_decide_discard(&mut t, &black_list).is_ok());
    assert_eq!(t.status, StatusTweet::Discarted);
}

#[test]
fn blocklist_keeps_clean_text_pending() {
    let black_list = vec!["spam".to_string(), "junk".to_string()];
    let mut t = pending_tweet(2, "hello world");
    assert!(to_decide_discard(&mut t, &black_list).is_ok());
    assert_eq!(t.status, StatusTweet::Pending);
}

#[test]
fn empty_blocklist_is_permissive() {
    let black_list: Vec<String> = Vec::new();
    let mut t = pending_tweet(3, "anything at all, even spam and ads");
    assert!(to_decide_discard(&mut t, &black_list).is_ok());
    assert_eq!(t.status, StatusTweet::Pending);
}

#[test]
fn matching_folds_case_and_trims() {
    // Anchored pattern: only matches if the text was lower-cased and trimmed.
    let black_list = vec!["^spam$".to_string()];
    let mut t = pending_tweet(4, "  SPAM  ");
    assert!(to_decide_discard(&mut t, &black_list).is_ok());
    assert_eq!(t.status, StatusTweet::Discarted);
}

#[test]
fn invalid_pattern_is_an_error_and_leaves_record() {
    let black_list = vec!["(".to_string()];
    let mut t = pending_tweet(5, "whatever");
    assert_eq!(to_decide_discard(&mut t, &black_list), Err(PatternError));
    assert_eq!(t.status, StatusTweet::Pending);
}

#[test]
fn insert_is_idempotent() {
    let mut store = store_without_token();
    let first = pending_tweet(7, "original text");
    first.save(&mut store);
    let mut second = pending_tweet(7, "different text");
    second.status = StatusTweet::Liked;
    second.save(&mut store);
    assert_eq!(store.live.tweets.len(), 1);
    assert_eq!(store.live.tweets[0].text, "original text");
    assert_eq!(store.live.tweets[0].status, StatusTweet::Pending);
}

#[test]
fn ingestion_is_idempotent_across_runs() {
    let mut store = store_without_token();
    let batch = vec![RemotePost {
        id: 11,
        text: "fresh post".to_string(),
        screen_name: Some("alice".to_string()),
        favorited: Some(false),
    }];
    ingest(&mut store, &batch);
    assert_eq!(store.live.tweets.len(), 1);
    store.live.tweets[0].status = StatusTweet::Liked;
    ingest(&mut store, &batch);
    assert_eq!(store.live.tweets.len(), 1);
    assert_eq!(store.live.tweets[0].status, StatusTweet::Liked);
}

#[test]
fn favorited_post_is_never_stored() {
    let mut store = store_without_token();
    let batch = vec![
        RemotePost {
            id: 21,
            text: "already mine".to_string(),
            screen_name: None,
            favorited: Some(true),
        },
        RemotePost {
            id: 22,
            text: "not yet seen".to_string(),
            screen_name: None,
            favorited: Some(false),
        },
        RemotePost {
            id: 23,
            text: "state unknown".to_string(),
            screen_name: None,
            favorited: None,
        },
    ];
    ingest(&mut store, &batch);
    let ids: Vec<u64> = store.live.tweets.iter().map(|t| t.id).collect();
    assert_eq!(ids, vec![22, 23]);
}

#[test]
fn new_record_derives_url_from_handle() {
    let post = RemotePost {
        id: 42,
        text: "hello".to_string(),
        screen_name: Some("alice".to_string()),
        favorited: None,
    };
    let t = new(&post);
    assert_eq!(t.id, 42);
    assert_eq!(t.text, "hello");
    assert_eq!(t.screen_name.as_deref(), Some("alice"));
    assert_eq!(t.url.as_deref(), Some("https://www.twitter.com/alice/status/42"));
    assert_eq!(t.status, StatusTweet::Pending);
}

#[test]
fn new_record_without_handle_has_no_url() {
    let post = RemotePost {
        id: 9007199254740993,
        text: "anonymous".to_string(),
        screen_name: None,
        favorited: None,
    };
    let t = new(&post);
    assert_eq!(t.screen_name, None);
    assert_eq!(t.url, None);
}

#[test]
fn run_likes_surviving_records() {
    let mut store = store_with_token();
    pending_tweet(1, "good news").save(&mut store);
    pending_tweet(2, "pure spam here").save(&mut store);
    pending_tweet(3, "more goodness").save(&mut store);
    let config = Config {
        search_count: 10,
        search_terms: Vec::new(),
        black_list: vec!["spam".to_string()],
    };
    let mut remote = FakeRemote::reliable();
    remote.favorited_ids.push(3);
    assert!(processing(&mut store, &config, &mut remote).is_ok());
    assert_eq!(store.live.tweets[0].status, StatusTweet::Liked);
    assert_eq!(store.live.tweets[1].status, StatusTweet::Discarted);
    assert_eq!(store.live.tweets[2].status, StatusTweet::Liked);
    // The already-favorited record was not liked again.
    assert_eq!(remote.likes, vec![1]);
    assert_eq!(remote.shows, vec![1, 3]);
    // The run committed durably.
    assert_eq!(store.durable.tweets.len(), 3);
    assert_eq!(store.durable.tweets[0].status, StatusTweet::Liked);
}

#[test]
fn run_without_credential_leaves_records_pending() {
    let mut store = store_without_token();
    pending_tweet(1, "good news").save(&mut store);
    let config = Config {
        search_count: 10,
        search_terms: Vec::new(),
        black_list: Vec::new(),
    };
    let mut remote = FakeRemote::reliable();
    assert!(processing(&mut store, &config, &mut remote).is_ok());
    assert_eq!(store.live.tweets[0].status, StatusTweet::Pending);
    assert!(remote.shows.is_empty());
    assert!(remote.likes.is_empty());
}

#[test]
fn failed_run_commits_nothing() {
    let mut store = store_with_token();
    for id in 1..=5u64 {
        pending_tweet(id, "text").save(&mut store);
    }
    let config = Config {
        search_count: 10,
        search_terms: Vec::new(),
        black_list: Vec::new(),
    };
    let mut remote = FakeRemote::reliable();
    remote.fail_like_on = Some(3);
    let r = processing(&mut store, &config, &mut remote);
    assert_eq!(r, Err(RunError::Remote(RemoteServiceError)));
    // Neither the live nor the durable copy changed: all five still Pending.
    for t in store.live.tweets.iter() {
        assert_eq!(t.status, StatusTweet::Pending);
    }
    for t in store.durable.tweets.iter() {
        assert_eq!(t.status, StatusTweet::Pending);
    }
    assert_eq!(store.durable.tweets.len(), 5);
}

#[test]
fn pattern_failure_aborts_run_before_commit() {
    let mut store = store_with_token();
    pending_tweet(1, "text").save(&mut store);
    let config = Config {
        search_count: 10,
        search_terms: Vec::new(),
        black_list: vec!["(".to_string()],
    };
    let mut remote = FakeRemote::reliable();
    let r = processing(&mut store, &config, &mut remote);
    assert_eq!(r, Err(RunError::Pattern(PatternError)));
    assert_eq!(store.live.tweets[0].status, StatusTweet::Pending);
    assert!(remote.shows.is_empty());
}

#[test]
fn save_then_load_round_trips() {
    let mut store = store_with_token();
    pending_tweet(1, "one").save(&mut store);
    pending_tweet(2, "two").save(&mut store);
    store.live.tweets[0].status = StatusTweet::Liked;
    store.save();
    // A later write that is never saved does not survive a load.
    store.live.tweets[1].status = StatusTweet::Discarted;
    store.load();
    assert_eq!(store.live.tweets.len(), 2);
    assert_eq!(store.live.tweets[0].status, StatusTweet::Liked);
    assert_eq!(store.live.tweets[1].status, StatusTweet::Pending);
    assert_eq!(store.live.tweets[0].text, "one");
    assert_eq!(store.live.user.token.as_deref(), Some("sometoken"));
}

#[test]
fn queries_filter_by_status() {
    let mut store = store_without_token();
    pending_tweet(1, "a").save(&mut store);
    let mut liked = pending_tweet(2, "b");
    liked.status = StatusTweet::Liked;
    liked.save(&mut store);
    let mut discarted = pending_tweet(3, "c");
    discarted.status = StatusTweet::Discarted;
    discarted.save(&mut store);

    let all = get_all(&store);
    assert_eq!(all.len(), 3);
    let pending = get_pending(&store);
    assert_eq!(pending.len(), 1);
    assert!(pending.contains_key(&1));
    let discarded = get_discarted(&store);
    assert_eq!(discarded.len(), 1);
    assert!(discarded.contains_key(&3));
    let liked_map = get_liked(&store);
    assert_eq!(liked_map.len(), 1);
    assert!(liked_map.contains_key(&2));
    let none_liked = find_by_status(&store, Some(StatusTweet::Liked));
    assert_eq!(none_liked.len(), 1);
    assert_eq!(none_liked.get(&2).map(|t| t.text.as_str()), Some("b"));
}

#[test]
fn discarded_record_is_not_shown_or_liked() {
    let mut t = pending_tweet(8, "x");
    t.status = StatusTweet::Discarted;
    let mut remote = FakeRemote::reliable();
    let token = Some("sometoken".to_string());
    assert!(to_decide_like(&mut remote, &mut t, &token).is_ok());
    assert_eq!(t.status, StatusTweet::Discarted);
    assert!(remote.shows.is_empty());
    assert!(remote.likes.is_empty());
}

#[test]
fn query_joins_terms_with_spaces() {
    let config = Config {
        search_count: 5,
        search_terms: vec!["rust".to_string(), "formal".to_string(), "proofs".to_string()],
        black_list: Vec::new(),
    };
    assert_eq!(build_query(&config), "rust formal proofs");
    let empty = Config { search_count: 5, search_terms: Vec::new(), black_list: Vec::new() };
    assert_eq!(build_query(&empty), "");
}

#[test]
fn terminal_statuses_never_move() {
    assert_eq!(StatusTweet::Pending.transition(StatusTweet::Liked), StatusTweet::Liked);
    assert_eq!(StatusTweet::Pending.transition(StatusTweet::Discarted), StatusTweet::Discarted);
    assert_eq!(StatusTweet::Discarted.transition(StatusTweet::Liked), StatusTweet::Discarted);
    assert_eq!(StatusTweet::Discarted.transition(StatusTweet::Pending), StatusTweet::Discarted);
    assert_eq!(StatusTweet::Liked.transition(StatusTweet::Discarted), StatusTweet::Liked);
    assert_eq!(StatusTweet::Liked.transition(StatusTweet::Pending), StatusTweet::Liked);
}

#[test]
fn show_failure_aborts_run_without_commit() {
    let mut store = store_with_token();
    pending_tweet(1, "first").save(&mut store);
    pending_tweet(2, "second").save(&mut store);
    let config = Config {
        search_count: 10,
        search_terms: Vec::new(),
        black_list: Vec::new(),
    };
    let mut remote = FakeRemote::reliable();
    remote.fail_show_on = Some(2);
    let r = processing(&mut store, &config, &mut remote);
    assert_eq!(r, Err(RunError::Remote(RemoteServiceError)));
    // The first record had already been decided (and liked remotely) during
    // the run, but the abort discarded the in-memory decision too.
    assert_eq!(remote.likes, vec![1]);
    assert_eq!(store.live.tweets[0].status, StatusTweet::Pending);
    assert_eq!(store.live.tweets[1].status, StatusTweet::Pending);
}
