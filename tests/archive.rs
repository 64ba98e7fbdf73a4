use twitter_archiver::conversation::{ExtendError, Reconstruction, Step};
use twitter_archiver::routes::{index, search};
use twitter_archiver::snapshot::{
    find_conversation, find_tweet, leaf_id, merge_conversation, merge_tweets,
};
use twitter_archiver::tweet::{ReferenceKind, ReferencedTweet, Tweet};
use twitter_archiver::user_data::{
    keep_recent, user_data_path, UserDataKind, CONVERSATIONS_PATH, RECENT_TWEETS_LIMIT,
    TWEETS_PATH,
};

fn tweet_with(id: u64, text: &str, refs: Option<Vec<ReferencedTweet>>) -> Tweet {
    Tweet {
        id,
        text: text.to_string(),
        author_id: Some(7),
        conversation_id: None,
        created_at: None,
        referenced_tweets: refs,
        attachments: None,
    }
}

fn reply(id: u64, to: u64) -> Tweet {
    tweet_with(
        id,
        "reply",
        Some(vec![ReferencedTweet { kind: ReferenceKind::RepliedTo, id: to }]),
    )
}

fn root(id: u64) -> Tweet {
    tweet_with(id, "root", None)
}

fn ids(tweets: &[Tweet]) -> Vec<u64> {
    tweets.iter().map(|t| t.id).collect()
}

#[test]
fn replied_to_id_without_references() {
    assert_eq!(root(1).replied_to_id(), None);
    assert_eq!(tweet_with(1, "x", Some(vec![])).replied_to_id(), None);
}

#[test]
fn replied_to_id_skips_other_kinds() {
    let t = tweet_with(
        5,
        "x",
        Some(vec![
            ReferencedTweet { kind: ReferenceKind::Quoted, id: 2 },
            ReferencedTweet { kind: ReferenceKind::Retweeted, id: 3 },
            ReferencedTweet { kind: ReferenceKind::RepliedTo, id: 4 },
        ]),
    );
    assert_eq!(t.replied_to_id(), Some(4));
    let quote_only = tweet_with(
        6,
        "x",
        Some(vec![ReferencedTweet { kind: ReferenceKind::Quoted, id: 2 }]),
    );
    assert_eq!(quote_only.replied_to_id(), None);
}

#[test]
fn replied_to_id_takes_first_of_several() {
    let t = tweet_with(
        9,
        "x",
        Some(vec![
            ReferencedTweet { kind: ReferenceKind::RepliedTo, id: 8 },
            ReferencedTweet { kind: ReferenceKind::RepliedTo, id: 3 },
        ]),
    );
    assert_eq!(t.replied_to_id(), Some(8));
}

#[test]
fn find_tweet_hit_and_miss() {
    let snapshot = vec![root(1), root(2), root(3)];
    assert_eq!(find_tweet(&snapshot, 2), Some(1));
    assert_eq!(find_tweet(&snapshot, 4), None);
    assert_eq!(find_tweet(&Vec::new(), 1), None);
}

#[test]
fn find_tweet_returns_first_match() {
    let snapshot = vec![root(5), tweet_with(6, "a", None), tweet_with(6, "b", None)];
    assert_eq!(find_tweet(&snapshot, 6), Some(1));
}

#[test]
fn merge_into_empty_snapshot() {
    let mut snapshot = Vec::new();
    merge_tweets(&mut snapshot, vec![root(1), root(2)]);
    assert_eq!(ids(&snapshot), vec![1, 2]);
}

#[test]
fn merge_skips_ids_already_present() {
    let mut snapshot = vec![tweet_with(1, "cached", None), root(2)];
    merge_tweets(&mut snapshot, vec![tweet_with(1, "refetched", None), root(3)]);
    assert_eq!(ids(&snapshot), vec![1, 2, 3]);
    assert_eq!(snapshot[0].text, "cached");
}

#[test]
fn merge_dedups_within_fetched() {
    let mut snapshot = vec![root(1)];
    merge_tweets(
        &mut snapshot,
        vec![tweet_with(4, "first", None), tweet_with(4, "second", None)],
    );
    assert_eq!(ids(&snapshot), vec![1, 4]);
    assert_eq!(snapshot[1].text, "first");
}

#[test]
fn fill_then_second_load_is_a_hit() {
    let mut snapshot = vec![root(1)];
    assert_eq!(find_tweet(&snapshot, 9), None);
    merge_tweets(&mut snapshot, vec![root(9)]);
    assert_eq!(find_tweet(&snapshot, 9), Some(1));
    merge_tweets(&mut snapshot, vec![root(9)]);
    assert_eq!(ids(&snapshot), vec![1, 9]);
}

#[test]
fn leaf_id_of_conversation() {
    assert_eq!(leaf_id(&vec![root(1), reply(2, 1)]), Some(2));
    assert_eq!(leaf_id(&Vec::new()), None);
}

#[test]
fn conversation_lookup_by_leaf_id() {
    let chain = vec![root(1), reply(2, 1), reply(3, 2)];
    let conversations = vec![vec![root(10)], chain];
    let found = find_conversation(&conversations, 3).unwrap();
    assert_eq!(found, 1);
    assert_eq!(ids(&conversations[found]), vec![1, 2, 3]);
    assert_eq!(find_conversation(&conversations, 2), None);
    assert_eq!(find_conversation(&conversations, 10), Some(0));
}

#[test]
fn conversation_lookup_skips_empty_entries() {
    let conversations = vec![Vec::new(), vec![root(4)]];
    assert_eq!(find_conversation(&conversations, 4), Some(1));
}

#[test]
fn merge_conversation_adds_new_leaf() {
    let mut conversations = vec![vec![root(1), reply(2, 1)]];
    assert!(merge_conversation(&mut conversations, vec![root(5), reply(6, 5)]));
    assert_eq!(conversations.len(), 2);
    assert_eq!(ids(&conversations[1]), vec![5, 6]);
}

#[test]
fn merge_conversation_keeps_existing_leaf() {
    let mut conversations = vec![vec![root(1), reply(2, 1)]];
    assert!(!merge_conversation(&mut conversations, vec![reply(2, 1)]));
    assert_eq!(conversations.len(), 1);
    assert_eq!(ids(&conversations[0]), vec![1, 2]);
}

#[test]
fn reconstruct_three_tweet_chain_root_first() {
    let mut r = Reconstruction::new(reply(3, 2));
    assert_eq!(r.next_step(), Step::Fetch(2));
    assert_eq!(r.extend(reply(2, 1)), Ok(()));
    assert_eq!(r.next_step(), Step::Fetch(1));
    assert_eq!(r.extend(root(1)), Ok(()));
    assert_eq!(r.next_step(), Step::Complete);
    assert_eq!(r.len(), 3);
    let conversation = r.into_conversation();
    assert_eq!(ids(&conversation), vec![1, 2, 3]);
}

#[test]
fn reconstruct_single_tweet() {
    let r = Reconstruction::new(root(42));
    assert_eq!(r.next_step(), Step::Complete);
    let conversation = r.into_conversation();
    assert_eq!(ids(&conversation), vec![42]);
}

#[test]
fn reconstruct_reports_cycle() {
    let mut r = Reconstruction::new(reply(1, 2));
    assert_eq!(r.next_step(), Step::Fetch(2));
    assert_eq!(r.extend(reply(2, 1)), Ok(()));
    assert_eq!(r.next_step(), Step::Cycle(1));
    assert_eq!(r.extend(root(1)), Err(ExtendError::NotAwaiting));
    assert_eq!(r.len(), 2);
}

#[test]
fn reconstruct_self_reply_is_cycle() {
    let r = Reconstruction::new(reply(7, 7));
    assert_eq!(r.next_step(), Step::Cycle(7));
}

#[test]
fn extend_refuses_wrong_tweet() {
    let mut r = Reconstruction::new(reply(3, 2));
    assert_eq!(
        r.extend(root(9)),
        Err(ExtendError::WrongTweet { expected: 2, found: 9 })
    );
    assert_eq!(r.len(), 1);
    assert_eq!(r.next_step(), Step::Fetch(2));
}

#[test]
fn extend_refuses_when_complete() {
    let mut r = Reconstruction::new(root(1));
    assert_eq!(r.extend(root(2)), Err(ExtendError::NotAwaiting));
    assert_eq!(ids(&r.into_conversation()), vec![1]);
}

#[test]
fn quoted_tweet_ends_the_walk() {
    let t = tweet_with(
        4,
        "quote",
        Some(vec![ReferencedTweet { kind: ReferenceKind::Quoted, id: 3 }]),
    );
    let r = Reconstruction::new(t);
    assert_eq!(r.next_step(), Step::Complete);
}

#[test]
fn user_data_paths() {
    assert_eq!(user_data_path(UserDataKind::Info, "alice"), "data/user-info_alice.ron");
    assert_eq!(user_data_path(UserDataKind::Tweets, "alice"), "data/user-tweets_alice.ron");
    assert_eq!(
        user_data_path(UserDataKind::Conversations, "bob"),
        "data/user-conversations_bob.ron"
    );
    assert_eq!(TWEETS_PATH, "data/tweets.ron");
    assert_eq!(CONVERSATIONS_PATH, "data/conversations.ron");
}

#[test]
fn keep_recent_cuts_to_limit() {
    let mut tweets: Vec<Tweet> = (1..=12).map(root).collect();
    keep_recent(&mut tweets, RECENT_TWEETS_LIMIT);
    assert_eq!(RECENT_TWEETS_LIMIT, 10);
    assert_eq!(ids(&tweets), (1..=10).collect::<Vec<u64>>());
}

#[test]
fn keep_recent_keeps_short_list() {
    let mut tweets = vec![root(3), root(2), root(1)];
    keep_recent(&mut tweets, RECENT_TWEETS_LIMIT);
    assert_eq!(ids(&tweets), vec![3, 2, 1]);
    keep_recent(&mut tweets, 0);
    assert!(tweets.is_empty());
}

#[test]
fn index_lists_routes() {
    let text = index();
    assert!(text.starts_with("Welcome to a better twitter archiver! \n\nAvailable routes:"));
    assert!(text.contains("#[get(\"/user/<twitter_handle>/conversations\")]"));
    assert!(text.ends_with("#[get(\"/search?<query>\")]\n\n"));
}

#[test]
fn search_describes_query() {
    assert_eq!(
        search("rust"),
        "This route will run a search of \"rust\" through all the tweets locally stored"
    );
    assert_eq!(
        search(""),
        "This route will run a search of \"\" through all the tweets locally stored"
    );
}
