//! The per-user snapshots and the names of every snapshot file.
use vstd::prelude::*;
use crate::tweet::Tweet;

verus! {

/// The file of the global tweet snapshot.
pub const TWEETS_PATH: &'static str = "data/tweets.ron";

/// The file of the global conversation snapshot.
pub const CONVERSATIONS_PATH: &'static str = "data/conversations.ron";

/// How many of a user's most recent tweets are fetched and kept.
pub const RECENT_TWEETS_LIMIT: usize = 10;

/// The three snapshots kept for each user handle.
#[derive(Clone, Copy, Debug, PartialEq, Eq, Structural)]
pub enum UserDataKind {
    Info,
    Tweets,
    Conversations,
}

/// The start of the file name of a per-user snapshot of this kind.
pub open spec fn kind_prefix(kind: UserDataKind) -> Seq<char> {
    match kind {
        UserDataKind::Info => "data/user-info_"@,
        UserDataKind::Tweets => "data/user-tweets_"@,
        UserDataKind::Conversations => "data/user-conversations_"@,
    }
}

/// The file that holds the snapshot of this kind for the user `handle`.
pub fn user_data_path(kind: UserDataKind, handle: &str) -> (r: String)
    ensures
        r@ == kind_prefix(kind) + handle@ + ".ron"@,
{
    let prefix = match kind {
        UserDataKind::Info => "data/user-info_",
        UserDataKind::Tweets => "data/user-tweets_",
        UserDataKind::Conversations => "data/user-conversations_",
    };
    let mut path = String::from_str(prefix);
    path.append(handle);
    path.append(".ron");
    path
}

/// Cuts a fetched list of a user's tweets, newest first, to its first
/// `limit` entries.
pub fn keep_recent(tweets: &mut Vec<Tweet>, limit: usize)
    ensures
        final(tweets)@.len() <= limit,
        final(tweets)@ == if old(tweets)@.len() <= limit {
            old(tweets)@
        } else {
            old(tweets)@.take(limit as int)
        },
{
    if tweets.len() > limit {
        tweets.truncate(limit);
    }
}

} // verus!
