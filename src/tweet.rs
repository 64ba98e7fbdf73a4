//! The tweet record that the archive stores.
use vstd::prelude::*;

verus! {

/// How a tweet refers to another one.
#[derive(Clone, Copy, Debug, PartialEq, Eq, Structural)]
pub enum ReferenceKind {
    Quoted,
    RepliedTo,
    Retweeted,
}

/// A typed edge from a tweet to another tweet.
#[derive(Clone, Copy, Debug, PartialEq, Eq, Structural)]
pub struct ReferencedTweet {
    pub kind: ReferenceKind,
    pub id: u64,
}

/// The media and polls attached to a tweet.
#[derive(Clone, Debug)]
pub struct Attachments {
    pub media_keys: Option<Vec<String>>,
    pub poll_ids: Option<Vec<u64>>,
}

/// A tweet with the fields that the archive requests from the API.
///
/// `created_at` counts nanoseconds since the Unix epoch, in UTC.
#[derive(Clone, Debug)]
pub struct Tweet {
    pub id: u64,
    pub text: String,
    pub author_id: Option<u64>,
    pub conversation_id: Option<u64>,
    pub created_at: Option<i128>,
    pub referenced_tweets: Option<Vec<ReferencedTweet>>,
    pub attachments: Option<Attachments>,
}

/// The target of the first "replied-to" entry of a reference list, if any.
pub open spec fn first_reply_target(refs: Seq<ReferencedTweet>) -> Option<u64>
    decreases refs.len(),
{
    if refs.len() == 0 {
        None
    } else if refs[0].kind == ReferenceKind::RepliedTo {
        Some(refs[0].id)
    } else {
        first_reply_target(refs.drop_first())
    }
}

/// The tweet that `t` is a direct reply to: the first "replied-to" reference.
pub open spec fn reply_target(t: Tweet) -> Option<u64> {
    match t.referenced_tweets {
        Some(refs) => first_reply_target(refs@),
        None => None,
    }
}

impl Tweet {
    /// The id of the tweet this one replies to, taken from the first
    /// "replied-to" entry of its reference list.
    ///
    /// The platform gives a tweet at most one such entry; where a list holds
    /// more, the first one is used.
    pub fn replied_to_id(&self) -> (r: Option<u64>)
        ensures
            r == reply_target(*self),
    {
        match &self.referenced_tweets {
            None => None,
            Some(refs) => {
                let mut i: usize = 0;
                assert(refs@.skip(0) =~= refs@);
                while i < refs.len()
                    invariant
                        self.referenced_tweets == Some(*refs),
                        i <= refs@.len(),
                        first_reply_target(refs@) == first_reply_target(refs@.skip(i as int)),
                    decreases refs@.len() - i,
                {
                    assert(refs@.skip(i as int).drop_first() =~= refs@.skip(i + 1));
                    assert(refs@.skip(i as int)[0] == refs@[i as int]);
                    if refs[i].kind == ReferenceKind::RepliedTo {
                        assert(first_reply_target(refs@.skip(i as int)) == Some(refs@[i as int].id));
                        return Some(refs[i].id);
                    }
                    i = i + 1;
                }
                None
            }
        }
    }
}

} // verus!
