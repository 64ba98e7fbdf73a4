//! The global snapshots: every tweet seen, and every conversation rebuilt.
//!
//! Both are read whole, searched, and written back whole. A merge never
//! replaces an entry that is already there: the tweet snapshot is keyed by
//! tweet id, the conversation snapshot by the id of each conversation's leaf
//! (last) tweet.
use vstd::prelude::*;
use crate::tweet::Tweet;

verus! {

/// Some tweet of `s` has id `id`.
pub open spec fn has_tweet(s: Seq<Tweet>, id: u64) -> bool {
    exists|i: int| 0 <= i < s.len() && #[trigger] s[i].id == id
}

/// No two tweets of `s` share an id.
pub open spec fn ids_unique(s: Seq<Tweet>) -> bool {
    forall|i: int, j: int| 0 <= i < j < s.len() ==> #[trigger] s[i].id != #[trigger] s[j].id
}

/// The snapshot `s` after the tweets of `fetched` were inserted in order, each
/// one appended only if no tweet with its id is there yet.
pub open spec fn merged_tweets(s: Seq<Tweet>, fetched: Seq<Tweet>) -> Seq<Tweet>
    decreases fetched.len(),
{
    if fetched.len() == 0 {
        s
    } else {
        let prev = merged_tweets(s, fetched.drop_last());
        if has_tweet(prev, fetched.last().id) {
            prev
        } else {
            prev.push(fetched.last())
        }
    }
}

/// The index of the first tweet of `snapshot` with id `id`, or `None` where
/// there is none.
pub fn find_tweet(snapshot: &Vec<Tweet>, id: u64) -> (r: Option<usize>)
    ensures
        r is None <==> !has_tweet(snapshot@, id),
        r matches Some(i) ==> i < snapshot@.len() && snapshot@[i as int].id == id && forall|j: int|
            0 <= j < i ==> #[trigger] snapshot@[j].id != id,
{
    let mut i: usize = 0;
    while i < snapshot.len()
        invariant
            i <= snapshot@.len(),
            forall|j: int| 0 <= j < i ==> #[trigger] snapshot@[j].id != id,
        decreases snapshot@.len() - i,
    {
        if snapshot[i].id == id {
            return Some(i);
        }
        i = i + 1;
    }
    None
}

/// Inserts the fetched tweets into the tweet snapshot, keeping every entry
/// already there untouched and skipping each fetched tweet whose id is
/// already present.
pub fn merge_tweets(snapshot: &mut Vec<Tweet>, fetched: Vec<Tweet>)
    ensures
        final(snapshot)@ == merged_tweets(old(snapshot)@, fetched@),
        ids_unique(old(snapshot)@) ==> ids_unique(final(snapshot)@),
{
    let ghost start = snapshot@;
    let ghost all = fetched@;
    assert(all.len() == fetched.len());
    let mut rest = fetched;
    let mut k: usize = 0;
    while rest.len() > 0
        invariant
            k + rest@.len() == all.len(),
            all.len() <= usize::MAX,
            rest@ == all.skip(k as int),
            snapshot@ == merged_tweets(start, all.take(k as int)),
        decreases rest@.len(),
    {
        let t = rest.remove(0);
        proof {
            assert(all.take(k + 1).drop_last() =~= all.take(k as int));
            assert(all.take(k + 1).last() == all[k as int]);
            assert(all.skip(k + 1) =~= all.skip(k as int).remove(0));
        }
        if find_tweet(snapshot, t.id).is_none() {
            snapshot.push(t);
        }
        k = k + 1;
    }
    proof {
        assert(all.take(k as int) =~= all);
        if ids_unique(start) {
            lemma_merged_keeps_unique(start, all);
        }
    }
}

/// A merge keeps ids unique.
pub proof fn lemma_merged_keeps_unique(s: Seq<Tweet>, fetched: Seq<Tweet>)
    requires
        ids_unique(s),
    ensures
        ids_unique(merged_tweets(s, fetched)),
    decreases fetched.len(),
{
    if fetched.len() > 0 {
        lemma_merged_keeps_unique(s, fetched.drop_last());
    }
}

/// A merge keeps every entry already in the snapshot, in place and unchanged.
pub proof fn lemma_merge_keeps_existing(s: Seq<Tweet>, fetched: Seq<Tweet>)
    ensures
        s.len() <= merged_tweets(s, fetched).len(),
        merged_tweets(s, fetched).subrange(0, s.len() as int) == s,
    decreases fetched.len(),
{
    if fetched.len() > 0 {
        lemma_merge_keeps_existing(s, fetched.drop_last());
        let prev = merged_tweets(s, fetched.drop_last());
        assert(prev.push(fetched.last()).subrange(0, s.len() as int) =~= prev.subrange(
            0,
            s.len() as int,
        ));
    }
}

/// Merging a fetched tweet whose id the snapshot already holds leaves the
/// snapshot as it was: the entry that was there wins over the refetched one.
pub proof fn lemma_merge_present_is_noop(s: Seq<Tweet>, t: Tweet)
    requires
        has_tweet(s, t.id),
    ensures
        merged_tweets(s, seq![t]) == s,
{
    assert(seq![t].drop_last() =~= Seq::<Tweet>::empty());
    assert(merged_tweets(s, seq![t].drop_last()) == s);
    assert(seq![t].last() == t);
}

/// After a merge, a lookup finds the id of every fetched tweet, so loading
/// one of them again needs no remote fetch.
pub proof fn lemma_fill_then_found(s: Seq<Tweet>, fetched: Seq<Tweet>)
    ensures
        forall|i: int|
            0 <= i < fetched.len() ==> has_tweet(merged_tweets(s, fetched), #[trigger] fetched[i].id),
    decreases fetched.len(),
{
    if fetched.len() > 0 {
        let init = fetched.drop_last();
        lemma_fill_then_found(s, init);
        let prev = merged_tweets(s, init);
        let m = merged_tweets(s, fetched);
        assert forall|i: int| 0 <= i < fetched.len() implies has_tweet(
            m,
            #[trigger] fetched[i].id,
        ) by {
            if i < fetched.len() - 1 {
                assert(init[i] == fetched[i]);
                let j = choose|j: int| 0 <= j < prev.len() && #[trigger] prev[j].id == fetched[i].id;
                if !has_tweet(prev, fetched.last().id) {
                    assert(m[j] == prev[j]);
                }
            } else if !has_tweet(prev, fetched.last().id) {
                assert(m[prev.len() as int] == fetched.last());
            }
        }
    }
}

/// Merging tweets whose ids the snapshot already holds changes nothing.
pub proof fn lemma_merge_known_is_noop(s: Seq<Tweet>, fetched: Seq<Tweet>)
    requires
        forall|i: int| 0 <= i < fetched.len() ==> has_tweet(s, #[trigger] fetched[i].id),
    ensures
        merged_tweets(s, fetched) == s,
    decreases fetched.len(),
{
    if fetched.len() > 0 {
        let init = fetched.drop_last();
        assert forall|i: int| 0 <= i < init.len() implies has_tweet(s, #[trigger] init[i].id) by {
            assert(init[i] == fetched[i]);
        }
        lemma_merge_known_is_noop(s, init);
        assert(has_tweet(s, fetched[fetched.len() - 1].id));
    }
}

/// Filling the snapshot twice with the same fetched tweets leaves it as the
/// first fill did.
pub proof fn lemma_fill_idempotent(s: Seq<Tweet>, fetched: Seq<Tweet>)
    ensures
        merged_tweets(merged_tweets(s, fetched), fetched) == merged_tweets(s, fetched),
{
    lemma_fill_then_found(s, fetched);
    lemma_merge_known_is_noop(merged_tweets(s, fetched), fetched);
}

/// The id of a conversation's leaf (last) tweet, which keys it in the
/// conversation snapshot.
pub open spec fn leaf_of(c: Seq<Tweet>) -> Option<u64> {
    if c.len() == 0 {
        None
    } else {
        Some(c.last().id)
    }
}

/// Some conversation of `cs` has leaf id `leaf`.
pub open spec fn has_conversation(cs: Seq<Vec<Tweet>>, leaf: u64) -> bool {
    exists|i: int| 0 <= i < cs.len() && #[trigger] leaf_of(cs[i]@) == Some(leaf)
}

/// No two conversations of `cs` share a leaf id.
pub open spec fn leaves_unique(cs: Seq<Vec<Tweet>>) -> bool {
    forall|i: int, j: int|
        0 <= i < j < cs.len() && leaf_of(cs[i]@) is Some ==> #[trigger] leaf_of(cs[i]@)
            != #[trigger] leaf_of(cs[j]@)
}

/// In a snapshot without two conversations of one leaf, the conversation
/// stored for a leaf id is the only one with that leaf id, so a lookup by that
/// id finds exactly it, with no remote fetch.
pub proof fn lemma_lookup_by_leaf(cs: Seq<Vec<Tweet>>, i: int)
    requires
        leaves_unique(cs),
        0 <= i < cs.len(),
        cs[i]@.len() > 0,
    ensures
        has_conversation(cs, cs[i]@.last().id),
        forall|j: int|
            0 <= j < cs.len() && #[trigger] leaf_of(cs[j]@) == Some(cs[i]@.last().id) ==> j == i,
{
    let leaf = cs[i]@.last().id;
    assert(leaf_of(cs[i]@) == Some(leaf));
    assert forall|j: int|
        0 <= j < cs.len() && #[trigger] leaf_of(cs[j]@) == Some(leaf) implies j == i by {
        if j < i {
            assert(leaf_of(cs[j]@) != leaf_of(cs[i]@));
        } else if j > i {
            assert(leaf_of(cs[i]@) != leaf_of(cs[j]@));
        }
    }
}

/// The id of the leaf tweet of `conversation`, or `None` for an empty one.
pub fn leaf_id(conversation: &Vec<Tweet>) -> (r: Option<u64>)
    ensures
        r == leaf_of(conversation@),
{
    if conversation.len() == 0 {
        None
    } else {
        Some(conversation[conversation.len() - 1].id)
    }
}

/// The index of the first conversation of the snapshot whose leaf tweet has
/// id `leaf`, or `None` where there is none.
pub fn find_conversation(conversations: &Vec<Vec<Tweet>>, leaf: u64) -> (r: Option<usize>)
    ensures
        r is None <==> !has_conversation(conversations@, leaf),
        r matches Some(i) ==> i < conversations@.len() && leaf_of(conversations@[i as int]@) == Some(
            leaf,
        ) && forall|j: int|
            0 <= j < i ==> #[trigger] leaf_of(conversations@[j]@) != Some(leaf),
{
    let mut i: usize = 0;
    while i < conversations.len()
        invariant
            i <= conversations@.len(),
            forall|j: int| 0 <= j < i ==> #[trigger] leaf_of(conversations@[j]@) != Some(leaf),
        decreases conversations@.len() - i,
    {
        if leaf_id(&conversations[i]) == Some(leaf) {
            return Some(i);
        }
        i = i + 1;
    }
    None
}

/// Adds a conversation to the conversation snapshot unless one with the same
/// leaf id is already there; returns whether it was added.
pub fn merge_conversation(conversations: &mut Vec<Vec<Tweet>>, conversation: Vec<Tweet>) -> (added:
    bool)
    requires
        conversation@.len() > 0,
    ensures
        added == !has_conversation(old(conversations)@, conversation@.last().id),
        final(conversations)@ == if added {
            old(conversations)@.push(conversation)
        } else {
            old(conversations)@
        },
        leaves_unique(old(conversations)@) ==> leaves_unique(final(conversations)@),
{
    let leaf = conversation[conversation.len() - 1].id;
    if find_conversation(conversations, leaf).is_some() {
        false
    } else {
        conversations.push(conversation);
        true
    }
}

} // verus!
