//! Rebuilding a reply conversation from its leaf tweet.
//!
//! The walk starts at the leaf and follows each tweet's "replied-to"
//! reference back to the root, one fetch per hop. The fetch itself (from the
//! tweet snapshot, or from the remote API on a miss) is the caller's: a
//! [`Reconstruction`] says which tweet to fetch next and takes the fetched
//! tweet back. A reference to a tweet that is already in the chain is reported
//! as a cycle instead of being followed forever.
use vstd::prelude::*;
use crate::snapshot::{has_tweet, ids_unique};
use crate::tweet::{reply_target, Tweet};

verus! {

/// What a reconstruction needs next.
#[derive(Clone, Copy, Debug, PartialEq, Eq, Structural)]
pub enum Step {
    /// Fetch the tweet with this id and hand it to [`Reconstruction::extend`].
    Fetch(u64),
    /// The oldest tweet of the chain replies to nothing: the chain is whole.
    Complete,
    /// The oldest tweet of the chain replies to a tweet already in the chain.
    Cycle(u64),
}

/// Why a tweet handed to [`Reconstruction::extend`] was not taken.
#[derive(Clone, Copy, Debug, PartialEq, Eq, Structural)]
pub enum ExtendError {
    /// The reconstruction is complete or has met a cycle: it awaits no tweet.
    NotAwaiting,
    /// The tweet is not the one that the reconstruction awaits.
    WrongTweet { expected: u64, found: u64 },
}

/// Leaf-first: each tweet of `c` but the last replies to the one after it.
pub open spec fn chain_linked(c: Seq<Tweet>) -> bool {
    forall|i: int| 0 <= i < c.len() - 1 ==> #[trigger] reply_target(c[i]) == Some(c[i + 1].id)
}

/// Root-first: each tweet of `c` but the first replies to the one before it.
pub open spec fn conversation_linked(c: Seq<Tweet>) -> bool {
    forall|i: int| 0 < i < c.len() ==> #[trigger] reply_target(c[i]) == Some(c[i - 1].id)
}

/// The step that follows a leaf-first chain: decided by what its oldest tweet
/// replies to.
pub open spec fn step_of(chain: Seq<Tweet>) -> Step {
    match reply_target(chain.last()) {
        None => Step::Complete,
        Some(id) => if has_tweet(chain, id) {
            Step::Cycle(id)
        } else {
            Step::Fetch(id)
        },
    }
}

/// A tweet that replies to nothing is a whole conversation by itself: a
/// reconstruction started at it is complete at once and yields just that
/// tweet.
pub proof fn lemma_unreplying_leaf_is_whole(t: Tweet)
    requires
        reply_target(t) is None,
    ensures
        step_of(seq![t]) == Step::Complete,
        seq![t].reverse() == seq![t],
{
    assert(seq![t].last() == t);
    assert(seq![t].reverse() =~= seq![t]);
}

/// A conversation being rebuilt, held leaf-first.
pub struct Reconstruction {
    chain: Vec<Tweet>,
}

impl View for Reconstruction {
    type V = Seq<Tweet>;

    /// The tweets gathered so far, leaf first.
    closed spec fn view(&self) -> Seq<Tweet> {
        self.chain@
    }
}

impl Reconstruction {
    /// The chain is not empty, each of its tweets replies to the next, and
    /// no id occurs twice.
    pub open spec fn wf(&self) -> bool {
        &&& self@.len() > 0
        &&& chain_linked(self@)
        &&& ids_unique(self@)
    }

    /// Starts a reconstruction at the leaf tweet.
    pub fn new(leaf: Tweet) -> (r: Self)
        ensures
            r.wf(),
            r@ == seq![leaf],
    {
        let mut chain: Vec<Tweet> = Vec::new();
        chain.push(leaf);
        Reconstruction { chain }
    }

    /// The number of tweets gathered so far.
    pub fn len(&self) -> (n: usize)
        ensures
            n == self@.len(),
    {
        self.chain.len()
    }

    /// What comes next: the id of the tweet to fetch, completion, or a cycle.
    pub fn next_step(&self) -> (s: Step)
        requires
            self.wf(),
        ensures
            s == step_of(self@),
    {
        let oldest = &self.chain[self.chain.len() - 1];
        match oldest.replied_to_id() {
            None => Step::Complete,
            Some(id) => {
                let mut i: usize = 0;
                while i < self.chain.len()
                    invariant
                        i <= self.chain@.len(),
                        self.chain@.len() > 0,
                        reply_target(self.chain@.last()) == Some(id),
                        forall|j: int| 0 <= j < i ==> #[trigger] self.chain@[j].id != id,
                    decreases self.chain@.len() - i,
                {
                    if self.chain[i].id == id {
                        assert(self.chain@[i as int].id == id);
                        return Step::Cycle(id);
                    }
                    i = i + 1;
                }
                Step::Fetch(id)
            },
        }
    }

    /// Takes the fetched tweet that the reconstruction awaits and adds it as
    /// the new oldest tweet of the chain. Any other tweet is refused and the
    /// reconstruction is left as it was.
    pub fn extend(&mut self, parent: Tweet) -> (r: Result<(), ExtendError>)
        requires
            old(self).wf(),
        ensures
            final(self).wf(),
            match step_of(old(self)@) {
                Step::Fetch(id) => if id == parent.id {
                    r is Ok && final(self)@ == old(self)@.push(parent)
                } else {
                    r == Err::<(), ExtendError>(ExtendError::WrongTweet { expected: id, found: parent.id })
                        && final(self)@ == old(self)@
                },
                _ => r == Err::<(), ExtendError>(ExtendError::NotAwaiting) && final(self)@ == old(
                    self,
                )@,
            },
    {
        match self.next_step() {
            Step::Fetch(id) => {
                if id == parent.id {
                    let ghost prev = self.chain@;
                    self.chain.push(parent);
                    proof {
                        assert(self.chain@[prev.len() - 1] == prev.last());
                        assert(forall|i: int| 0 <= i < prev.len() ==> self.chain@[i] == prev[i]);
                    }
                    Ok(())
                } else {
                    Err(ExtendError::WrongTweet { expected: id, found: parent.id })
                }
            },
            _ => Err(ExtendError::NotAwaiting),
        }
    }

    /// The gathered tweets in root-first order, the leaf last.
    ///
    /// Where the walk completed, the first tweet replies to nothing.
    pub fn into_conversation(self) -> (c: Vec<Tweet>)
        requires
            self.wf(),
        ensures
            c@ == self@.reverse(),
            c@.len() > 0,
            c@.last() == self@[0],
            conversation_linked(c@),
            step_of(self@) == Step::Complete ==> reply_target(c@[0]) is None,
    {
        let ghost all = self.chain@;
        let mut chain = self.chain;
        let mut out: Vec<Tweet> = Vec::new();
        while chain.len() > 0
            invariant
                chain@.len() + out@.len() == all.len(),
                chain@ == all.subrange(0, chain@.len() as int),
                forall|k: int| 0 <= k < out@.len() ==> #[trigger] out@[k] == all[all.len() - 1 - k],
            decreases chain@.len(),
        {
            let t = chain.pop().unwrap();
            out.push(t);
        }
        proof {
            assert(out@ =~= all.reverse());
        }
        out
    }
}

} // verus!
