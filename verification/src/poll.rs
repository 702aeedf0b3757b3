//! Polls: the record, its vote ledger and its comment ledger.

use crate::category::{SimpleInput, SimpleInputView};
use crate::error::Error;
use crate::identity::{copy_identities, is_listed, same_identity};
use candid::Principal;
use vstd::prelude::*;

verus! {

/// A remark that an identity left on a poll.
#[derive(Debug, PartialEq, Eq)]
pub struct Comment {
    pub created_at: u64,
    pub comment: String,
    pub author: Principal,
}

/// What a [`Comment`] holds, as mathematical values.
pub struct CommentView {
    pub created_at: u64,
    pub comment: Seq<char>,
    pub author: Principal,
}

impl View for Comment {
    type V = CommentView;

    open spec fn view(&self) -> CommentView {
        CommentView { created_at: self.created_at, comment: self.comment@, author: self.author }
    }
}

impl Clone for Comment {
    fn clone(&self) -> (copy: Self)
        ensures
            copy@ == self@,
    {
        Comment { created_at: self.created_at, comment: self.comment.clone(), author: self.author }
    }
}

/// The views of a sequence of comments, in the same order.
pub open spec fn comment_views(comments: Seq<Comment>) -> Seq<CommentView> {
    comments.map_values(|c: Comment| c@)
}

/// The result of asking for comments, with the views taken of the comments.
pub open spec fn comments_outcome(result: Result<Vec<Comment>, Error>) -> Result<
    Seq<CommentView>,
    Error,
> {
    match result {
        Ok(comments) => Ok(comment_views(comments@)),
        Err(e) => Err(e),
    }
}

/// A copy of `comments`, element for element.
pub fn copy_comments(comments: &Vec<Comment>) -> (copy: Vec<Comment>)
    ensures
        comment_views(copy@) == comment_views(comments@),
{
    let mut copy: Vec<Comment> = Vec::new();
    let mut i: usize = 0;
    while i < comments.len()
        invariant
            i <= comments.len(),
            copy.len() == i,
            forall|j: int| 0 <= j < i ==> copy@[j]@ == comments@[j]@,
        decreases comments.len() - i,
    {
        copy.push(comments[i].clone());
        i += 1;
    }
    assert(comment_views(copy@) =~= comment_views(comments@));
    copy
}

/// A poll: what it asks, who made it and when, until when it takes votes,
/// the running tally, who has voted, and the comments left on it.
#[derive(Debug, PartialEq, Eq)]
pub struct Poll {
    pub id: u64,
    pub title: String,
    pub description: String,
    pub votes: i128,
    pub created_at: u64,
    pub created_by: Principal,
    pub votes_vec: Vec<Principal>,
    pub category: u64,
    pub comments: Vec<Comment>,
    pub expiring_date: u64,
}

/// What a [`Poll`] holds, as mathematical values. `voters` lists the
/// identities that have voted, in the order in which they did.
pub struct PollView {
    pub id: u64,
    pub title: Seq<char>,
    pub description: Seq<char>,
    pub votes: int,
    pub created_at: u64,
    pub created_by: Principal,
    pub voters: Seq<Principal>,
    pub category: u64,
    pub comments: Seq<CommentView>,
    pub expiring_date: u64,
}

/// A poll as it is shown: everything but the voters and the comments.
#[derive(Debug, PartialEq, Eq)]
pub struct PollResult {
    pub id: u64,
    pub title: String,
    pub description: String,
    pub votes: i128,
    pub created_at: u64,
    pub created_by: Principal,
    pub expiring_date: u64,
}

/// What a [`PollResult`] holds, as mathematical values.
pub struct PollResultView {
    pub id: u64,
    pub title: Seq<char>,
    pub description: Seq<char>,
    pub votes: int,
    pub created_at: u64,
    pub created_by: Principal,
    pub expiring_date: u64,
}

impl View for PollResult {
    type V = PollResultView;

    open spec fn view(&self) -> PollResultView {
        PollResultView {
            id: self.id,
            title: self.title@,
            description: self.description@,
            votes: self.votes as int,
            created_at: self.created_at,
            created_by: self.created_by,
            expiring_date: self.expiring_date,
        }
    }
}

/// Whether `vote` is one of -1, 0 and 1.
pub open spec fn is_valid_vote(vote: i8) -> bool {
    -1 <= vote <= 1
}

impl PollView {
    /// A poll that has just been created: no votes, no voters, no comments,
    /// and an expiring date `validity_period` after its creation.
    pub open spec fn fresh(
        id: u64,
        input: SimpleInputView,
        category: u64,
        now: u64,
        validity_period: u64,
        caller: Principal,
    ) -> PollView {
        PollView {
            id,
            title: input.title,
            description: input.description,
            votes: 0,
            created_at: now,
            created_by: caller,
            voters: Seq::empty(),
            category,
            comments: Seq::empty(),
            expiring_date: (now + validity_period) as u64,
        }
    }

    /// The ledger is sound: nobody is listed twice among the voters, and the
    /// tally is no further from zero than the number of voters, as each of
    /// them moved it by one at most.
    pub open spec fn wf(self) -> bool {
        &&& self.voters.no_duplicates()
        &&& -self.voters.len() <= self.votes <= self.voters.len()
    }

    /// The poll as it is shown.
    pub open spec fn summary(self) -> PollResultView {
        PollResultView {
            id: self.id,
            title: self.title,
            description: self.description,
            votes: self.votes,
            created_at: self.created_at,
            created_by: self.created_by,
            expiring_date: self.expiring_date,
        }
    }

    /// The poll once `caller` has cast `vote`.
    pub open spec fn with_vote(self, vote: i8, caller: Principal) -> PollView {
        PollView { votes: self.votes + vote, voters: self.voters.push(caller), ..self }
    }

    /// The poll once `comment` has been appended.
    pub open spec fn with_comment(self, comment: CommentView) -> PollView {
        PollView { comments: self.comments.push(comment), ..self }
    }

    /// What becomes of a vote: the first of the four checks that fails gives
    /// the error; if none does, the poll with the vote applied.
    pub open spec fn vote_outcome(self, vote: i8, now: u64, caller: Principal) -> Result<
        PollView,
        Error,
    > {
        if !is_valid_vote(vote) {
            Err(Error::InvalidVote)
        } else if now >= self.expiring_date {
            Err(Error::PollExpired)
        } else if self.voters.contains(caller) {
            Err(Error::AlreadyVoted)
        } else {
            Ok(self.with_vote(vote, caller))
        }
    }
}

impl View for Poll {
    type V = PollView;

    open spec fn view(&self) -> PollView {
        PollView {
            id: self.id,
            title: self.title@,
            description: self.description@,
            votes: self.votes as int,
            created_at: self.created_at,
            created_by: self.created_by,
            voters: self.votes_vec@,
            category: self.category,
            comments: comment_views(self.comments@),
            expiring_date: self.expiring_date,
        }
    }
}

impl Clone for Poll {
    fn clone(&self) -> (copy: Self)
        ensures
            copy@ == self@,
    {
        Poll {
            id: self.id,
            title: self.title.clone(),
            description: self.description.clone(),
            votes: self.votes,
            created_at: self.created_at,
            created_by: self.created_by,
            votes_vec: copy_identities(&self.votes_vec),
            category: self.category,
            comments: copy_comments(&self.comments),
            expiring_date: self.expiring_date,
        }
    }
}

impl Poll {
    /// A new poll made by `caller` at time `now`, open for `validity_period`.
    pub fn new(
        id: u64,
        input: SimpleInput,
        category: u64,
        now: u64,
        validity_period: u64,
        caller: Principal,
    ) -> (poll: Poll)
        requires
            now + validity_period <= u64::MAX,
        ensures
            poll@ == PollView::fresh(id, input@, category, now, validity_period, caller),
            poll@.wf(),
    {
        let poll = Poll {
            id,
            title: input.title,
            description: input.description,
            votes: 0,
            created_at: now,
            created_by: caller,
            votes_vec: Vec::new(),
            category,
            comments: Vec::new(),
            expiring_date: now + validity_period,
        };
        assert(poll@.comments =~= Seq::empty());
        poll
    }

    /// Whether the ledger is sound: nobody listed twice among the voters,
    /// and a tally no further from zero than the number of voters.
    pub fn is_sound(&self) -> (sound: bool)
        ensures
            sound == self@.wf(),
    {
        let voters: usize = self.votes_vec.len();
        if self.votes > voters as i128 || self.votes < -(voters as i128) {
            return false;
        }
        let mut i: usize = 0;
        while i < voters
            invariant
                i <= voters,
                voters == self.votes_vec.len(),
                forall|a: int, b: int| 0 <= a < b < i ==> self.votes_vec@[a] != self.votes_vec@[b],
            decreases voters - i,
        {
            let mut j: usize = 0;
            while j < i
                invariant
                    j <= i < voters,
                    voters == self.votes_vec.len(),
                    forall|a: int| 0 <= a < j ==> self.votes_vec@[a] != self.votes_vec@[i as int],
                decreases i - j,
            {
                if same_identity(&self.votes_vec[j], &self.votes_vec[i]) {
                    return false;
                }
                j += 1;
            }
            i += 1;
        }
        assert forall|a: int, b: int|
            0 <= a < self.votes_vec@.len() && 0 <= b < self.votes_vec@.len() && a
                != b implies self.votes_vec@[a] != self.votes_vec@[b] by {
            if a < b {
                assert(self.votes_vec@[a] != self.votes_vec@[b]);
            } else {
                assert(self.votes_vec@[b] != self.votes_vec@[a]);
            }
        }
        true
    }

    /// The poll as it is shown.
    pub fn result(&self) -> (shown: PollResult)
        ensures
            shown@ == self@.summary(),
    {
        PollResult {
            id: self.id,
            title: self.title.clone(),
            description: self.description.clone(),
            votes: self.votes,
            created_at: self.created_at,
            created_by: self.created_by,
            expiring_date: self.expiring_date,
        }
    }

    /// Casts `vote` for `caller` at time `now`. The vote must be -1, 0 or 1,
    /// the poll must not have expired, and `caller` must not have voted
    /// before; the first of these that fails is reported and the poll is
    /// left as it was.
    pub fn cast_vote(&mut self, vote: i8, now: u64, caller: Principal) -> (done: Result<(), Error>)
        requires
            old(self)@.wf(),
        ensures
            final(self)@.wf(),
            match old(self)@.vote_outcome(vote, now, caller) {
                Ok(voted) => done is Ok && final(self)@ == voted,
                Err(e) => done == Err::<(), Error>(e) && final(self)@ == old(self)@,
            },
    {
        if vote > 1 || vote < -1 {
            return Err(Error::InvalidVote);
        }
        if now >= self.expiring_date {
            return Err(Error::PollExpired);
        }
        if is_listed(&self.votes_vec, &caller) {
            return Err(Error::AlreadyVoted);
        }
        assert(self.votes_vec@.len() == self.votes_vec.len() <= usize::MAX);
        self.votes = self.votes + vote as i128;
        self.votes_vec.push(caller);
        Ok(())
    }

    /// Appends a comment by `caller` written at time `now`.
    pub fn push_comment(&mut self, text: String, now: u64, caller: Principal)
        ensures
            final(self)@ == old(self)@.with_comment(
                CommentView { created_at: now, comment: text@, author: caller },
            ),
    {
        let comment = Comment { created_at: now, comment: text, author: caller };
        self.comments.push(comment);
        assert(comment_views(self.comments@) =~= comment_views(old(self).comments@).push(comment@));
    }
}

} // verus!
