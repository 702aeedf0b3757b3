//! The service as a mathematical state: what it holds and what each
//! operation makes of it.

use crate::category::{CategoryResultView, SimpleInputView};
use crate::error::Error;
use crate::filter::SearchFilterView;
use crate::poll::{CommentView, PollResultView, PollView};
use candid::Principal;
use vstd::prelude::*;

verus! {

/// What the service holds: the categories and the polls, each in the order
/// of their identifiers, and for each of the two the identifier that will be
/// issued next.
#[verifier::ext_equal]
pub struct PollStoreView {
    pub categories: Seq<CategoryResultView>,
    pub next_category_id: u64,
    pub polls: Seq<PollView>,
    pub next_poll_id: u64,
}

/// Those of `polls` that `filter` accepts, in their order.
pub open spec fn accepted(polls: Seq<PollView>, filter: SearchFilterView) -> Seq<PollView> {
    polls.filter(|poll: PollView| filter.accepts(poll))
}

impl PollStoreView {
    /// The state of a service that has not been used yet.
    pub open spec fn empty() -> PollStoreView {
        PollStoreView {
            categories: Seq::empty(),
            next_category_id: 0,
            polls: Seq::empty(),
            next_poll_id: 0,
        }
    }

    /// Whether the category at position `at` has the identifier `id`.
    pub open spec fn category_at(self, id: u64, at: int) -> bool {
        0 <= at < self.categories.len() && self.categories[at].id == id
    }

    /// Whether a category with the identifier `id` exists.
    pub open spec fn has_category(self, id: u64) -> bool {
        exists|at: int| self.category_at(id, at)
    }

    /// The category with the identifier `id`, if there is one.
    pub open spec fn category(self, id: u64) -> Option<CategoryResultView> {
        if self.has_category(id) {
            Some(self.categories[choose|at: int| self.category_at(id, at)])
        } else {
            None
        }
    }

    /// Whether the poll at position `at` has the identifier `id`.
    pub open spec fn poll_at(self, id: u64, at: int) -> bool {
        0 <= at < self.polls.len() && self.polls[at].id == id
    }

    /// Whether a poll with the identifier `id` exists.
    pub open spec fn has_poll(self, id: u64) -> bool {
        exists|at: int| self.poll_at(id, at)
    }

    /// The poll with the identifier `id`, if there is one.
    pub open spec fn poll(self, id: u64) -> Option<PollView> {
        if self.has_poll(id) {
            Some(self.polls[choose|at: int| self.poll_at(id, at)])
        } else {
            None
        }
    }

    /// The state is sound: categories and polls stand in the strict order of
    /// their identifiers, every identifier in use lies below the one that
    /// will be issued next, every poll's ledger is sound, and every poll
    /// names a category that exists.
    pub open spec fn wf(self) -> bool {
        &&& forall|i: int, j: int|
            0 <= i < j < self.categories.len() ==> self.categories[i].id < self.categories[j].id
        &&& forall|i: int|
            0 <= i < self.categories.len() ==> self.categories[i].id < self.next_category_id
        &&& forall|i: int, j: int|
            0 <= i < j < self.polls.len() ==> self.polls[i].id < self.polls[j].id
        &&& forall|i: int| 0 <= i < self.polls.len() ==> self.polls[i].id < self.next_poll_id
        &&& forall|i: int| 0 <= i < self.polls.len() ==> (#[trigger] self.polls[i]).wf()
        &&& forall|i: int|
            0 <= i < self.polls.len() ==> self.has_category((#[trigger] self.polls[i]).category)
    }

    /// Files a new category under the next identifier. Nothing happens once
    /// the identifiers have run out.
    pub open spec fn add_category(self, input: SimpleInputView) -> (
        PollStoreView,
        Option<CategoryResultView>,
    ) {
        if self.next_category_id == u64::MAX {
            (self, None)
        } else {
            let entry = CategoryResultView { category: input, id: self.next_category_id };
            (
                PollStoreView {
                    categories: self.categories.push(entry),
                    next_category_id: (self.next_category_id + 1) as u64,
                    ..self
                },
                Some(entry),
            )
        }
    }

    /// Looks a category up.
    pub open spec fn get_category(self, id: u64) -> Result<CategoryResultView, Error> {
        match self.category(id) {
            Some(entry) => Ok(entry),
            None => Err(Error::NotFound),
        }
    }

    /// Creates a poll in an existing category, under the next identifier, or
    /// refuses and leaves the state as it was, the next identifier included.
    pub open spec fn create_poll(
        self,
        input: SimpleInputView,
        category: u64,
        validity_period: u64,
        now: u64,
        caller: Principal,
    ) -> (PollStoreView, Result<PollView, Error>) {
        if !self.has_category(category) {
            (self, Err(Error::NotFound))
        } else {
            let poll = PollView::fresh(
                self.next_poll_id,
                input,
                category,
                now,
                validity_period,
                caller,
            );
            (
                PollStoreView {
                    polls: self.polls.push(poll),
                    next_poll_id: (self.next_poll_id + 1) as u64,
                    ..self
                },
                Ok(poll),
            )
        }
    }

    /// The state with `poll` in the place of the poll that has its
    /// identifier.
    pub open spec fn replace_poll(self, poll: PollView) -> PollStoreView {
        PollStoreView {
            polls: self.polls.map_values(
                |stored: PollView| if stored.id == poll.id { poll } else { stored },
            ),
            ..self
        }
    }

    /// Looks a poll up and shows it.
    pub open spec fn get_poll_result(self, id: u64) -> Result<PollResultView, Error> {
        match self.poll(id) {
            Some(poll) => Ok(poll.summary()),
            None => Err(Error::NotFound),
        }
    }

    /// The polls that `filter` accepts, in the order of their identifiers.
    pub open spec fn get_polls(self, filter: SearchFilterView) -> Seq<PollView> {
        accepted(self.polls, filter)
    }

    /// Casts a vote: the poll must exist, then the vote must pass the
    /// ledger's three checks. A refused vote leaves the state as it was.
    pub open spec fn vote_poll(self, poll_id: u64, vote: i8, now: u64, caller: Principal) -> (
        PollStoreView,
        Result<PollResultView, Error>,
    ) {
        match self.poll(poll_id) {
            None => (self, Err(Error::NotFound)),
            Some(poll) => match poll.vote_outcome(vote, now, caller) {
                Ok(voted) => (self.replace_poll(voted), Ok(voted.summary())),
                Err(e) => (self, Err(e)),
            },
        }
    }

    /// Appends a comment to an existing poll, whether it has expired or not.
    pub open spec fn add_comment(
        self,
        poll_id: u64,
        text: Seq<char>,
        now: u64,
        caller: Principal,
    ) -> (PollStoreView, Result<PollResultView, Error>) {
        match self.poll(poll_id) {
            None => (self, Err(Error::NotFound)),
            Some(poll) => {
                let commented = poll.with_comment(
                    CommentView { created_at: now, comment: text, author: caller },
                );
                (self.replace_poll(commented), Ok(commented.summary()))
            },
        }
    }

    /// The comments of a poll, in the order in which they were added.
    pub open spec fn get_comments(self, poll_id: u64) -> Result<Seq<CommentView>, Error> {
        match self.poll(poll_id) {
            Some(poll) => Ok(poll.comments),
            None => Err(Error::NotFound),
        }
    }
}

/// In a sound state a poll found at some position is the poll that its
/// identifier stands for.
pub proof fn lemma_poll_at(state: PollStoreView, id: u64, at: int)
    requires
        state.wf(),
        state.poll_at(id, at),
    ensures
        state.poll(id) == Some(state.polls[at]),
{
    let chosen = choose|at: int| state.poll_at(id, at);
    assert(state.poll_at(id, chosen));
    if chosen < at {
        assert(state.polls[chosen].id < state.polls[at].id);
    } else if at < chosen {
        assert(state.polls[at].id < state.polls[chosen].id);
    }
}

/// In a sound state a category found at some position is the category that
/// its identifier stands for.
pub proof fn lemma_category_at(state: PollStoreView, id: u64, at: int)
    requires
        state.wf(),
        state.category_at(id, at),
    ensures
        state.category(id) == Some(state.categories[at]),
{
    let chosen = choose|at: int| state.category_at(id, at);
    assert(state.category_at(id, chosen));
    if chosen < at {
        assert(state.categories[chosen].id < state.categories[at].id);
    } else if at < chosen {
        assert(state.categories[at].id < state.categories[chosen].id);
    }
}

/// Categories are never taken away: where the categories of `before` still
/// stand at the head of those of `after`, every category that existed
/// exists.
pub proof fn lemma_categories_stay(before: PollStoreView, after: PollStoreView)
    requires
        before.categories.len() <= after.categories.len(),
        after.categories.take(before.categories.len() as int) == before.categories,
    ensures
        forall|id: u64| before.has_category(id) ==> after.has_category(id),
{
    assert forall|id: u64| before.has_category(id) implies after.has_category(id) by {
        let at = choose|at: int| before.category_at(id, at);
        assert(after.categories.take(before.categories.len() as int)[at] == after.categories[at]);
        assert(after.category_at(id, at));
    }
}

/// Accepting from a sequence with one more poll at its end: the poll is
/// added to what was accepted before if the filter accepts it.
pub proof fn lemma_accepted_push(polls: Seq<PollView>, poll: PollView, filter: SearchFilterView)
    ensures
        accepted(polls.push(poll), filter) == if filter.accepts(poll) {
            accepted(polls, filter).push(poll)
        } else {
            accepted(polls, filter)
        },
{
    polls.lemma_filter_push(poll, |poll: PollView| filter.accepts(poll));
}

/// Putting a sound poll in the place of the poll at position `at`, with the
/// same identifier and category, replaces that poll and no other, and keeps
/// the state sound.
pub proof fn lemma_replace_poll(state: PollStoreView, at: int, poll: PollView)
    requires
        state.wf(),
        0 <= at < state.polls.len(),
        poll.id == state.polls[at].id,
        poll.category == state.polls[at].category,
        poll.wf(),
    ensures
        state.replace_poll(poll).polls == state.polls.update(at, poll),
        state.replace_poll(poll).wf(),
{
    let replaced = state.replace_poll(poll);
    assert forall|i: int| 0 <= i < state.polls.len() implies replaced.polls[i]
        == state.polls.update(at, poll)[i] by {
        if i < at {
            assert(state.polls[i].id < state.polls[at].id);
        } else if at < i {
            assert(state.polls[at].id < state.polls[i].id);
        }
    }
    assert(replaced.polls =~= state.polls.update(at, poll));
    assert(replaced.categories.take(state.categories.len() as int) =~= state.categories);
    lemma_categories_stay(state, replaced);
}

} // verus!
