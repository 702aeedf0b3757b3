//! The service itself: the categories, the polls and the two identifier
//! counters, with the operations on them.

use crate::allocator::IdAllocator;
use crate::category::{CategoryResult, CategoryResultView, SimpleInput};
use crate::error::Error;
use crate::filter::SearchFilter;
use crate::model::{
    accepted, lemma_accepted_push, lemma_categories_stay, lemma_category_at, lemma_poll_at,
    lemma_replace_poll, PollStoreView,
};
use crate::poll::{comments_outcome, copy_comments, Comment, Poll, PollResult, PollView};
use crate::views::{optional, outcome};
use candid::Principal;
use vstd::prelude::*;

verus! {

/// The views of a sequence of categories, in the same order.
pub open spec fn category_views(categories: Seq<CategoryResult>) -> Seq<CategoryResultView> {
    categories.map_values(|entry: CategoryResult| entry@)
}

/// The views of a sequence of polls, in the same order.
pub open spec fn poll_views(polls: Seq<Poll>) -> Seq<PollView> {
    polls.map_values(|poll: Poll| poll@)
}

/// The state made of the given categories, polls and next identifiers.
pub open spec fn state_of(
    categories: Seq<CategoryResult>,
    next_category_id: u64,
    polls: Seq<Poll>,
    next_poll_id: u64,
) -> PollStoreView {
    PollStoreView {
        categories: category_views(categories),
        next_category_id,
        polls: poll_views(polls),
        next_poll_id,
    }
}

/// The service's state. Categories and polls are kept in the order of their
/// identifiers, which is the order in which they were made.
pub struct PollStore {
    categories: Vec<CategoryResult>,
    category_ids: IdAllocator,
    polls: Vec<Poll>,
    poll_ids: IdAllocator,
}

impl View for PollStore {
    type V = PollStoreView;

    closed spec fn view(&self) -> PollStoreView {
        state_of(self.categories@, self.category_ids@, self.polls@, self.poll_ids@)
    }
}

impl PollStore {
    /// Whether the state is sound.
    pub open spec fn wf(&self) -> bool {
        self@.wf()
    }

    /// A service that holds nothing yet and starts both counters at zero.
    pub fn new() -> (store: PollStore)
        ensures
            store.wf(),
            store@ == PollStoreView::empty(),
    {
        let store = PollStore {
            categories: Vec::new(),
            category_ids: IdAllocator::starting_at(0),
            polls: Vec::new(),
            poll_ids: IdAllocator::starting_at(0),
        };
        assert(store@.categories =~= Seq::empty());
        assert(store@.polls =~= Seq::empty());
        store
    }

    /// A service that holds what another one held: the categories and the
    /// polls, each in the order of their identifiers, and the two
    /// identifiers to be issued next. What does not make a sound state is
    /// turned down.
    #[verifier::loop_isolation(false)]
    pub fn restore(
        categories: Vec<CategoryResult>,
        next_category_id: u64,
        polls: Vec<Poll>,
        next_poll_id: u64,
    ) -> (restored: Option<PollStore>)
        ensures
            match restored {
                Some(store) => store.wf() && store@ == state_of(
                    categories@,
                    next_category_id,
                    polls@,
                    next_poll_id,
                ),
                None => !state_of(categories@, next_category_id, polls@, next_poll_id).wf(),
            },
    {
        let ghost given = state_of(categories@, next_category_id, polls@, next_poll_id);
        let mut i: usize = 0;
        while i < categories.len()
            invariant
                i <= categories.len(),
                forall|a: int, b: int| 0 <= a < b < i ==> categories@[a].id < categories@[b].id,
                forall|a: int| 0 <= a < i ==> categories@[a].id < next_category_id,
            decreases categories.len() - i,
        {
            if categories[i].id >= next_category_id {
                assert(given.categories[i as int].id >= given.next_category_id);
                return None;
            }
            if i > 0 && categories[i - 1].id >= categories[i].id {
                assert(given.categories[i - 1].id >= given.categories[i as int].id);
                return None;
            }
            i += 1;
        }
        let listed = PollStore {
            categories,
            category_ids: IdAllocator::starting_at(next_category_id),
            polls: Vec::new(),
            poll_ids: IdAllocator::starting_at(next_poll_id),
        };
        assert(listed@.polls =~= Seq::empty());
        assert(listed@.categories == given.categories);
        let mut i: usize = 0;
        while i < polls.len()
            invariant
                i <= polls.len(),
                forall|a: int, b: int| 0 <= a < b < i ==> polls@[a].id < polls@[b].id,
                forall|a: int| 0 <= a < i ==> polls@[a].id < next_poll_id,
                forall|a: int| 0 <= a < i ==> (#[trigger] polls@[a])@.wf(),
                forall|a: int|
                    0 <= a < i ==> listed@.has_category((#[trigger] polls@[a]).category),
            decreases polls.len() - i,
        {
            let poll = &polls[i];
            assert(given.polls[i as int] == poll@);
            if poll.id >= next_poll_id {
                return None;
            }
            if i > 0 && polls[i - 1].id >= poll.id {
                assert(given.polls[i - 1].id >= given.polls[i as int].id);
                return None;
            }
            if !poll.is_sound() {
                return None;
            }
            if listed.find_category(poll.category).is_none() {
                assert forall|at: int| !given.category_at(poll.category, at) by {
                    assert(!listed@.category_at(poll.category, at));
                }
                return None;
            }
            i += 1;
        }
        let restored = PollStore {
            categories: listed.categories,
            category_ids: listed.category_ids,
            polls,
            poll_ids: listed.poll_ids,
        };
        proof {
            assert(restored@ =~= given);
            assert(given.categories.take(listed@.categories.len() as int) =~= listed@.categories);
            lemma_categories_stay(listed@, given);
        }
        Some(restored)
    }

    /// The position of the category with the identifier `id`.
    fn find_category(&self, id: u64) -> (found: Option<usize>)
        requires
            self.wf(),
        ensures
            match found {
                Some(at) => self@.category_at(id, at as int),
                None => !self@.has_category(id),
            },
    {
        let mut low: usize = 0;
        let mut high: usize = self.categories.len();
        while low < high
            invariant
                low <= high <= self.categories.len(),
                self.wf(),
                forall|i: int| 0 <= i < low ==> self@.categories[i].id < id,
                forall|i: int| high <= i < self.categories.len() ==> self@.categories[i].id > id,
            decreases high - low,
        {
            let mid: usize = low + (high - low) / 2;
            let mid_id: u64 = self.categories[mid].id;
            assert(self@.categories[mid as int].id == mid_id);
            if mid_id == id {
                return Some(mid);
            }
            if mid_id < id {
                low = mid + 1;
            } else {
                high = mid;
            }
        }
        None
    }

    /// The position of the poll with the identifier `id`.
    fn find_poll(&self, id: u64) -> (found: Option<usize>)
        requires
            self.wf(),
        ensures
            match found {
                Some(at) => self@.poll_at(id, at as int),
                None => !self@.has_poll(id),
            },
    {
        let mut low: usize = 0;
        let mut high: usize = self.polls.len();
        while low < high
            invariant
                low <= high <= self.polls.len(),
                self.wf(),
                forall|i: int| 0 <= i < low ==> self@.polls[i].id < id,
                forall|i: int| high <= i < self.polls.len() ==> self@.polls[i].id > id,
            decreases high - low,
        {
            let mid: usize = low + (high - low) / 2;
            let mid_id: u64 = self.polls[mid].id;
            assert(self@.polls[mid as int].id == mid_id);
            if mid_id == id {
                return Some(mid);
            }
            if mid_id < id {
                low = mid + 1;
            } else {
                high = mid;
            }
        }
        None
    }

    /// The polls that `filters` accepts, in the order of their identifiers.
    pub fn get_polls(&self, filters: &SearchFilter) -> (found: Vec<Poll>)
        ensures
            poll_views(found@) == self@.get_polls(filters@),
    {
        let mut found: Vec<Poll> = Vec::new();
        let mut i: usize = 0;
        assert(self@.polls.take(0) =~= Seq::empty());
        assert(poll_views(found@) =~= Seq::empty());
        while i < self.polls.len()
            invariant
                i <= self.polls.len(),
                poll_views(found@) == accepted(self@.polls.take(i as int), filters@),
            decreases self.polls.len() - i,
        {
            let poll = &self.polls[i];
            proof {
                assert(self@.polls.take(i + 1) =~= self@.polls.take(i as int).push(poll@));
                lemma_accepted_push(self@.polls.take(i as int), poll@, filters@);
            }
            if filters.matches(poll) {
                let ghost before = found@;
                found.push(poll.clone());
                assert(poll_views(found@) =~= poll_views(before).push(poll@));
            }
            i += 1;
        }
        assert(self@.polls.take(i as int) =~= self@.polls);
        found
    }

    /// Casts `vote` for `caller` at time `now` on the poll `poll_id`. The
    /// poll must exist, the vote must be -1, 0 or 1, the poll must not have
    /// expired, and `caller` must not have voted on it before: the first of
    /// these that fails is reported, and then nothing changes. Otherwise the
    /// vote is added to the tally, `caller` to the voters, and the poll is
    /// shown as it then is.
    pub fn vote_poll(&mut self, poll_id: u64, vote: i8, now: u64, caller: Principal) -> (shown:
        Result<PollResult, Error>)
        requires
            old(self).wf(),
        ensures
            final(self).wf(),
            final(self)@ == old(self)@.vote_poll(poll_id, vote, now, caller).0,
            outcome(shown) == old(self)@.vote_poll(poll_id, vote, now, caller).1,
    {
        match self.find_poll(poll_id) {
            None => Err(Error::NotFound),
            Some(at) => {
                proof {
                    lemma_poll_at(self@, poll_id, at as int);
                }
                match self.polls[at].cast_vote(vote, now, caller) {
                    Ok(()) => {
                        proof {
                            lemma_replace_poll(old(self)@, at as int, self.polls@[at as int]@);
                            assert(self@.polls =~= old(self)@.polls.update(
                                at as int,
                                self.polls@[at as int]@,
                            ));
                        }
                        Ok(self.polls[at].result())
                    },
                    Err(e) => {
                        assert(self@.polls =~= old(self)@.polls);
                        Err(e)
                    },
                }
            },
        }
    }

    /// Creates a poll in the category `category`, made by `caller` at time
    /// `now` and open for `validity_period`. Without such a category the
    /// request is refused and no identifier is used up. Otherwise the poll
    /// gets the next identifier, an empty ledger and no comments, is stored,
    /// and is returned.
    pub fn create_poll(
        &mut self,
        poll: SimpleInput,
        category: u64,
        validity_period: u64,
        now: u64,
        caller: Principal,
    ) -> (created: Result<Poll, Error>)
        requires
            old(self).wf(),
            old(self)@.has_category(category) ==> old(self)@.next_poll_id < u64::MAX && now
                + validity_period <= u64::MAX,
        ensures
            final(self).wf(),
            final(self)@ == old(self)@.create_poll(poll@, category, validity_period, now, caller).0,
            outcome(created) == old(self)@.create_poll(
                poll@,
                category,
                validity_period,
                now,
                caller,
            ).1,
    {
        if self.find_category(category).is_none() {
            return Err(Error::NotFound);
        }
        let id: u64 = self.poll_ids.next_id();
        let created = Poll::new(id, poll, category, now, validity_period, caller);
        self.polls.push(created.clone());
        proof {
            assert(self@.polls =~= old(self)@.polls.push(created@));
            assert(self@.categories =~= old(self)@.categories);
            assert(self@.categories.take(self@.categories.len() as int) =~= self@.categories);
            lemma_categories_stay(old(self)@, self@);
        }
        Ok(created)
    }

    /// Appends a comment by `caller`, written at time `now`, to the poll
    /// `poll_id`, whether the poll has expired or not, and shows the poll.
    /// Only a poll that does not exist is refused.
    pub fn add_comment(&mut self, poll_id: u64, comment: String, now: u64, caller: Principal) -> (shown:
        Result<PollResult, Error>)
        requires
            old(self).wf(),
        ensures
            final(self).wf(),
            final(self)@ == old(self)@.add_comment(poll_id, comment@, now, caller).0,
            outcome(shown) == old(self)@.add_comment(poll_id, comment@, now, caller).1,
    {
        match self.find_poll(poll_id) {
            None => Err(Error::NotFound),
            Some(at) => {
                proof {
                    lemma_poll_at(self@, poll_id, at as int);
                }
                self.polls[at].push_comment(comment, now, caller);
                proof {
                    lemma_replace_poll(old(self)@, at as int, self.polls@[at as int]@);
                    assert(self@.polls =~= old(self)@.polls.update(
                        at as int,
                        self.polls@[at as int]@,
                    ));
                }
                Ok(self.polls[at].result())
            },
        }
    }

    /// The comments of the poll `poll_id`, in the order in which they were
    /// added.
    pub fn get_comments(&self, poll_id: u64) -> (comments: Result<Vec<Comment>, Error>)
        requires
            self.wf(),
        ensures
            comments_outcome(comments) == self@.get_comments(poll_id),
    {
        match self.find_poll(poll_id) {
            None => Err(Error::NotFound),
            Some(at) => {
                proof {
                    lemma_poll_at(self@, poll_id, at as int);
                }
                Ok(copy_comments(&self.polls[at].comments))
            },
        }
    }

    /// The poll `id` as it is shown.
    pub fn get_poll_result(&self, id: u64) -> (shown: Result<PollResult, Error>)
        requires
            self.wf(),
        ensures
            outcome(shown) == self@.get_poll_result(id),
    {
        match self.find_poll(id) {
            None => Err(Error::NotFound),
            Some(at) => {
                proof {
                    lemma_poll_at(self@, id, at as int);
                }
                Ok(self.polls[at].result())
            },
        }
    }

    /// The whole record of the poll `id`, voters and comments included.
    pub fn get_poll(&self, id: u64) -> (poll: Option<Poll>)
        requires
            self.wf(),
        ensures
            optional(poll) == self@.poll(id),
    {
        match self.find_poll(id) {
            None => None,
            Some(at) => {
                proof {
                    lemma_poll_at(self@, id, at as int);
                }
                Some(self.polls[at].clone())
            },
        }
    }

    /// The category `id` with its identifier.
    pub fn get_category(&self, id: u64) -> (entry: Result<CategoryResult, Error>)
        requires
            self.wf(),
        ensures
            outcome(entry) == self@.get_category(id),
    {
        match self.find_category(id) {
            None => Err(Error::NotFound),
            Some(at) => {
                proof {
                    lemma_category_at(self@, id, at as int);
                }
                Ok(self.categories[at].clone())
            },
        }
    }

    /// Files `category` under the next category identifier and returns it
    /// with that identifier. Only when the identifiers have run out is
    /// nothing filed and nothing returned.
    pub fn add_category(&mut self, category: SimpleInput) -> (entry: Option<CategoryResult>)
        requires
            old(self).wf(),
        ensures
            final(self).wf(),
            final(self)@ == old(self)@.add_category(category@).0,
            optional(entry) == old(self)@.add_category(category@).1,
    {
        if self.category_ids.is_exhausted() {
            return None;
        }
        let id: u64 = self.category_ids.next_id();
        let entry = CategoryResult { category, id };
        self.categories.push(entry.clone());
        proof {
            assert(self@.categories =~= old(self)@.categories.push(entry@));
            assert(self@.polls =~= old(self)@.polls);
            assert(self@.categories.take(old(self)@.categories.len() as int)
                =~= old(self)@.categories);
            lemma_categories_stay(old(self)@, self@);
        }
        Some(entry)
    }

    /// The identifier that the next poll will get.
    pub fn next_poll_id(&self) -> (id: u64)
        ensures
            id == self@.next_poll_id,
    {
        self.poll_ids.peek()
    }

    /// The identifier that the next category will get.
    pub fn next_category_id(&self) -> (id: u64)
        ensures
            id == self@.next_category_id,
    {
        self.category_ids.peek()
    }

    /// Every category with its identifier, in the order of the identifiers.
    pub fn get_categories(&self) -> (all: Vec<CategoryResult>)
        ensures
            category_views(all@) == self@.categories,
    {
        let mut all: Vec<CategoryResult> = Vec::new();
        let mut i: usize = 0;
        while i < self.categories.len()
            invariant
                i <= self.categories.len(),
                all.len() == i,
                forall|j: int| 0 <= j < i ==> all@[j]@ == self.categories@[j]@,
            decreases self.categories.len() - i,
        {
            all.push(self.categories[i].clone());
            i += 1;
        }
        assert(category_views(all@) =~= self@.categories);
        all
    }
}

} // verus!
