//! What holds of the service whatever it is asked, proved of its
//! mathematical state.

use crate::category::{CategoryResultView, SimpleInputView};
use crate::error::Error;
use crate::filter::SearchFilterView;
use crate::model::{
    accepted, lemma_accepted_push, lemma_categories_stay, lemma_category_at, lemma_poll_at,
    lemma_replace_poll, PollStoreView,
};
use crate::poll::{is_valid_vote, CommentView, PollResultView, PollView};
use candid::Principal;
use vstd::prelude::*;

verus! {

/// The position of an existing poll.
proof fn position_of(state: PollStoreView, id: u64) -> (at: int)
    requires
        state.wf(),
        state.has_poll(id),
    ensures
        state.poll_at(id, at),
        state.poll(id) == Some(state.polls[at]),
{
    let at = choose|at: int| state.poll_at(id, at);
    lemma_poll_at(state, id, at);
    at
}

/// A poll put in the place of the one with its identifier is then the poll
/// that the identifier stands for, and the state is as sound as it was.
proof fn replaced_is_found(state: PollStoreView, poll: PollView)
    requires
        state.wf(),
        state.poll(poll.id) matches Some(stored) && stored.category == poll.category,
        poll.wf(),
    ensures
        state.replace_poll(poll).wf(),
        state.replace_poll(poll).poll(poll.id) == Some(poll),
{
    let at = position_of(state, poll.id);
    lemma_replace_poll(state, at, poll);
    let replaced = state.replace_poll(poll);
    assert(replaced.poll_at(poll.id, at));
    lemma_poll_at(replaced, poll.id, at);
}

/// The state of a new service is sound.
pub proof fn law_empty_is_sound()
    ensures
        PollStoreView::empty().wf(),
{
}

/// Filing a category keeps a sound state sound.
pub proof fn law_add_category_keeps_soundness(state: PollStoreView, input: SimpleInputView)
    requires
        state.wf(),
    ensures
        state.add_category(input).0.wf(),
{
    let after = state.add_category(input).0;
    assert(after.categories.take(state.categories.len() as int) =~= state.categories);
    lemma_categories_stay(state, after);
}

/// Creating a poll keeps a sound state sound, as long as the identifiers
/// have not run out and the expiring date is a time that can be told.
pub proof fn law_create_poll_keeps_soundness(
    state: PollStoreView,
    input: SimpleInputView,
    category: u64,
    period: u64,
    now: u64,
    caller: Principal,
)
    requires
        state.wf(),
        state.next_poll_id < u64::MAX,
        now + period <= u64::MAX,
    ensures
        state.create_poll(input, category, period, now, caller).0.wf(),
{
    let after = state.create_poll(input, category, period, now, caller).0;
    assert(after.categories.take(state.categories.len() as int) =~= state.categories);
    lemma_categories_stay(state, after);
}

/// A vote, accepted or not, keeps a sound state sound: nobody is ever listed
/// twice among a poll's voters, and no tally is further from zero than the
/// number of voters.
pub proof fn law_vote_keeps_soundness(
    state: PollStoreView,
    poll_id: u64,
    vote: i8,
    now: u64,
    caller: Principal,
)
    requires
        state.wf(),
    ensures
        state.vote_poll(poll_id, vote, now, caller).0.wf(),
{
    if state.has_poll(poll_id) {
        let at = position_of(state, poll_id);
        if state.polls[at].vote_outcome(vote, now, caller) is Ok {
            replaced_is_found(state, state.polls[at].with_vote(vote, caller));
        }
    }
}

/// A comment keeps a sound state sound.
pub proof fn law_comment_keeps_soundness(
    state: PollStoreView,
    poll_id: u64,
    text: Seq<char>,
    now: u64,
    caller: Principal,
)
    requires
        state.wf(),
    ensures
        state.add_comment(poll_id, text, now, caller).0.wf(),
{
    if state.has_poll(poll_id) {
        let at = position_of(state, poll_id);
        replaced_is_found(
            state,
            state.polls[at].with_comment(
                CommentView { created_at: now, comment: text, author: caller },
            ),
        );
    }
}

/// A category that was filed is found under the identifier it got, which was
/// the next one and which no category had; the next identifier is one more,
/// and every category that existed before is found as before.
pub proof fn law_filed_category_is_found(state: PollStoreView, input: SimpleInputView, other: u64)
    requires
        state.wf(),
        state.next_category_id < u64::MAX,
    ensures
        ({
            let filed = state.add_category(input);
            filed.1 matches Some(entry) && {
                &&& entry.category == input
                &&& entry.id == state.next_category_id
                &&& !state.has_category(entry.id)
                &&& filed.0.get_category(entry.id) == Ok::<CategoryResultView, Error>(entry)
                &&& filed.0.next_category_id == entry.id + 1
                &&& state.has_category(other) ==> filed.0.get_category(other)
                    == state.get_category(other)
                &&& filed.0.polls == state.polls
            }
        }),
{
    let after = state.add_category(input).0;
    law_add_category_keeps_soundness(state, input);
    let at = state.categories.len() as int;
    assert(after.category_at(state.next_category_id, at));
    lemma_category_at(after, state.next_category_id, at);
    if state.has_category(other) {
        let found = choose|found: int| state.category_at(other, found);
        lemma_category_at(state, other, found);
        assert(after.category_at(other, found));
        lemma_category_at(after, other, found);
    }
}

/// A poll created in an existing category starts with a tally of zero, no
/// voters and no comments, and expires `period` after its creation. It gets
/// the identifier that was next, which no poll has yet, and the next one is
/// one more.
pub proof fn law_created_poll_is_fresh(
    state: PollStoreView,
    input: SimpleInputView,
    category: u64,
    period: u64,
    now: u64,
    caller: Principal,
)
    requires
        state.wf(),
        state.has_category(category),
        state.next_poll_id < u64::MAX,
        now + period <= u64::MAX,
    ensures
        ({
            let created = state.create_poll(input, category, period, now, caller);
            created.1 matches Ok(poll) && {
                &&& poll.votes == 0
                &&& poll.voters.len() == 0
                &&& poll.comments.len() == 0
                &&& poll.created_at == now
                &&& poll.expiring_date == poll.created_at + period
                &&& poll.title == input.title
                &&& poll.description == input.description
                &&& poll.category == category
                &&& poll.created_by == caller
                &&& poll.id == state.next_poll_id
                &&& !state.has_poll(poll.id)
                &&& created.0.poll(poll.id) == Some(poll)
                &&& created.0.next_poll_id == poll.id + 1
            }
        }),
{
    let after = state.create_poll(input, category, period, now, caller).0;
    let at = state.polls.len() as int;
    assert(after.poll_at(state.next_poll_id, at));
    law_create_poll_keeps_soundness(state, input, category, period, now, caller);
    lemma_poll_at(after, state.next_poll_id, at);
}

/// Creating a poll in a category that does not exist fails with `NotFound`
/// and changes nothing: no identifier is used up.
pub proof fn law_create_without_category(
    state: PollStoreView,
    input: SimpleInputView,
    category: u64,
    period: u64,
    now: u64,
    caller: Principal,
)
    requires
        !state.has_category(category),
    ensures
        state.create_poll(input, category, period, now, caller).1 == Err::<PollView, Error>(
            Error::NotFound,
        ),
        state.create_poll(input, category, period, now, caller).0 == state,
{
}

/// Identifiers are never issued twice: of two polls created one after the
/// other, the later one has the greater identifier, and so has every poll
/// created after a poll that is already there.
pub proof fn law_poll_ids_increase(
    state: PollStoreView,
    first: SimpleInputView,
    second: SimpleInputView,
    category: u64,
    period: u64,
    now: u64,
    later: u64,
    caller: Principal,
)
    requires
        state.wf(),
        state.has_category(category),
        state.next_poll_id + 1 < u64::MAX,
    ensures
        ({
            let one = state.create_poll(first, category, period, now, caller);
            let two = one.0.create_poll(second, category, period, later, caller);
            &&& one.1 matches Ok(a) && two.1 matches Ok(b) && a.id < b.id
            &&& forall|i: int| 0 <= i < state.polls.len() ==> state.polls[i].id < one.1->Ok_0.id
        }),
{
    let one = state.create_poll(first, category, period, now, caller);
    assert(one.0.categories.take(state.categories.len() as int) =~= state.categories);
    lemma_categories_stay(state, one.0);
}

/// Nobody votes twice. After a vote of `caller` was accepted, another vote
/// by `caller` on the same poll is refused and changes nothing; and as long
/// as that second vote is itself -1, 0 or 1 and comes before the poll
/// expires, the refusal is `AlreadyVoted`.
pub proof fn law_second_vote_is_refused(
    state: PollStoreView,
    poll_id: u64,
    first: i8,
    second: i8,
    now: u64,
    later: u64,
    caller: Principal,
)
    requires
        state.wf(),
        state.vote_poll(poll_id, first, now, caller).1 is Ok,
    ensures
        ({
            let after = state.vote_poll(poll_id, first, now, caller).0;
            let again = after.vote_poll(poll_id, second, later, caller);
            &&& again.1 is Err
            &&& again.0 == after
            &&& after.poll(poll_id) matches Some(poll) && poll.voters.contains(caller)
            &&& is_valid_vote(second) && later < after.poll(poll_id)->Some_0.expiring_date
                ==> again.1 == Err::<PollResultView, Error>(Error::AlreadyVoted)
        }),
{
    let at = position_of(state, poll_id);
    let voted = state.polls[at].with_vote(first, caller);
    replaced_is_found(state, voted);
    assert(voted.voters.last() == caller);
}

/// A vote other than -1, 0 and 1 on an existing poll fails with
/// `InvalidVote`, whoever casts it and whenever, and changes nothing.
pub proof fn law_invalid_vote(
    state: PollStoreView,
    poll_id: u64,
    vote: i8,
    now: u64,
    caller: Principal,
)
    requires
        state.has_poll(poll_id),
        !is_valid_vote(vote),
    ensures
        state.vote_poll(poll_id, vote, now, caller).1 == Err::<PollResultView, Error>(
            Error::InvalidVote,
        ),
        state.vote_poll(poll_id, vote, now, caller).0 == state,
{
}

/// A vote of -1, 0 or 1 on an existing poll, by somebody who has not voted
/// on it, succeeds exactly when it comes before the expiring date: at that
/// date and after it the vote fails with `PollExpired` and changes nothing.
/// An accepted vote moves the tally by the vote and adds the caller to the
/// voters.
pub proof fn law_vote_at_the_expiry_boundary(
    state: PollStoreView,
    poll_id: u64,
    vote: i8,
    now: u64,
    caller: Principal,
)
    requires
        state.wf(),
        state.poll(poll_id) matches Some(poll) && !poll.voters.contains(caller),
        is_valid_vote(vote),
    ensures
        ({
            let poll = state.poll(poll_id)->Some_0;
            let result = state.vote_poll(poll_id, vote, now, caller);
            &&& now >= poll.expiring_date ==> result.1 == Err::<PollResultView, Error>(
                Error::PollExpired,
            ) && result.0 == state
            &&& now < poll.expiring_date ==> {
                &&& result.1 matches Ok(shown) && shown.votes == poll.votes + vote
                &&& result.0.poll(poll_id) matches Some(voted) && {
                    &&& voted.votes == poll.votes + vote
                    &&& voted.voters == poll.voters.push(caller)
                    &&& voted.voters.contains(caller)
                    &&& voted.comments == poll.comments
                }
            }
        }),
{
    let at = position_of(state, poll_id);
    let poll = state.polls[at];
    if now < poll.expiring_date {
        let voted = poll.with_vote(vote, caller);
        replaced_is_found(state, voted);
        assert(voted.voters.last() == caller);
    }
}

/// A vote of 0 that is accepted registers the voter and leaves the tally
/// where it was.
pub proof fn law_vote_of_zero(state: PollStoreView, poll_id: u64, now: u64, caller: Principal)
    requires
        state.wf(),
        state.poll(poll_id) matches Some(poll) && !poll.voters.contains(caller) && now
            < poll.expiring_date,
    ensures
        ({
            let poll = state.poll(poll_id)->Some_0;
            let result = state.vote_poll(poll_id, 0, now, caller);
            &&& result.1 matches Ok(shown) && shown.votes == poll.votes
            &&& result.0.poll(poll_id) matches Some(voted) && voted.votes == poll.votes
                && voted.voters.contains(caller)
        }),
{
    law_vote_at_the_expiry_boundary(state, poll_id, 0, now, caller);
}

/// Comments are kept in the order in which they were added: after three
/// comments on a poll, its comments are those it had, then the three in the
/// order of the calls, each with the time and the author that its call gave.
/// If the clock did not run backwards between the calls, their creation
/// times do not decrease.
pub proof fn law_comments_keep_their_order(
    state: PollStoreView,
    poll_id: u64,
    first: CommentView,
    second: CommentView,
    third: CommentView,
)
    requires
        state.wf(),
        state.has_poll(poll_id),
    ensures
        ({
            let one = state.add_comment(poll_id, first.comment, first.created_at, first.author).0;
            let two = one.add_comment(poll_id, second.comment, second.created_at, second.author).0;
            let three = two.add_comment(poll_id, third.comment, third.created_at, third.author).0;
            let before = state.get_comments(poll_id)->Ok_0;
            let after = three.get_comments(poll_id)->Ok_0;
            &&& state.get_comments(poll_id) is Ok
            &&& three.get_comments(poll_id) is Ok
            &&& after == before.push(first).push(second).push(third)
            &&& first.created_at <= second.created_at <= third.created_at ==> {
                let n = before.len() as int;
                after[n].created_at <= after[n + 1].created_at <= after[n + 2].created_at
            }
        }),
{
    let at = position_of(state, poll_id);
    let poll1 = state.polls[at].with_comment(first);
    replaced_is_found(state, poll1);
    let one = state.replace_poll(poll1);
    let poll2 = poll1.with_comment(second);
    replaced_is_found(one, poll2);
    let two = one.replace_poll(poll2);
    let poll3 = poll2.with_comment(third);
    replaced_is_found(two, poll3);
}

/// A comment leaves the ledger as it was: the tally and the voters of a
/// poll change only by an accepted vote, and its expiring date never.
pub proof fn law_comment_leaves_the_ledger(
    state: PollStoreView,
    poll_id: u64,
    text: Seq<char>,
    now: u64,
    caller: Principal,
)
    requires
        state.wf(),
        state.has_poll(poll_id),
    ensures
        ({
            let before = state.poll(poll_id)->Some_0;
            let after = state.add_comment(poll_id, text, now, caller).0.poll(poll_id);
            after matches Some(poll) && poll.votes == before.votes && poll.voters == before.voters
                && poll.expiring_date == before.expiring_date
        }),
{
    let at = position_of(state, poll_id);
    replaced_is_found(
        state,
        state.polls[at].with_comment(
            CommentView { created_at: now, comment: text, author: caller },
        ),
    );
}

/// A filter that accepts each of some polls accepts them all, in their
/// order.
proof fn all_accepted(polls: Seq<PollView>, filter: SearchFilterView)
    requires
        forall|i: int| 0 <= i < polls.len() ==> filter.accepts(polls[i]),
    ensures
        accepted(polls, filter) == polls,
    decreases polls.len(),
{
    if polls.len() == 0 {
        polls.lemma_filter_len(|poll: PollView| filter.accepts(poll));
        assert(accepted(polls, filter) =~= polls);
    } else {
        all_accepted(polls.drop_last(), filter);
        lemma_accepted_push(polls.drop_last(), polls.last(), filter);
        assert(polls.drop_last().push(polls.last()) =~= polls);
    }
}

/// A filter without any criterion accepts every poll, so listing with it
/// gives every poll, in the order of the identifiers.
pub proof fn law_empty_filter_lists_everything(state: PollStoreView)
    ensures
        forall|poll: PollView| SearchFilterView::empty().accepts(poll),
        state.get_polls(SearchFilterView::empty()) == state.polls,
{
    all_accepted(state.polls, SearchFilterView::empty());
}

/// Listing is exact: a poll is listed if and only if it is stored and the
/// filter accepts it, and no more polls are listed than are stored.
pub proof fn law_listing_is_exact(state: PollStoreView, filter: SearchFilterView, poll: PollView)
    ensures
        state.get_polls(filter).contains(poll) <==> state.polls.contains(poll) && filter.accepts(
            poll,
        ),
        state.get_polls(filter).len() <= state.polls.len(),
{
    let pred = |poll: PollView| filter.accepts(poll);
    state.polls.filter_lemma(pred);
    if state.get_polls(filter).contains(poll) {
        state.polls.lemma_filter_contains_rev(pred, poll);
    }
}

} // verus!
