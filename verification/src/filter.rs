//! The filter engine: which polls a search filter accepts.

use crate::identity::same_identity;
use crate::poll::{Poll, PollView};
use crate::text::{text_accepts, text_matches};
use crate::views::optional;
use candid::Principal;
use vstd::prelude::*;

verus! {

/// Up to ten criteria on a poll. A criterion that is absent accepts every
/// poll; a poll passes the filter when it passes every criterion present.
#[derive(Debug, PartialEq, Eq)]
pub struct SearchFilter {
    pub title: Option<String>,
    pub min_votes: Option<i128>,
    pub max_votes: Option<i128>,
    pub created_by: Option<Principal>,
    pub category: Option<u64>,
    pub min_created_at: Option<u64>,
    pub max_created_at: Option<u64>,
    pub expiring_before: Option<u64>,
    pub expiring_after: Option<u64>,
    pub description: Option<String>,
}

/// What a [`SearchFilter`] holds, as mathematical values.
pub struct SearchFilterView {
    pub title: Option<Seq<char>>,
    pub min_votes: Option<i128>,
    pub max_votes: Option<i128>,
    pub created_by: Option<Principal>,
    pub category: Option<u64>,
    pub min_created_at: Option<u64>,
    pub max_created_at: Option<u64>,
    pub expiring_before: Option<u64>,
    pub expiring_after: Option<u64>,
    pub description: Option<Seq<char>>,
}

impl View for SearchFilter {
    type V = SearchFilterView;

    open spec fn view(&self) -> SearchFilterView {
        SearchFilterView {
            title: optional(self.title),
            min_votes: self.min_votes,
            max_votes: self.max_votes,
            created_by: self.created_by,
            category: self.category,
            min_created_at: self.min_created_at,
            max_created_at: self.max_created_at,
            expiring_before: self.expiring_before,
            expiring_after: self.expiring_after,
            description: optional(self.description),
        }
    }
}

impl SearchFilterView {
    /// The filter without any criterion.
    pub open spec fn empty() -> SearchFilterView {
        SearchFilterView {
            title: None,
            min_votes: None,
            max_votes: None,
            created_by: None,
            category: None,
            min_created_at: None,
            max_created_at: None,
            expiring_before: None,
            expiring_after: None,
            description: None,
        }
    }

    /// Whether the filter accepts `poll`: every criterion present must hold.
    /// The two texts are matched word by word, the two ranges on votes and
    /// on the creation time include their ends, the maker and the category
    /// must be the very ones given, and the expiring date must lie strictly
    /// after `expiring_after` and strictly before `expiring_before`.
    pub open spec fn accepts(self, poll: PollView) -> bool {
        &&& self.title matches Some(text) ==> text_accepts(text, poll.title)
        &&& self.min_votes matches Some(least) ==> poll.votes >= least
        &&& self.max_votes matches Some(most) ==> poll.votes <= most
        &&& self.created_by matches Some(maker) ==> poll.created_by == maker
        &&& self.category matches Some(category) ==> poll.category == category
        &&& self.min_created_at matches Some(earliest) ==> poll.created_at >= earliest
        &&& self.max_created_at matches Some(latest) ==> poll.created_at <= latest
        &&& self.expiring_after matches Some(date) ==> poll.expiring_date > date
        &&& self.expiring_before matches Some(date) ==> poll.expiring_date < date
        &&& self.description matches Some(text) ==> text_accepts(text, poll.description)
    }
}

impl Default for SearchFilter {
    /// The filter without any criterion.
    fn default() -> (filter: Self)
        ensures
            filter@ == SearchFilterView::empty(),
    {
        SearchFilter {
            title: None,
            min_votes: None,
            max_votes: None,
            created_by: None,
            category: None,
            min_created_at: None,
            max_created_at: None,
            expiring_before: None,
            expiring_after: None,
            description: None,
        }
    }
}

impl SearchFilter {
    /// Whether the filter accepts `poll`.
    pub fn matches(&self, poll: &Poll) -> (accepted: bool)
        ensures
            accepted == self@.accepts(poll@),
    {
        if let Some(text) = &self.title {
            if !text_matches(text.as_str(), poll.title.as_str()) {
                return false;
            }
        }
        if let Some(least) = self.min_votes {
            if poll.votes < least {
                return false;
            }
        }
        if let Some(most) = self.max_votes {
            if poll.votes > most {
                return false;
            }
        }
        if let Some(maker) = &self.created_by {
            if !same_identity(&poll.created_by, maker) {
                return false;
            }
        }
        if let Some(category) = self.category {
            if poll.category != category {
                return false;
            }
        }
        if let Some(earliest) = self.min_created_at {
            if poll.created_at < earliest {
                return false;
            }
        }
        if let Some(latest) = self.max_created_at {
            if poll.created_at > latest {
                return false;
            }
        }
        if let Some(date) = self.expiring_after {
            if poll.expiring_date <= date {
                return false;
            }
        }
        if let Some(date) = self.expiring_before {
            if poll.expiring_date >= date {
                return false;
            }
        }
        if let Some(text) = &self.description {
            if !text_matches(text.as_str(), poll.description.as_str()) {
                return false;
            }
        }
        true
    }
}

} // verus!
