//! Categories: a title and a description, filed under an identifier.

use vstd::prelude::*;

verus! {

/// A title and a description: what a category is, and what a new poll is
/// made from.
#[derive(Debug, PartialEq, Eq)]
pub struct SimpleInput {
    pub title: String,
    pub description: String,
}

/// What a [`SimpleInput`] holds, as mathematical values.
pub struct SimpleInputView {
    pub title: Seq<char>,
    pub description: Seq<char>,
}

impl View for SimpleInput {
    type V = SimpleInputView;

    open spec fn view(&self) -> SimpleInputView {
        SimpleInputView { title: self.title@, description: self.description@ }
    }
}

impl Clone for SimpleInput {
    fn clone(&self) -> (copy: Self)
        ensures
            copy@ == self@,
    {
        SimpleInput { title: self.title.clone(), description: self.description.clone() }
    }
}

/// A category together with the identifier it was filed under.
#[derive(Debug, PartialEq, Eq)]
pub struct CategoryResult {
    pub category: SimpleInput,
    pub id: u64,
}

/// What a [`CategoryResult`] holds, as mathematical values.
pub struct CategoryResultView {
    pub category: SimpleInputView,
    pub id: u64,
}

impl View for CategoryResult {
    type V = CategoryResultView;

    open spec fn view(&self) -> CategoryResultView {
        CategoryResultView { category: self.category@, id: self.id }
    }
}

impl Clone for CategoryResult {
    fn clone(&self) -> (copy: Self)
        ensures
            copy@ == self@,
    {
        CategoryResult { category: self.category.clone(), id: self.id }
    }
}

} // verus!
