//! A polling service: categories, polls with one vote per identity, comments,
//! and a filter engine over the stored polls.

pub mod allocator;
pub mod category;
pub mod error;
pub mod filter;
pub mod identity;
pub mod laws;
pub mod model;
pub mod poll;
pub mod store;
pub mod text;
pub mod views;
