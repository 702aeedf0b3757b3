//! Caller identities.
//!
//! An identity is a `candid::Principal`. The service never looks inside one:
//! it stores identities, hands them back, and compares them.

use candid::Principal;
use vstd::prelude::*;

verus! {

/// `candid::Principal`, taken as a value of which nothing is known but
/// whether it is the same as another.
#[verifier::external_type_specification]
#[verifier::external_body]
pub struct ExPrincipal(Principal);

/// `Principal`'s `==`, which compares the length and every byte: two
/// principals compare equal exactly when they are the same value.
#[verifier::external_body]
pub(crate) fn same_identity(a: &Principal, b: &Principal) -> (same: bool)
    ensures
        same == (*a == *b),
{
    a == b
}

/// Whether `who` occurs in `identities`.
pub fn is_listed(identities: &Vec<Principal>, who: &Principal) -> (listed: bool)
    ensures
        listed == identities@.contains(*who),
{
    let mut i: usize = 0;
    while i < identities.len()
        invariant
            i <= identities.len(),
            forall|j: int| 0 <= j < i ==> identities@[j] != *who,
        decreases identities.len() - i,
    {
        if same_identity(&identities[i], who) {
            return true;
        }
        i += 1;
    }
    false
}

/// A copy of `identities`, element for element.
pub fn copy_identities(identities: &Vec<Principal>) -> (copy: Vec<Principal>)
    ensures
        copy@ == identities@,
{
    let mut copy: Vec<Principal> = Vec::new();
    let mut i: usize = 0;
    while i < identities.len()
        invariant
            i <= identities.len(),
            copy@ == identities@.take(i as int),
        decreases identities.len() - i,
    {
        copy.push(identities[i]);
        i += 1;
        assert(identities@.take(i as int) == identities@.take(i - 1).push(identities@[i - 1]));
    }
    assert(identities@.take(identities.len() as int) == identities@);
    copy
}

} // verus!
