//! A small library for turning a free-text song query into a safe search
//! URL, extracting video candidates from the field texts scraped off a
//! rendered search results page, and preparing the arguments handed to the
//! external download and conversion tools.

use vstd::prelude::*;

pub mod candidate;
pub mod extract;
pub mod sanitize;
pub mod select;

verus! {

/// Relies on `String: FromIterator<char>`: collecting an iterator of
/// characters yields the string of exactly those characters, in order.
#[verifier::external_body]
pub(crate) fn chars_to_string(v: &Vec<char>) -> (r: String)
    ensures
        r@ == v@,
{
    v.iter().collect()
}

} // verus!
