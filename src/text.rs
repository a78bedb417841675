use vstd::prelude::*;

verus! {

/// Relies on `String::from_iter` over `char`s: the string holds exactly those characters,
/// in order.
#[verifier::external_body]
pub(crate) fn string_of(chars: Vec<char>) -> (r: String)
    ensures
        r@ == chars@,
{
    String::from_iter(chars)
}

} // verus!
