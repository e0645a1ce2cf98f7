use vstd::prelude::*;

verus! {

/// Relies on `String`'s `FromIterator<char>` (through `Iterator::collect`):
/// the string holds the characters in their order.
#[verifier::external_body]
pub(crate) fn string_from_chars(v: &Vec<char>) -> (r: String)
    ensures
        r@ == v@,
{
    v.iter().collect()
}

} // verus!
