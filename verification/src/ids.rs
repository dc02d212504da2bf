use vstd::prelude::*;

verus! {

/// A character of the Crockford base-32 alphabet that ULIDs are written in.
pub open spec fn is_crockford(c: char) -> bool {
    ||| '0' <= c <= '9'
    ||| 'A' <= c <= 'H'
    ||| c == 'J' || c == 'K' || c == 'M' || c == 'N'
    ||| 'P' <= c <= 'T'
    ||| 'V' <= c <= 'Z'
}

/// The text form of a ULID: 26 characters of the Crockford alphabet.
pub open spec fn is_ulid_text(s: Seq<char>) -> bool {
    &&& s.len() == 26
    &&& forall|i: int| 0 <= i < s.len() ==> is_crockford(#[trigger] s[i])
}

/// `Ulid::new().to_string()`: a fresh ULID from the clock and a random source.
/// Only its shape is stated; which ULID comes out is left open.
#[verifier::external_body]
pub(crate) fn new_ulid() -> (r: String)
    ensures
        is_ulid_text(r@),
{
    ulid::Ulid::new().to_string()
}

} // verus!
