//! Closed integer-coded enumerations: a fixed set of variants, each with its
//! own code, read back from a code with a failure for any other value.

use vstd::prelude::*;

verus! {

/// The error that reading an unknown code gives.
pub const INVALID_CODE: &'static str = "invalid value";

/// An enumeration whose variants stand for distinct integer codes.
pub trait IntCoded: Sized {
    /// The code of a variant.
    spec fn code_spec(self) -> int;

    /// The variant with code `code`, if any.
    spec fn from_code_spec(code: int) -> Option<Self>;

    /// Reading a variant's code gives the variant back.
    proof fn lemma_round_trip(self)
        ensures
            Self::from_code_spec(self.code_spec()) == Some(self),
    ;

    /// A code is read back only as the variant that carries it.
    proof fn lemma_code_of_decoded(code: int)
        ensures
            Self::from_code_spec(code) matches Some(v) ==> v.code_spec() == code,
    ;
}

/// Two variants with the same code are the same variant.
pub proof fn lemma_codes_distinct<T: IntCoded>(a: T, b: T)
    requires
        a.code_spec() == b.code_spec(),
    ensures
        a == b,
{
    a.lemma_round_trip();
    b.lemma_round_trip();
}

} // verus!
