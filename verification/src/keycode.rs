use vstd::prelude::*;

verus! {

/// A finite input domain whose values carry dense integer codes
/// `0 .. count()`.
///
/// [`crate::state::BitState`] stores one bit per code, so the whole code
/// space must fit in its 64-bit mask.
pub trait KeyCode: Sized + Copy {
    /// The code of this value.
    spec fn spec_code(self) -> u8;

    /// How many codes the domain has; the valid codes are exactly
    /// `0 .. count()`.
    spec fn count() -> u8;

    /// The value carrying a given code, if the code is in range.
    spec fn spec_from_code(c: u8) -> Option<Self>;

    /// The whole code space fits in a 64-bit mask.
    proof fn lemma_count_bound()
        ensures
            Self::count() <= 64,
    ;

    /// Every value's code is in range, and the code determines the value.
    proof fn lemma_code(self)
        ensures
            self.spec_code() < Self::count(),
            Self::spec_from_code(self.spec_code()) == Some(self),
    ;

    /// Decoding succeeds exactly on in-range codes and inverts `spec_code`.
    proof fn lemma_from_code(c: u8)
        ensures
            c < Self::count() ==> (Self::spec_from_code(c) matches Some(k) && k.spec_code() == c),
            c >= Self::count() ==> Self::spec_from_code(c) is None,
    ;

    /// Returns this value's code.
    fn code(self) -> (c: u8)
        ensures
            c == self.spec_code(),
    ;

    /// Converts a code back into a value; fails exactly on out-of-range
    /// codes.
    fn from_code(c: u8) -> (r: Option<Self>)
        ensures
            r == Self::spec_from_code(c),
    ;
}

} // verus!
