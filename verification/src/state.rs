use vstd::prelude::*;

use crate::key::Key;
use crate::keycode::KeyCode;
use crate::mouse::MouseButton;

verus! {

/// True when bit `i` of `m` is set.
pub open spec fn bit_set(m: u64, i: u8) -> bool {
    i < 64 && (m >> (i as u64)) & 1u64 == 1u64
}

/// The set of bit positions set in `m`.
pub open spec fn mask_codes(m: u64) -> Set<u8> {
    Set::new(|i: u8| bit_set(m, i))
}

/// The set of codes carried by the elements of `s`.
pub open spec fn codes_of<K: KeyCode>(s: Seq<K>) -> Set<u8> {
    Set::new(|c: u8| exists|i: int| 0 <= i < s.len() && (#[trigger] s[i].spec_code()) == c)
}

/// The bit positions set in `m` at position `lo` or above, in ascending
/// order.
pub open spec fn code_seq_from(m: u64, lo: int) -> Seq<u8>
    decreases 64 - lo,
{
    if lo < 0 || lo >= 64 {
        Seq::empty()
    } else if bit_set(m, lo as u8) {
        seq![lo as u8] + code_seq_from(m, lo + 1)
    } else {
        code_seq_from(m, lo + 1)
    }
}

/// All bit positions set in `m`, in ascending order.
pub open spec fn code_seq(m: u64) -> Seq<u8> {
    code_seq_from(m, 0)
}

proof fn lemma_zero_bits()
    by (bit_vector)
    ensures
        forall|i: u64| i < 64 ==> (0u64 >> i) & 1u64 == 0u64,
{
}

proof fn lemma_or_bit(m: u64, c: u8, i: u8)
    by (bit_vector)
    requires
        c < 64,
        i < 64,
    ensures
        i == c ==> ((m | (1u64 << (c as u64))) >> (i as u64)) & 1u64 == 1u64,
        i != c ==> ((m | (1u64 << (c as u64))) >> (i as u64)) & 1u64 == (m >> (i as u64)) & 1u64,
{
}

proof fn lemma_andnot_bit(m: u64, c: u8, i: u8)
    by (bit_vector)
    requires
        c < 64,
        i < 64,
    ensures
        i == c ==> ((m & !(1u64 << (c as u64))) >> (i as u64)) & 1u64 == 0u64,
        i != c ==> ((m & !(1u64 << (c as u64))) >> (i as u64)) & 1u64 == (m >> (i as u64)) & 1u64,
{
}

/// The subset test over masks is the test that no bit of `b` is missing from
/// `a`.
proof fn lemma_and_subset_equiv(a: u64, b: u64)
    by (bit_vector)
    ensures
        (a & b == b) <==> (b & !a == 0u64),
{
}

/// Bit `i` of `b & !a` is set exactly when bit `i` is set in `b` but not in
/// `a`.
proof fn lemma_diff_bit(a: u64, b: u64, i: u8)
    by (bit_vector)
    requires
        i < 64,
    ensures
        ((b & !a) >> (i as u64)) & 1u64 == 0u64 && (b >> (i as u64)) & 1u64 == 1u64 ==> (a >> (
        i as u64)) & 1u64 == 1u64,
        ((b & !a) >> (i as u64)) & 1u64 == 1u64 ==> (b >> (i as u64)) & 1u64 == 1u64 && (a >> (
        i as u64)) & 1u64 == 0u64,
{
}

/// Facts about `code_seq_from`: every entry is a set bit at or above `lo`,
/// every set bit at or above `lo` occurs, and the entries are strictly
/// ascending.
proof fn lemma_code_seq_from_props(m: u64, lo: int)
    requires
        0 <= lo,
    ensures
        forall|t: int|
            0 <= t < code_seq_from(m, lo).len() ==> lo <= #[trigger] code_seq_from(m, lo)[t] < 64
                && bit_set(m, code_seq_from(m, lo)[t]),
        forall|c: u8| lo <= c < 64 && bit_set(m, c) ==> code_seq_from(m, lo).contains(c),
        forall|t: int, u: int|
            0 <= t < u < code_seq_from(m, lo).len() ==> code_seq_from(m, lo)[t] < code_seq_from(
                m,
                lo,
            )[u],
    decreases 64 - lo,
{
    if lo >= 64 {
    } else {
        lemma_code_seq_from_props(m, lo + 1);
        let rest = code_seq_from(m, lo + 1);
        assert forall|c: u8| lo <= c < 64 && bit_set(m, c) implies code_seq_from(
            m,
            lo,
        ).contains(c) by {
            if c > lo {
                assert(rest.contains(c));
                let t = choose|t: int| 0 <= t < rest.len() && rest[t] == c;
                if bit_set(m, lo as u8) {
                    assert(code_seq_from(m, lo)[t + 1] == c);
                } else {
                    assert(code_seq_from(m, lo)[t] == c);
                }
            } else {
                assert(c == lo);
                assert(bit_set(m, lo as u8));
                assert(code_seq_from(m, lo)[0] == c);
            }
        }
    }
}

/// If no bit of `m` in `[lo, hi)` is set, the scan may start at `hi` instead
/// of `lo`.
proof fn lemma_code_seq_empty_below(m: u64, lo: int, hi: int)
    requires
        0 <= lo <= hi,
        forall|j: u8| lo <= j < hi ==> !bit_set(m, j),
    ensures
        code_seq_from(m, lo) == code_seq_from(m, hi),
    decreases hi - lo,
{
    if lo < hi {
        if lo < 64 {
            assert(!bit_set(m, lo as u8));
            lemma_code_seq_empty_below(m, lo + 1, hi);
        } else {
            assert(code_seq_from(m, lo) == Seq::<u8>::empty());
            assert(code_seq_from(m, hi) == Seq::<u8>::empty());
        }
    }
}

/// Two masks that agree on every bit at or above `lo` scan identically from
/// `lo`.
proof fn lemma_code_seq_agree(m1: u64, m2: u64, lo: int)
    requires
        0 <= lo,
        forall|i: u8| lo <= i < 64 ==> bit_set(m1, i) == bit_set(m2, i),
    ensures
        code_seq_from(m1, lo) == code_seq_from(m2, lo),
    decreases 64 - lo,
{
    if lo < 64 {
        assert(bit_set(m1, lo as u8) == bit_set(m2, lo as u8));
        lemma_code_seq_agree(m1, m2, lo + 1);
    }
}

/// A set of currently held inputs, stored as one bit per code: bit `i` of
/// the mask is set exactly when the value with code `i` is held.
///
/// `BitState` is a plain value (it is `Copy`); it is not internally
/// synchronized, so an owner that shares one across threads must bring its
/// own synchronization.
#[derive(Copy)]
pub struct BitState<K: KeyCode> {
    mask: u64,
    marker: Ghost<Option<K>>,
}

/// The held-keyboard-keys state.
pub type KeyState = BitState<Key>;

/// The held-mouse-buttons state.
pub type MouseState = BitState<MouseButton>;

impl<K: KeyCode> Clone for BitState<K> {
    fn clone(&self) -> (r: Self)
        ensures
            r == *self,
    {
        *self
    }
}

impl<K: KeyCode> BitState<K> {
    /// Only bits that correspond to valid codes are ever set.
    #[verifier::type_invariant]
    spec fn inv(self) -> bool {
        forall|i: u8| #[trigger] bit_set(self.mask, i) ==> i < K::count()
    }

    /// The model: the set of codes currently held.
    pub closed spec fn pressed(self) -> Set<u8> {
        mask_codes(self.mask)
    }

    /// The held codes in ascending order: exactly what iteration yields.
    pub closed spec fn pressed_seq(self) -> Seq<u8> {
        code_seq(self.mask)
    }

    /// A state with exactly the given values held; duplicates are harmless.
    pub fn with_pressed(values: &[K]) -> (r: Self)
        ensures
            r.pressed() == codes_of(values@),
    {
        let mut state = Self::default();
        assert(values@.take(0) =~= Seq::<K>::empty());
        assert(state.pressed() =~= codes_of(values@.take(0)));
        for idx in 0..values.len()
            invariant
                state.pressed() == codes_of(values@.take(idx as int)),
        {
            state.set_pressed(values[idx]);
            proof {
                lemma_codes_of_step(values@, idx as int);
            }
        }
        proof {
            assert(values@.take(values@.len() as int) =~= values@);
        }
        state
    }

    /// Reads the bit at the value's code.
    pub fn is_pressed(&self, value: K) -> (r: bool)
        ensures
            r == self.pressed().contains(value.spec_code()),
    {
        proof {
            value.lemma_code();
            K::lemma_count_bound();
        }
        let c: u8 = value.code();
        (self.mask >> (c as u64)) & 1u64 == 1u64
    }

    /// Sets the bit at the value's code; a no-op when it is already set.
    pub fn set_pressed(&mut self, value: K)
        ensures
            final(self).pressed() == old(self).pressed().insert(value.spec_code()),
    {
        proof {
            use_type_invariant(&*self);
            value.lemma_code();
            K::lemma_count_bound();
        }
        let c: u8 = value.code();
        let ghost m: u64 = self.mask;
        let ghost m2: u64 = m | (1u64 << (c as u64));
        proof {
            assert forall|i: u8| #[trigger] bit_set(m2, i) implies i < K::count() by {
                if i < 64 {
                    lemma_or_bit(m, c, i);
                    if i != c {
                        assert(bit_set(m, i));
                    }
                }
            }
            assert forall|i: u8| #![trigger mask_codes(m2).contains(i)]
                mask_codes(m2).contains(i) == mask_codes(m).insert(c).contains(i) by {
                if i < 64 {
                    lemma_or_bit(m, c, i);
                }
            }
            assert(mask_codes(m2) =~= mask_codes(m).insert(c));
        }
        self.mask = self.mask | (1u64 << (c as u64));
    }

    /// Clears the bit at the value's code; a no-op when it is already clear.
    pub fn set_released(&mut self, value: K)
        ensures
            final(self).pressed() == old(self).pressed().remove(value.spec_code()),
    {
        proof {
            use_type_invariant(&*self);
            value.lemma_code();
            K::lemma_count_bound();
        }
        let c: u8 = value.code();
        let ghost m: u64 = self.mask;
        let ghost m2: u64 = m & !(1u64 << (c as u64));
        proof {
            assert forall|i: u8| #[trigger] bit_set(m2, i) implies i < K::count() by {
                if i < 64 {
                    lemma_andnot_bit(m, c, i);
                    if i != c {
                        assert(bit_set(m, i));
                    }
                }
            }
            assert forall|i: u8| #![trigger mask_codes(m2).contains(i)]
                mask_codes(m2).contains(i) == mask_codes(m).remove(c).contains(i) by {
                if i < 64 {
                    lemma_andnot_bit(m, c, i);
                }
            }
            assert(mask_codes(m2) =~= mask_codes(m).remove(c));
        }
        self.mask = self.mask & !(1u64 << (c as u64));
    }

    /// The subset test: true exactly when every value held in `other` is
    /// also held in `self`.
    pub fn is_state_held(&self, other: Self) -> (r: bool)
        ensures
            r == other.pressed().subset_of(self.pressed()),
    {
        proof {
            lemma_and_subset_equiv(self.mask, other.mask);
            let d: u64 = other.mask & !self.mask;
            if d == 0 {
                assert forall|c: u8| other.pressed().contains(c) implies self.pressed().contains(
                    c,
                ) by {
                    lemma_diff_bit(self.mask, other.mask, c);
                    lemma_zero_bits();
                }
            } else {
                vstd::std_specs::bits::axiom_u64_trailing_zeros(d);
                let t: u32 = vstd::std_specs::bits::u64_trailing_zeros(d);
                assert(t < 64);
                let c: u8 = t as u8;
                assert((d >> (c as u64)) & 1u64 == (d >> (t as u64)) & 1u64);
                lemma_diff_bit(self.mask, other.mask, c);
                assert(bit_set(other.mask, c));
                assert(!bit_set(self.mask, c));
                assert(other.pressed().contains(c) && !self.pressed().contains(c));
            }
        }
        self.mask & other.mask == other.mask
    }

    /// An iterator over a snapshot of this state, yielding held values in
    /// ascending code order; the state itself is untouched.
    pub fn iter(&self) -> (it: BitIter<K>)
        ensures
            it.remaining() == self.pressed_seq(),
    {
        proof {
            use_type_invariant(&*self);
        }
        BitIter { mask: self.mask, marker: Ghost(None) }
    }

    /// Consuming iteration; the same as [`BitState::iter`] for this `Copy`
    /// type.
    pub fn into_iter(self) -> (it: BitIter<K>)
        ensures
            it.remaining() == self.pressed_seq(),
    {
        proof {
            use_type_invariant(&self);
        }
        BitIter { mask: self.mask, marker: Ghost(None) }
    }
}

impl<K: KeyCode> Default for BitState<K> {
    /// The empty state: nothing is held.
    fn default() -> (r: Self)
        ensures
            r.pressed() == Set::<u8>::empty(),
            r.pressed_seq() == Seq::<u8>::empty(),
    {
        proof {
            lemma_zero_bits();
            assert forall|i: u8| !(#[trigger] bit_set(0u64, i)) by {
                if i < 64 {
                    assert((0u64 >> (i as u64)) & 1u64 == 0u64);
                }
            }
            assert(mask_codes(0u64) =~= Set::<u8>::empty());
            lemma_code_seq_empty_below(0u64, 0, 64);
            assert(code_seq(0u64) == Seq::<u8>::empty());
        }
        BitState { mask: 0u64, marker: Ghost(None) }
    }
}

/// Iterates over a snapshot of a [`BitState`]'s mask: each step clears the
/// lowest set bit of the copy and yields the value with that code.
pub struct BitIter<K: KeyCode> {
    mask: u64,
    marker: Ghost<Option<K>>,
}

impl<K: KeyCode> BitIter<K> {
    /// Only bits that correspond to valid codes are ever set.
    #[verifier::type_invariant]
    spec fn inv(self) -> bool {
        forall|i: u8| #[trigger] bit_set(self.mask, i) ==> i < K::count()
    }

    /// The codes not yet yielded, in the order they will come out.
    pub closed spec fn remaining(self) -> Seq<u8> {
        code_seq(self.mask)
    }

    /// Yields the value with the lowest remaining code, or `None` once the
    /// snapshot is exhausted.
    pub fn next(&mut self) -> (r: Option<K>)
        ensures
            old(self).remaining().len() == 0 ==> r is None && final(self).remaining()
                == old(self).remaining(),
            old(self).remaining().len() > 0 ==> (r matches Some(k) && k.spec_code() == old(
                self,
            ).remaining()[0] && final(self).remaining() == old(self).remaining().skip(1)),
    {
        proof {
            use_type_invariant(&*self);
        }
        if self.mask == 0 {
            proof {
                lemma_zero_bits();
                assert forall|j: u8| !(#[trigger] bit_set(self.mask, j)) by {
                    if j < 64 {
                        assert((0u64 >> (j as u64)) & 1u64 == 0u64);
                    }
                }
                lemma_code_seq_empty_below(self.mask, 0, 64);
            }
            return None;
        }
        let tz: u32 = self.mask.trailing_zeros();
        proof {
            vstd::std_specs::bits::axiom_u64_trailing_zeros(self.mask);
        }
        let c: u8 = tz as u8;
        let ghost m: u64 = self.mask;
        let ghost m2: u64 = m & !(1u64 << (c as u64));
        proof {
            assert((m >> (c as u64)) & 1u64 == (m >> (tz as u64)) & 1u64);
            assert(bit_set(m, c));
            assert(c < K::count());
            assert forall|j: u8| j < c implies !bit_set(m, j) by {
                assert((m >> (j as u64)) & 1u64 == 0u64);
            }
            lemma_code_seq_empty_below(m, 0, c as int);
            assert(code_seq(m) == code_seq_from(m, c as int));
            assert(code_seq_from(m, c as int) == seq![c] + code_seq_from(m, c as int + 1));
            assert(code_seq(m)[0] == c);
            assert(code_seq(m).len() > 0);
            assert forall|i: u8| #[trigger] bit_set(m2, i) implies i < K::count() by {
                if i < 64 {
                    lemma_andnot_bit(m, c, i);
                    if i != c {
                        assert(bit_set(m, i));
                    }
                }
            }
            assert forall|i: u8| (c as int) + 1 <= i < 64 implies bit_set(m2, i) == bit_set(
                m,
                i,
            ) by {
                lemma_andnot_bit(m, c, i);
            }
            lemma_code_seq_agree(m2, m, c as int + 1);
            assert forall|j: u8| 0 <= j < (c as int) + 1 implies !bit_set(m2, j) by {
                lemma_andnot_bit(m, c, j);
            }
            lemma_code_seq_empty_below(m2, 0, c as int + 1);
            assert(code_seq(m2) == code_seq_from(m, c as int + 1));
            assert(code_seq(m).skip(1) =~= code_seq_from(m, c as int + 1));
            K::lemma_from_code(c);
        }
        self.mask = self.mask & !(1u64 << (c as u64));
        K::from_code(c)
    }
}

/// Steps the bookkeeping of [`BitState::with_pressed`]: taking one more
/// element of `s` adds exactly its code to the code set.
proof fn lemma_codes_of_step<K: KeyCode>(s: Seq<K>, n: int)
    requires
        0 <= n < s.len(),
    ensures
        codes_of(s.take(n + 1)) == codes_of(s.take(n)).insert(s[n].spec_code()),
{
    assert forall|c: u8| #![trigger codes_of(s.take(n + 1)).contains(c)]
        codes_of(s.take(n + 1)).contains(c) == codes_of(s.take(n)).insert(
        s[n].spec_code(),
    ).contains(c) by {
        if codes_of(s.take(n + 1)).contains(c) {
            let i = choose|i: int|
                0 <= i < s.take(n + 1).len() && (#[trigger] s.take(n + 1)[i].spec_code()) == c;
            if i < n {
                assert(s.take(n)[i].spec_code() == c);
                assert(codes_of(s.take(n)).contains(c));
            } else {
                assert(s.take(n + 1)[n] == s[n]);
                assert(c == s[n].spec_code());
            }
        }
        if codes_of(s.take(n)).insert(s[n].spec_code()).contains(c) {
            if codes_of(s.take(n)).contains(c) {
                let i = choose|i: int|
                    0 <= i < s.take(n).len() && (#[trigger] s.take(n)[i].spec_code()) == c;
                assert(s.take(n + 1)[i].spec_code() == c);
                assert(codes_of(s.take(n + 1)).contains(c));
            } else {
                assert(c == s[n].spec_code());
                assert(s.take(n + 1)[n].spec_code() == c);
                assert(codes_of(s.take(n + 1)).contains(c));
            }
        }
    }
    assert(codes_of(s.take(n + 1)) =~= codes_of(s.take(n)).insert(s[n].spec_code()));
}

/// Iteration is faithful: the ascending code sequence of a state contains
/// exactly its pressed codes, in strictly ascending order — so iterating a
/// state built by [`BitState::with_pressed`] yields each given value once,
/// lowest code first, with no omissions.
pub proof fn lemma_pressed_seq<K: KeyCode>(s: BitState<K>)
    ensures
        forall|c: u8| #[trigger] s.pressed_seq().contains(c) <==> s.pressed().contains(c),
        forall|t: int, u: int|
            0 <= t < u < s.pressed_seq().len() ==> s.pressed_seq()[t] < s.pressed_seq()[u],
{
    lemma_code_seq_from_props(s.mask, 0);
    assert forall|c: u8| #[trigger] s.pressed_seq().contains(c) <==> s.pressed().contains(c) by {
        if s.pressed_seq().contains(c) {
            let t = choose|t: int|
                0 <= t < code_seq_from(s.mask, 0).len() && code_seq_from(s.mask, 0)[t] == c;
            assert(bit_set(s.mask, c));
        }
        if s.pressed().contains(c) {
            assert(bit_set(s.mask, c));
            assert(code_seq_from(s.mask, 0).contains(c));
        }
    }
}

/// After `set_pressed(k)` the key reads as pressed, and after a subsequent
/// `set_released(k)` it does not, whatever else was held before.
pub proof fn lemma_press_then_release<K: KeyCode>(s: BitState<K>, k: K)
    ensures
        s.pressed().insert(k.spec_code()).contains(k.spec_code()),
        !s.pressed().insert(k.spec_code()).remove(k.spec_code()).contains(k.spec_code()),
{
}

/// Iteration is restartable: any two iterators taken from the same
/// unmodified state carry the same code sequence, so they yield identical
/// runs.
pub proof fn lemma_iter_restartable<K: KeyCode>(s: BitState<K>, it1: BitIter<K>, it2: BitIter<K>)
    requires
        it1.remaining() == s.pressed_seq(),
        it2.remaining() == s.pressed_seq(),
    ensures
        it1.remaining() == it2.remaining(),
{
}

/// The laws of the subset test: every state holds itself, every state holds
/// the empty (default) state, and holding is transitive.
pub proof fn lemma_held_laws<K: KeyCode>(s: BitState<K>, t: BitState<K>, u: BitState<K>)
    ensures
        s.pressed().subset_of(s.pressed()),
        Set::<u8>::empty().subset_of(s.pressed()),
        t.pressed().subset_of(s.pressed()) && u.pressed().subset_of(t.pressed())
            ==> u.pressed().subset_of(s.pressed()),
{
}

} // verus!
