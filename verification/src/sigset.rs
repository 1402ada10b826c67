//! Sets of signal numbers as plain values.
//!
//! A [`SignalSet`] holds the standard signal numbers `1 ..= 31` in the
//! bits of one machine word, so that membership, insertion and removal
//! are exact, verified operations. It is the library's own model of
//! the OS signal-set object.

use vstd::prelude::*;

use crate::sig::Sig;
use crate::sig::MAX_SIGNAL_NUMBER;

verus! {

/// A set of signal numbers, one bit per number `1 ..= 31`.
#[derive(Clone, Copy, PartialEq, Eq, Structural, Debug)]
pub struct SignalSet {
    bits: u32,
}

impl SignalSet {
    /// Bit 0 is never used: signal numbers start at 1.
    pub closed spec fn wf(self) -> bool {
        self.bits & 1u32 == 0u32
    }

    /// Membership: signal number `n` is in the set.
    pub closed spec fn has(self, n: int) -> bool {
        1 <= n <= MAX_SIGNAL_NUMBER as int && (self.bits >> (n as u32)) & 1u32 == 1u32
    }

    /// The set as a mathematical set of signal numbers.
    pub open spec fn to_set(self) -> Set<int> {
        Set::new(|n: int| self.has(n))
    }

    /// The empty set.
    pub fn empty() -> (r: SignalSet)
        ensures
            r.wf(),
            forall|n: int| !r.has(n),
    {
        let r = SignalSet { bits: 0 };
        proof {
            assert(0u32 & 1u32 == 0u32) by (bit_vector);
            assert(forall|k: u32| k < 32 ==> (0u32 >> k) & 1u32 == 0u32) by (bit_vector);
        }
        r
    }

    /// Inserts one signal.
    pub fn add(&mut self, sig: Sig)
        requires
            old(self).wf(),
            sig.valid(),
        ensures
            final(self).wf(),
            final(self).has(sig.spec_number()),
            forall|n: int| n != sig.spec_number() ==> final(self).has(n) == old(self).has(n),
    {
        let sh: u32 = sig.number() as u32;
        let b0 = self.bits;
        self.bits = self.bits | (1u32 << sh);
        proof {
            let b1 = self.bits;
            assert(1 <= sh <= 31);
            assert(b0 & 1u32 == 0u32 && 1 <= sh <= 31 ==> (b0 | (1u32 << sh)) & 1u32 == 0u32)
                by (bit_vector);
            assert(1 <= sh <= 31 ==> ((b0 | (1u32 << sh)) >> sh) & 1u32 == 1u32) by (bit_vector);
            assert(forall|k: u32|
                k < 32 && k != sh && 1 <= sh <= 31 ==> ((b0 | (1u32 << sh)) >> k) & 1u32 == (b0
                    >> k) & 1u32) by (bit_vector);
        }
    }

    /// Removes one signal.
    pub fn remove(&mut self, sig: Sig)
        requires
            old(self).wf(),
            sig.valid(),
        ensures
            final(self).wf(),
            !final(self).has(sig.spec_number()),
            forall|n: int| n != sig.spec_number() ==> final(self).has(n) == old(self).has(n),
    {
        let sh: u32 = sig.number() as u32;
        let b0 = self.bits;
        self.bits = self.bits & !(1u32 << sh);
        proof {
            assert(b0 & 1u32 == 0u32 && 1 <= sh <= 31 ==> (b0 & !(1u32 << sh)) & 1u32 == 0u32)
                by (bit_vector);
            assert(1 <= sh <= 31 ==> ((b0 & !(1u32 << sh)) >> sh) & 1u32 == 0u32) by (bit_vector);
            assert(forall|k: u32|
                k < 32 && k != sh && 1 <= sh <= 31 ==> ((b0 & !(1u32 << sh)) >> k) & 1u32 == (b0
                    >> k) & 1u32) by (bit_vector);
        }
    }

    /// Membership test.
    pub fn contains(&self, sig: Sig) -> (r: bool)
        requires
            sig.valid(),
        ensures
            r == self.has(sig.spec_number()),
    {
        let sh: u32 = sig.number() as u32;
        (self.bits >> sh) & 1u32 == 1u32
    }

    /// Membership test by raw signal number; false outside the valid
    /// range.
    pub fn contains_number(&self, number: i32) -> (r: bool)
        ensures
            r == self.has(number as int),
    {
        if 1 <= number && number <= MAX_SIGNAL_NUMBER {
            (self.bits >> (number as u32)) & 1u32 == 1u32
        } else {
            false
        }
    }

    /// The set holding exactly the signals of the given slice.
    pub fn from_slice(signals: &[Sig]) -> (r: SignalSet)
        requires
            forall|i: int| 0 <= i < signals@.len() ==> signals@[i].valid(),
        ensures
            r.wf(),
            forall|n: int|
                r.has(n) <==> exists|i: int|
                    0 <= i < signals@.len() && #[trigger] signals@[i].spec_number() == n,
    {
        let mut r = SignalSet::empty();
        let mut j: usize = 0;
        while j < signals.len()
            invariant
                j <= signals@.len(),
                forall|i: int| 0 <= i < signals@.len() ==> signals@[i].valid(),
                r.wf(),
                forall|n: int|
                    r.has(n) <==> exists|i: int|
                        0 <= i < j && #[trigger] signals@[i].spec_number() == n,
            decreases signals@.len() - j,
        {
            r.add(signals[j]);
            j = j + 1;
        }
        r
    }

    /// The members of the set, in increasing order of signal number.
    pub fn members(&self) -> (r: Vec<Sig>)
        ensures
            forall|i: int|
                0 <= i < r@.len() ==> #[trigger] r@[i].valid() && self.has(r@[i].spec_number()),
            forall|n: int|
                self.has(n) ==> exists|i: int| 0 <= i < r@.len() && #[trigger] r@[i].spec_number()
                    == n,
            forall|i: int, k: int|
                0 <= i < k < r@.len() ==> r@[i].spec_number() < r@[k].spec_number(),
    {
        let mut r: Vec<Sig> = Vec::new();
        let mut number: i32 = 1;
        while number <= MAX_SIGNAL_NUMBER
            invariant
                1 <= number <= MAX_SIGNAL_NUMBER + 1,
                forall|i: int|
                    0 <= i < r@.len() ==> #[trigger] r@[i].valid() && self.has(
                        r@[i].spec_number(),
                    ),
                forall|n: int| self.has(n) && n < number ==> exists|i: int|
                    0 <= i < r@.len() && #[trigger] r@[i].spec_number() == n,
                forall|i: int, k: int|
                    0 <= i < k < r@.len() ==> r@[i].spec_number() < r@[k].spec_number(),
                forall|i: int| 0 <= i < r@.len() ==> #[trigger] r@[i].spec_number() < number,
            decreases MAX_SIGNAL_NUMBER - number + 1,
        {
            let ghost r_before = r@;
            match Sig::from_number(number) {
                Some(sig) => {
                    if self.contains(sig) {
                        r.push(sig);
                    }
                },
                None => {},
            }
            proof {
                assert forall|n: int| self.has(n) && n < number + 1 implies exists|i: int|
                    0 <= i < r@.len() && #[trigger] r@[i].spec_number() == n by {
                    if n == number as int {
                        assert(r@[r@.len() - 1].spec_number() == n);
                    } else {
                        let i = choose|i: int|
                            0 <= i < r_before.len() && #[trigger] r_before[i].spec_number() == n;
                        assert(r@[i].spec_number() == n);
                    }
                }
            }
            number = number + 1;
        }
        r
    }
}

} // verus!
