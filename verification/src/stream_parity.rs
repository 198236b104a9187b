//! Streaming parity-augmented checksum calculators: the per-byte recurrence
//! over the companion modulus together with the running XOR of all data
//! bytes, fed incrementally. As with the plain hashers, each records (as
//! ghost state) the bytes it has consumed, and `finalize` is proved to
//! return exactly the one-shot parity-augmented checksum of those bytes.

use vstd::prelude::*;
use crate::model::{checksum_core, checksum_parity, lemma_fold_bytes_concat, lemma_fold_xor_concat,
    xor_core, MODULUS_7P, MODULUS_15P, MODULUS_31P};
use crate::fold::{fold_parity_u32, fold_parity_u64, finish_u32, finish_u64};
use crate::parity::parity8;
use crate::stream::HasherState;

verus! {

/// Incremental 8-bit parity-augmented checksum calculator.
#[derive(Clone)]
pub struct Koopman8P {
    sum: u32,
    psum: u8,
    modulus: u32,
    seed: u8,
    initialized: bool,
    bytes: Ghost<Seq<u8>>,
}

impl View for Koopman8P {
    type V = HasherState;

    closed spec fn view(&self) -> HasherState {
        HasherState { bytes: self.bytes@, seed: self.seed, modulus: self.modulus as int }
    }
}

impl Koopman8P {
    /// The hasher's invariant: the modulus leaves room for the parity bit,
    /// and once at least one byte has been consumed the two accumulators
    /// hold the running sum and the running XOR of exactly the recorded
    /// bytes.
    pub closed spec fn wf(self) -> bool {
        &&& 1 <= self.modulus <= 0x80
        &&& (self.initialized <==> self.bytes@.len() > 0)
        &&& (self.initialized ==> self.sum == checksum_core(
            self.bytes@,
            self.seed,
            self.modulus as int,
        ) && self.sum < 0x10000 && self.psum == xor_core(self.bytes@, self.seed))
    }

    /// Creates a hasher with the recommended companion modulus and seed 0.
    pub fn new() -> (r: Self)
        ensures
            r.wf(),
            r@.bytes == Seq::<u8>::empty(),
            r@.seed == 0,
            r@.modulus == MODULUS_7P as int,
    {
        Koopman8P {
            sum: 0,
            psum: 0,
            modulus: MODULUS_7P,
            seed: 0,
            initialized: false,
            bytes: Ghost(Seq::empty()),
        }
    }

    /// Creates a hasher with a custom modulus, which must be non-zero and
    /// at most 128, and seed 0.
    pub fn with_modulus(modulus: u32) -> (r: Self)
        requires
            1 <= modulus <= 0x80,
        ensures
            r.wf(),
            r@.bytes == Seq::<u8>::empty(),
            r@.seed == 0,
            r@.modulus == modulus as int,
    {
        Koopman8P {
            sum: 0,
            psum: 0,
            modulus,
            seed: 0,
            initialized: false,
            bytes: Ghost(Seq::empty()),
        }
    }

    /// Creates a hasher with the recommended companion modulus and the
    /// given seed.
    pub fn with_seed(seed: u8) -> (r: Self)
        ensures
            r.wf(),
            r@.bytes == Seq::<u8>::empty(),
            r@.seed == seed,
            r@.modulus == MODULUS_7P as int,
    {
        Koopman8P {
            sum: 0,
            psum: 0,
            modulus: MODULUS_7P,
            seed,
            initialized: false,
            bytes: Ghost(Seq::empty()),
        }
    }

    /// Feeds more bytes to the hasher. Feeding a message in any number of
    /// chunks leaves the hasher in the same state as feeding it at once.
    pub fn update(&mut self, data: &[u8])
        requires
            old(self).wf(),
        ensures
            final(self).wf(),
            final(self)@.bytes == old(self)@.bytes + data@,
            final(self)@.seed == old(self)@.seed,
            final(self)@.modulus == old(self)@.modulus,
    {
        if data.len() == 0 {
            proof {
                assert(self.bytes@ + data@ =~= self.bytes@);
            }
            return;
        }
        let ghost prior = self.bytes@;
        let mut start: usize = 0;
        if !self.initialized {
            let first = data[0] ^ self.seed;
            self.sum = first as u32;
            self.psum = first;
            self.initialized = true;
            start = 1;
        }
        let (s, p) = fold_parity_u32(self.sum, self.psum, data, start, self.modulus);
        self.sum = s;
        self.psum = p;
        self.bytes = Ghost(prior + data@);
        proof {
            if prior.len() == 0 {
                assert(prior + data@ =~= data@);
            } else {
                let nb = prior + data@;
                assert(nb[0] == prior[0]);
                assert(nb.skip(1) =~= prior.skip(1) + data@);
                assert(data@.skip(0) =~= data@);
                lemma_fold_bytes_concat(
                    (prior[0] ^ self.seed) as int,
                    prior.skip(1),
                    data@,
                    self.modulus as int,
                );
                lemma_fold_xor_concat(prior[0] ^ self.seed, prior.skip(1), data@);
            }
        }
    }

    /// Applies the finalization shift, packs the parity bit, and returns
    /// the checksum of all bytes fed since construction or the last reset;
    /// 0 if there were none.
    pub fn finalize(self) -> (r: u8)
        requires
            self.wf(),
        ensures
            r == checksum_parity(self@.bytes, self@.seed, self@.modulus, 1),
    {
        if !self.initialized {
            return 0;
        }
        let fin = finish_u32(self.sum, self.modulus, 1);
        (fin as u8) * 2 + parity8(self.psum)
    }

    /// Forgets all bytes fed so far, keeping the seed and the modulus, so
    /// the hasher can be reused as if freshly constructed.
    pub fn reset(&mut self)
        requires
            old(self).wf(),
        ensures
            final(self).wf(),
            final(self)@.bytes == Seq::<u8>::empty(),
            final(self)@.seed == old(self)@.seed,
            final(self)@.modulus == old(self)@.modulus,
    {
        self.sum = 0;
        self.psum = 0;
        self.initialized = false;
        self.bytes = Ghost(Seq::<u8>::empty());
    }
}

impl Default for Koopman8P {
    fn default() -> (r: Self)
        ensures
            r.wf(),
            r@.bytes == Seq::<u8>::empty(),
            r@.seed == 0,
            r@.modulus == MODULUS_7P as int,
    {
        Koopman8P::new()
    }
}

/// Incremental 16-bit parity-augmented checksum calculator.
#[derive(Clone)]
pub struct Koopman16P {
    sum: u32,
    psum: u8,
    modulus: u32,
    seed: u8,
    initialized: bool,
    bytes: Ghost<Seq<u8>>,
}

impl View for Koopman16P {
    type V = HasherState;

    closed spec fn view(&self) -> HasherState {
        HasherState { bytes: self.bytes@, seed: self.seed, modulus: self.modulus as int }
    }
}

impl Koopman16P {
    /// The hasher's invariant: the modulus leaves room for the parity bit,
    /// and once at least one byte has been consumed the two accumulators
    /// hold the running sum and the running XOR of exactly the recorded
    /// bytes.
    pub closed spec fn wf(self) -> bool {
        &&& 1 <= self.modulus <= 0x8000
        &&& (self.initialized <==> self.bytes@.len() > 0)
        &&& (self.initialized ==> self.sum == checksum_core(
            self.bytes@,
            self.seed,
            self.modulus as int,
        ) && self.sum < 0x10000 && self.psum == xor_core(self.bytes@, self.seed))
    }

    /// Creates a hasher with the recommended companion modulus and seed 0.
    pub fn new() -> (r: Self)
        ensures
            r.wf(),
            r@.bytes == Seq::<u8>::empty(),
            r@.seed == 0,
            r@.modulus == MODULUS_15P as int,
    {
        Koopman16P {
            sum: 0,
            psum: 0,
            modulus: MODULUS_15P,
            seed: 0,
            initialized: false,
            bytes: Ghost(Seq::empty()),
        }
    }

    /// Creates a hasher with a custom modulus, which must be non-zero and
    /// at most 32768, and seed 0.
    pub fn with_modulus(modulus: u32) -> (r: Self)
        requires
            1 <= modulus <= 0x8000,
        ensures
            r.wf(),
            r@.bytes == Seq::<u8>::empty(),
            r@.seed == 0,
            r@.modulus == modulus as int,
    {
        Koopman16P {
            sum: 0,
            psum: 0,
            modulus,
            seed: 0,
            initialized: false,
            bytes: Ghost(Seq::empty()),
        }
    }

    /// Creates a hasher with the recommended companion modulus and the
    /// given seed.
    pub fn with_seed(seed: u8) -> (r: Self)
        ensures
            r.wf(),
            r@.bytes == Seq::<u8>::empty(),
            r@.seed == seed,
            r@.modulus == MODULUS_15P as int,
    {
        Koopman16P {
            sum: 0,
            psum: 0,
            modulus: MODULUS_15P,
            seed,
            initialized: false,
            bytes: Ghost(Seq::empty()),
        }
    }

    /// Feeds more bytes to the hasher. Feeding a message in any number of
    /// chunks leaves the hasher in the same state as feeding it at once.
    pub fn update(&mut self, data: &[u8])
        requires
            old(self).wf(),
        ensures
            final(self).wf(),
            final(self)@.bytes == old(self)@.bytes + data@,
            final(self)@.seed == old(self)@.seed,
            final(self)@.modulus == old(self)@.modulus,
    {
        if data.len() == 0 {
            proof {
                assert(self.bytes@ + data@ =~= self.bytes@);
            }
            return;
        }
        let ghost prior = self.bytes@;
        let mut start: usize = 0;
        if !self.initialized {
            let first = data[0] ^ self.seed;
            self.sum = first as u32;
            self.psum = first;
            self.initialized = true;
            start = 1;
        }
        let (s, p) = fold_parity_u32(self.sum, self.psum, data, start, self.modulus);
        self.sum = s;
        self.psum = p;
        self.bytes = Ghost(prior + data@);
        proof {
            if prior.len() == 0 {
                assert(prior + data@ =~= data@);
            } else {
                let nb = prior + data@;
                assert(nb[0] == prior[0]);
                assert(nb.skip(1) =~= prior.skip(1) + data@);
                assert(data@.skip(0) =~= data@);
                lemma_fold_bytes_concat(
                    (prior[0] ^ self.seed) as int,
                    prior.skip(1),
                    data@,
                    self.modulus as int,
                );
                lemma_fold_xor_concat(prior[0] ^ self.seed, prior.skip(1), data@);
            }
        }
    }

    /// Applies the two finalization shifts, packs the parity bit, and
    /// returns the checksum of all bytes fed since construction or the last
    /// reset; 0 if there were none.
    pub fn finalize(self) -> (r: u16)
        requires
            self.wf(),
        ensures
            r == checksum_parity(self@.bytes, self@.seed, self@.modulus, 2),
    {
        if !self.initialized {
            return 0;
        }
        let fin = finish_u32(self.sum, self.modulus, 2);
        (fin as u16) * 2 + parity8(self.psum) as u16
    }

    /// Forgets all bytes fed so far, keeping the seed and the modulus, so
    /// the hasher can be reused as if freshly constructed.
    pub fn reset(&mut self)
        requires
            old(self).wf(),
        ensures
            final(self).wf(),
            final(self)@.bytes == Seq::<u8>::empty(),
            final(self)@.seed == old(self)@.seed,
            final(self)@.modulus == old(self)@.modulus,
    {
        self.sum = 0;
        self.psum = 0;
        self.initialized = false;
        self.bytes = Ghost(Seq::<u8>::empty());
    }
}

impl Default for Koopman16P {
    fn default() -> (r: Self)
        ensures
            r.wf(),
            r@.bytes == Seq::<u8>::empty(),
            r@.seed == 0,
            r@.modulus == MODULUS_15P as int,
    {
        Koopman16P::new()
    }
}

/// Incremental 32-bit parity-augmented checksum calculator.
#[derive(Clone)]
pub struct Koopman32P {
    sum: u64,
    psum: u8,
    modulus: u64,
    seed: u8,
    initialized: bool,
    bytes: Ghost<Seq<u8>>,
}

impl View for Koopman32P {
    type V = HasherState;

    closed spec fn view(&self) -> HasherState {
        HasherState { bytes: self.bytes@, seed: self.seed, modulus: self.modulus as int }
    }
}

impl Koopman32P {
    /// The hasher's invariant: the modulus leaves room for the parity bit,
    /// and once at least one byte has been consumed the two accumulators
    /// hold the running sum and the running XOR of exactly the recorded
    /// bytes.
    pub closed spec fn wf(self) -> bool {
        &&& 1 <= self.modulus <= 0x8000_0000
        &&& (self.initialized <==> self.bytes@.len() > 0)
        &&& (self.initialized ==> self.sum == checksum_core(
            self.bytes@,
            self.seed,
            self.modulus as int,
        ) && self.sum < 0x1_0000_0000 && self.psum == xor_core(self.bytes@, self.seed))
    }

    /// Creates a hasher with the recommended companion modulus and seed 0.
    pub fn new() -> (r: Self)
        ensures
            r.wf(),
            r@.bytes == Seq::<u8>::empty(),
            r@.seed == 0,
            r@.modulus == MODULUS_31P as int,
    {
        Koopman32P {
            sum: 0,
            psum: 0,
            modulus: MODULUS_31P,
            seed: 0,
            initialized: false,
            bytes: Ghost(Seq::empty()),
        }
    }

    /// Creates a hasher with a custom modulus, which must be non-zero and
    /// at most 2^31, and seed 0.
    pub fn with_modulus(modulus: u64) -> (r: Self)
        requires
            1 <= modulus <= 0x8000_0000,
        ensures
            r.wf(),
            r@.bytes == Seq::<u8>::empty(),
            r@.seed == 0,
            r@.modulus == modulus as int,
    {
        Koopman32P {
            sum: 0,
            psum: 0,
            modulus,
            seed: 0,
            initialized: false,
            bytes: Ghost(Seq::empty()),
        }
    }

    /// Creates a hasher with the recommended companion modulus and the
    /// given seed.
    pub fn with_seed(seed: u8) -> (r: Self)
        ensures
            r.wf(),
            r@.bytes == Seq::<u8>::empty(),
            r@.seed == seed,
            r@.modulus == MODULUS_31P as int,
    {
        Koopman32P {
            sum: 0,
            psum: 0,
            modulus: MODULUS_31P,
            seed,
            initialized: false,
            bytes: Ghost(Seq::empty()),
        }
    }

    /// Feeds more bytes to the hasher. Feeding a message in any number of
    /// chunks leaves the hasher in the same state as feeding it at once.
    pub fn update(&mut self, data: &[u8])
        requires
            old(self).wf(),
        ensures
            final(self).wf(),
            final(self)@.bytes == old(self)@.bytes + data@,
            final(self)@.seed == old(self)@.seed,
            final(self)@.modulus == old(self)@.modulus,
    {
        if data.len() == 0 {
            proof {
                assert(self.bytes@ + data@ =~= self.bytes@);
            }
            return;
        }
        let ghost prior = self.bytes@;
        let mut start: usize = 0;
        if !self.initialized {
            let first = data[0] ^ self.seed;
            self.sum = first as u64;
            self.psum = first;
            self.initialized = true;
            start = 1;
        }
        let (s, p) = fold_parity_u64(self.sum, self.psum, data, start, self.modulus);
        self.sum = s;
        self.psum = p;
        self.bytes = Ghost(prior + data@);
        proof {
            if prior.len() == 0 {
                assert(prior + data@ =~= data@);
            } else {
                let nb = prior + data@;
                assert(nb[0] == prior[0]);
                assert(nb.skip(1) =~= prior.skip(1) + data@);
                assert(data@.skip(0) =~= data@);
                lemma_fold_bytes_concat(
                    (prior[0] ^ self.seed) as int,
                    prior.skip(1),
                    data@,
                    self.modulus as int,
                );
                lemma_fold_xor_concat(prior[0] ^ self.seed, prior.skip(1), data@);
            }
        }
    }

    /// Applies the four finalization shifts, packs the parity bit, and
    /// returns the checksum of all bytes fed since construction or the last
    /// reset; 0 if there were none.
    pub fn finalize(self) -> (r: u32)
        requires
            self.wf(),
        ensures
            r == checksum_parity(self@.bytes, self@.seed, self@.modulus, 4),
    {
        if !self.initialized {
            return 0;
        }
        let fin = finish_u64(self.sum, self.modulus, 4);
        (fin as u32) * 2 + parity8(self.psum) as u32
    }

    /// Forgets all bytes fed so far, keeping the seed and the modulus, so
    /// the hasher can be reused as if freshly constructed.
    pub fn reset(&mut self)
        requires
            old(self).wf(),
        ensures
            final(self).wf(),
            final(self)@.bytes == Seq::<u8>::empty(),
            final(self)@.seed == old(self)@.seed,
            final(self)@.modulus == old(self)@.modulus,
    {
        self.sum = 0;
        self.psum = 0;
        self.initialized = false;
        self.bytes = Ghost(Seq::<u8>::empty());
    }
}

impl Default for Koopman32P {
    fn default() -> (r: Self)
        ensures
            r.wf(),
            r@.bytes == Seq::<u8>::empty(),
            r@.seed == 0,
            r@.modulus == MODULUS_31P as int,
    {
        Koopman32P::new()
    }
}

} // verus!
