//! Streaming checksum calculators: the same per-byte recurrence as the
//! one-shot functions, fed incrementally. Each hasher records (as ghost
//! state) the bytes it has consumed, `update` appends to that record for
//! any chunking of the input, and `finalize` is proved to return exactly
//! the one-shot checksum of the recorded bytes — so splitting a message at
//! any point, including byte by byte, cannot change the result.

use vstd::prelude::*;
use crate::model::{checksum, checksum_core, lemma_fold_bytes_concat, MODULUS_8, MODULUS_16,
    MODULUS_32};
use crate::fold::{fold_generic_u32, fold_generic_u64, fold_fast16, fold_fast32, finish_u32,
    finish_u64, finish_fast16, finish_fast32};

verus! {

/// The abstract state of a streaming hasher: the bytes fed so far, the
/// seed it was constructed with, and the modulus in use.
pub ghost struct HasherState {
    pub bytes: Seq<u8>,
    pub seed: u8,
    pub modulus: int,
}

/// Incremental 8-bit checksum calculator.
#[derive(Clone)]
pub struct Koopman8 {
    sum: u32,
    modulus: u32,
    seed: u8,
    initialized: bool,
    bytes: Ghost<Seq<u8>>,
}

impl View for Koopman8 {
    type V = HasherState;

    closed spec fn view(&self) -> HasherState {
        HasherState { bytes: self.bytes@, seed: self.seed, modulus: self.modulus as int }
    }
}

impl Koopman8 {
    /// The hasher's invariant: the modulus fits the output width, and once
    /// at least one byte has been consumed the accumulator holds the
    /// pre-finalization running sum of exactly the recorded bytes.
    pub closed spec fn wf(self) -> bool {
        &&& 1 <= self.modulus <= 0x100
        &&& (self.initialized <==> self.bytes@.len() > 0)
        &&& (self.initialized ==> self.sum == checksum_core(
            self.bytes@,
            self.seed,
            self.modulus as int,
        ) && self.sum < 0x10000)
    }

    /// Creates a hasher with the recommended modulus and seed 0.
    pub fn new() -> (r: Self)
        ensures
            r.wf(),
            r@.bytes == Seq::<u8>::empty(),
            r@.seed == 0,
            r@.modulus == MODULUS_8 as int,
    {
        Koopman8 { sum: 0, modulus: MODULUS_8, seed: 0, initialized: false, bytes: Ghost(
            Seq::empty(),
        ) }
    }

    /// Creates a hasher with a custom modulus, which must be non-zero and
    /// at most 256, and seed 0.
    pub fn with_modulus(modulus: u32) -> (r: Self)
        requires
            1 <= modulus <= 0x100,
        ensures
            r.wf(),
            r@.bytes == Seq::<u8>::empty(),
            r@.seed == 0,
            r@.modulus == modulus as int,
    {
        Koopman8 { sum: 0, modulus, seed: 0, initialized: false, bytes: Ghost(Seq::empty()) }
    }

    /// Creates a hasher with the recommended modulus and the given seed.
    pub fn with_seed(seed: u8) -> (r: Self)
        ensures
            r.wf(),
            r@.bytes == Seq::<u8>::empty(),
            r@.seed == seed,
            r@.modulus == MODULUS_8 as int,
    {
        Koopman8 { sum: 0, modulus: MODULUS_8, seed, initialized: false, bytes: Ghost(
            Seq::empty(),
        ) }
    }

    /// Feeds more bytes to the hasher. Feeding a message in any number of
    /// chunks leaves the hasher in the same state as feeding it at once.
    pub fn update(&mut self, data: &[u8])
        requires
            old(self).wf(),
        ensures
            final(self).wf(),
            final(self)@.bytes == old(self)@.bytes + data@,
            final(self)@.seed == old(self)@.seed,
            final(self)@.modulus == old(self)@.modulus,
    {
        if data.len() == 0 {
            proof {
                assert(self.bytes@ + data@ =~= self.bytes@);
            }
            return;
        }
        let ghost prior = self.bytes@;
        let mut start: usize = 0;
        if !self.initialized {
            self.sum = (data[0] ^ self.seed) as u32;
            self.initialized = true;
            start = 1;
        }
        let s = fold_generic_u32(self.sum, data, start, self.modulus);
        self.sum = s;
        self.bytes = Ghost(prior + data@);
        proof {
            if prior.len() == 0 {
                assert(prior + data@ =~= data@);
            } else {
                let nb = prior + data@;
                assert(nb[0] == prior[0]);
                assert(nb.skip(1) =~= prior.skip(1) + data@);
                assert(data@.skip(0) =~= data@);
                lemma_fold_bytes_concat(
                    (prior[0] ^ self.seed) as int,
                    prior.skip(1),
                    data@,
                    self.modulus as int,
                );
            }
        }
    }

    /// Applies the finalization shift and returns the checksum of all bytes
    /// fed since construction or the last reset; 0 if there were none.
    pub fn finalize(self) -> (r: u8)
        requires
            self.wf(),
        ensures
            r == checksum(self@.bytes, self@.seed, self@.modulus, 1),
    {
        if !self.initialized {
            return 0;
        }
        let fin = finish_u32(self.sum, self.modulus, 1);
        fin as u8
    }

    /// Forgets all bytes fed so far, keeping the seed and the modulus, so
    /// the hasher can be reused as if freshly constructed.
    pub fn reset(&mut self)
        requires
            old(self).wf(),
        ensures
            final(self).wf(),
            final(self)@.bytes == Seq::<u8>::empty(),
            final(self)@.seed == old(self)@.seed,
            final(self)@.modulus == old(self)@.modulus,
    {
        self.sum = 0;
        self.initialized = false;
        self.bytes = Ghost(Seq::<u8>::empty());
    }
}

impl Default for Koopman8 {
    fn default() -> (r: Self)
        ensures
            r.wf(),
            r@.bytes == Seq::<u8>::empty(),
            r@.seed == 0,
            r@.modulus == MODULUS_8 as int,
    {
        Koopman8::new()
    }
}

/// Incremental 16-bit checksum calculator. With the recommended modulus the
/// per-byte reduction goes through the fast path, with any other modulus
/// through the generic one; the choice is proved invisible in the result.
#[derive(Clone)]
pub struct Koopman16 {
    sum: u32,
    modulus: u32,
    seed: u8,
    initialized: bool,
    use_fast_mod: bool,
    bytes: Ghost<Seq<u8>>,
}

impl View for Koopman16 {
    type V = HasherState;

    closed spec fn view(&self) -> HasherState {
        HasherState { bytes: self.bytes@, seed: self.seed, modulus: self.modulus as int }
    }
}

impl Koopman16 {
    /// The hasher's invariant: the modulus fits the output width, the fast
    /// path is chosen exactly for the recommended modulus, and once at
    /// least one byte has been consumed the accumulator holds the
    /// pre-finalization running sum of exactly the recorded bytes.
    pub closed spec fn wf(self) -> bool {
        &&& 1 <= self.modulus <= 0x10000
        &&& (self.use_fast_mod <==> self.modulus == MODULUS_16)
        &&& (self.initialized <==> self.bytes@.len() > 0)
        &&& (self.initialized ==> self.sum == checksum_core(
            self.bytes@,
            self.seed,
            self.modulus as int,
        ) && self.sum < 0x10000)
    }

    /// Creates a hasher with the recommended modulus and seed 0.
    pub fn new() -> (r: Self)
        ensures
            r.wf(),
            r@.bytes == Seq::<u8>::empty(),
            r@.seed == 0,
            r@.modulus == MODULUS_16 as int,
    {
        Koopman16 {
            sum: 0,
            modulus: MODULUS_16,
            seed: 0,
            initialized: false,
            use_fast_mod: true,
            bytes: Ghost(Seq::empty()),
        }
    }

    /// Creates a hasher with a custom modulus, which must be non-zero and
    /// at most 65536, and seed 0.
    pub fn with_modulus(modulus: u32) -> (r: Self)
        requires
            1 <= modulus <= 0x10000,
        ensures
            r.wf(),
            r@.bytes == Seq::<u8>::empty(),
            r@.seed == 0,
            r@.modulus == modulus as int,
    {
        Koopman16 {
            sum: 0,
            modulus,
            seed: 0,
            initialized: false,
            use_fast_mod: modulus == MODULUS_16,
            bytes: Ghost(Seq::empty()),
        }
    }

    /// Creates a hasher with the recommended modulus and the given seed.
    pub fn with_seed(seed: u8) -> (r: Self)
        ensures
            r.wf(),
            r@.bytes == Seq::<u8>::empty(),
            r@.seed == seed,
            r@.modulus == MODULUS_16 as int,
    {
        Koopman16 {
            sum: 0,
            modulus: MODULUS_16,
            seed,
            initialized: false,
            use_fast_mod: true,
            bytes: Ghost(Seq::empty()),
        }
    }

    /// Feeds more bytes to the hasher. Feeding a message in any number of
    /// chunks leaves the hasher in the same state as feeding it at once.
    pub fn update(&mut self, data: &[u8])
        requires
            old(self).wf(),
        ensures
            final(self).wf(),
            final(self)@.bytes == old(self)@.bytes + data@,
            final(self)@.seed == old(self)@.seed,
            final(self)@.modulus == old(self)@.modulus,
    {
        if data.len() == 0 {
            proof {
                assert(self.bytes@ + data@ =~= self.bytes@);
            }
            return;
        }
        let ghost prior = self.bytes@;
        let mut start: usize = 0;
        if !self.initialized {
            self.sum = (data[0] ^ self.seed) as u32;
            self.initialized = true;
            start = 1;
        }
        let s = if self.use_fast_mod {
            fold_fast16(self.sum, data, start)
        } else {
            fold_generic_u32(self.sum, data, start, self.modulus)
        };
        self.sum = s;
        self.bytes = Ghost(prior + data@);
        proof {
            if prior.len() == 0 {
                assert(prior + data@ =~= data@);
            } else {
                let nb = prior + data@;
                assert(nb[0] == prior[0]);
                assert(nb.skip(1) =~= prior.skip(1) + data@);
                assert(data@.skip(0) =~= data@);
                lemma_fold_bytes_concat(
                    (prior[0] ^ self.seed) as int,
                    prior.skip(1),
                    data@,
                    self.modulus as int,
                );
            }
        }
    }

    /// Applies the two finalization shifts and returns the checksum of all
    /// bytes fed since construction or the last reset; 0 if there were none.
    pub fn finalize(self) -> (r: u16)
        requires
            self.wf(),
        ensures
            r == checksum(self@.bytes, self@.seed, self@.modulus, 2),
    {
        if !self.initialized {
            return 0;
        }
        let fin = if self.use_fast_mod {
            finish_fast16(self.sum)
        } else {
            finish_u32(self.sum, self.modulus, 2)
        };
        fin as u16
    }

    /// Forgets all bytes fed so far, keeping the seed and the modulus, so
    /// the hasher can be reused as if freshly constructed.
    pub fn reset(&mut self)
        requires
            old(self).wf(),
        ensures
            final(self).wf(),
            final(self)@.bytes == Seq::<u8>::empty(),
            final(self)@.seed == old(self)@.seed,
            final(self)@.modulus == old(self)@.modulus,
    {
        self.sum = 0;
        self.initialized = false;
        self.bytes = Ghost(Seq::<u8>::empty());
    }
}

impl Default for Koopman16 {
    fn default() -> (r: Self)
        ensures
            r.wf(),
            r@.bytes == Seq::<u8>::empty(),
            r@.seed == 0,
            r@.modulus == MODULUS_16 as int,
    {
        Koopman16::new()
    }
}

/// Incremental 32-bit checksum calculator. With the recommended modulus the
/// per-byte reduction goes through the fast path, with any other modulus
/// through the generic one; the choice is proved invisible in the result.
#[derive(Clone)]
pub struct Koopman32 {
    sum: u64,
    modulus: u64,
    seed: u8,
    initialized: bool,
    use_fast_mod: bool,
    bytes: Ghost<Seq<u8>>,
}

impl View for Koopman32 {
    type V = HasherState;

    closed spec fn view(&self) -> HasherState {
        HasherState { bytes: self.bytes@, seed: self.seed, modulus: self.modulus as int }
    }
}

impl Koopman32 {
    /// The hasher's invariant: the modulus fits the output width, the fast
    /// path is chosen exactly for the recommended modulus, and once at
    /// least one byte has been consumed the accumulator holds the
    /// pre-finalization running sum of exactly the recorded bytes.
    pub closed spec fn wf(self) -> bool {
        &&& 1 <= self.modulus <= 0x1_0000_0000
        &&& (self.use_fast_mod <==> self.modulus == MODULUS_32)
        &&& (self.initialized <==> self.bytes@.len() > 0)
        &&& (self.initialized ==> self.sum == checksum_core(
            self.bytes@,
            self.seed,
            self.modulus as int,
        ) && self.sum < 0x1_0000_0000)
    }

    /// Creates a hasher with the recommended modulus and seed 0.
    pub fn new() -> (r: Self)
        ensures
            r.wf(),
            r@.bytes == Seq::<u8>::empty(),
            r@.seed == 0,
            r@.modulus == MODULUS_32 as int,
    {
        Koopman32 {
            sum: 0,
            modulus: MODULUS_32,
            seed: 0,
            initialized: false,
            use_fast_mod: true,
            bytes: Ghost(Seq::empty()),
        }
    }

    /// Creates a hasher with a custom modulus, which must be non-zero and
    /// at most 2^32, and seed 0.
    pub fn with_modulus(modulus: u64) -> (r: Self)
        requires
            1 <= modulus <= 0x1_0000_0000,
        ensures
            r.wf(),
            r@.bytes == Seq::<u8>::empty(),
            r@.seed == 0,
            r@.modulus == modulus as int,
    {
        Koopman32 {
            sum: 0,
            modulus,
            seed: 0,
            initialized: false,
            use_fast_mod: modulus == MODULUS_32,
            bytes: Ghost(Seq::empty()),
        }
    }

    /// Creates a hasher with the recommended modulus and the given seed.
    pub fn with_seed(seed: u8) -> (r: Self)
        ensures
            r.wf(),
            r@.bytes == Seq::<u8>::empty(),
            r@.seed == seed,
            r@.modulus == MODULUS_32 as int,
    {
        Koopman32 {
            sum: 0,
            modulus: MODULUS_32,
            seed,
            initialized: false,
            use_fast_mod: true,
            bytes: Ghost(Seq::empty()),
        }
    }

    /// Feeds more bytes to the hasher. Feeding a message in any number of
    /// chunks leaves the hasher in the same state as feeding it at once.
    pub fn update(&mut self, data: &[u8])
        requires
            old(self).wf(),
        ensures
            final(self).wf(),
            final(self)@.bytes == old(self)@.bytes + data@,
            final(self)@.seed == old(self)@.seed,
            final(self)@.modulus == old(self)@.modulus,
    {
        if data.len() == 0 {
            proof {
                assert(self.bytes@ + data@ =~= self.bytes@);
            }
            return;
        }
        let ghost prior = self.bytes@;
        let mut start: usize = 0;
        if !self.initialized {
            self.sum = (data[0] ^ self.seed) as u64;
            self.initialized = true;
            start = 1;
        }
        let s = if self.use_fast_mod {
            fold_fast32(self.sum, data, start)
        } else {
            fold_generic_u64(self.sum, data, start, self.modulus)
        };
        self.sum = s;
        self.bytes = Ghost(prior + data@);
        proof {
            if prior.len() == 0 {
                assert(prior + data@ =~= data@);
            } else {
                let nb = prior + data@;
                assert(nb[0] == prior[0]);
                assert(nb.skip(1) =~= prior.skip(1) + data@);
                assert(data@.skip(0) =~= data@);
                lemma_fold_bytes_concat(
                    (prior[0] ^ self.seed) as int,
                    prior.skip(1),
                    data@,
                    self.modulus as int,
                );
            }
        }
    }

    /// Applies the four finalization shifts and returns the checksum of all
    /// bytes fed since construction or the last reset; 0 if there were none.
    pub fn finalize(self) -> (r: u32)
        requires
            self.wf(),
        ensures
            r == checksum(self@.bytes, self@.seed, self@.modulus, 4),
    {
        if !self.initialized {
            return 0;
        }
        let fin = if self.use_fast_mod {
            finish_fast32(self.sum)
        } else {
            finish_u64(self.sum, self.modulus, 4)
        };
        fin as u32
    }

    /// Forgets all bytes fed so far, keeping the seed and the modulus, so
    /// the hasher can be reused as if freshly constructed.
    pub fn reset(&mut self)
        requires
            old(self).wf(),
        ensures
            final(self).wf(),
            final(self)@.bytes == Seq::<u8>::empty(),
            final(self)@.seed == old(self)@.seed,
            final(self)@.modulus == old(self)@.modulus,
    {
        self.sum = 0;
        self.initialized = false;
        self.bytes = Ghost(Seq::<u8>::empty());
    }
}

impl Default for Koopman32 {
    fn default() -> (r: Self)
        ensures
            r.wf(),
            r@.bytes == Seq::<u8>::empty(),
            r@.seed == 0,
            r@.modulus == MODULUS_32 as int,
    {
        Koopman32::new()
    }
}

} // verus!
