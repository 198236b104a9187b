//! Koopman checksums: modular-arithmetic error-detecting codes over byte
//! sequences, in 8-, 16- and 32-bit widths, with parity-augmented variants,
//! custom moduli, and a streaming update interface whose result is proved
//! bit-identical to the one-shot computation for every chunking of the input.

pub mod model;
pub mod reduce;
mod fold;
pub mod oneshot;
pub mod parity;
pub mod stream;
pub mod stream_parity;
pub mod laws;

pub use model::{MODULUS_8, MODULUS_16, MODULUS_32, MODULUS_7P, MODULUS_15P, MODULUS_31P};
pub use reduce::{fast_mod_65519, fast_mod_4294967291};
pub use oneshot::{
    koopman8, koopman8_with_modulus, koopman16, koopman16_with_modulus, koopman32,
    koopman32_with_modulus, verify8, verify16, verify32,
};
pub use parity::{
    parity8, koopman8p, koopman8p_with_modulus, koopman16p, koopman16p_with_modulus, koopman32p,
    koopman32p_with_modulus, verify8p, verify16p, verify32p,
};
pub use stream::{Koopman8, Koopman16, Koopman32};
pub use stream_parity::{Koopman8P, Koopman16P, Koopman32P};
