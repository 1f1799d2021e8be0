//! Seeds and the pseudo-random source that they start.

pub mod prng;
pub mod seed;

pub use self::prng::Prng;
pub use self::seed::{Seed, SeedBuffer};
