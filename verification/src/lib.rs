//! Pseudo-random number generators behind one generation interface, with
//! wrappers that buffer, iterate over and whiten their output.

pub mod common;
mod private;
pub mod random;
pub mod buffer;
pub mod crush;
pub mod iter;
pub mod chacha;
pub mod mtwister;
pub mod fiblfg8;
pub mod xorshift32;
pub mod xorshift64;
pub mod xorshift128p;
pub mod xoshiro256ss;
pub mod splitmix64;
pub mod pcg32;
pub mod fiblfsr16;
pub mod lcg;
pub mod collatzweyl;
pub mod wichhill;

pub use buffer::Buffer;
pub use buffer::Buffer32;
pub use buffer::Buffer64;
pub use buffer::Buffer8;
pub use chacha::ChaCha;
pub use collatzweyl::CollatzWeyl128;
pub use collatzweyl::CollatzWeyl128_64;
pub use collatzweyl::CollatzWeyl64;
pub use crush::Accumulator;
pub use crush::Crush;
pub use fiblfg8::dornd;
pub use fiblfg8::FibLFG8;
pub use fiblfsr16::FibLFSR16;
pub use iter::Iter;
pub use mtwister::MTwister;
pub use pcg32::Pcg32;
pub use random::FromRandom;
pub use random::Random;
pub use random::RandomImpl;
pub use splitmix64::SplitMix64;
pub use wichhill::WichHill;
pub use xorshift128p::XorShift128p;
pub use xorshift32::XorShift32;
pub use xorshift64::XorShift64;
pub use xoshiro256ss::XorShift256ss;
