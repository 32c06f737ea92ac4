//! Stochastic sampling over discrete and vector-valued sample spaces.
//!
//! Given a caller-supplied, possibly unnormalized, non-negative weight
//! function over a sample space, the samplers here produce draws whose
//! distribution follows that weight function: exactly for the
//! inverse-transform sampler over an enumerable domain, and asymptotically
//! for the Markov-chain samplers (slice, Metropolis-Hastings, Gibbs).
//! Adapters discard a burn-in prefix or thin a chain to a fixed stride.

pub mod dist;
pub mod domain;
pub mod randvar;
pub mod rng;
pub mod sampler;

pub use randvar::modular;
pub use randvar::{Discrete, Domain, Space};
pub use sampler::Sampler;
