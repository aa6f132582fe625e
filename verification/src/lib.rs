//! Party-one core of a two-party ECDSA threshold-signing service: the typed
//! session store, the authorization gates, and the KeyGen, Sign and Rotate
//! session state machines, with the cryptographic primitives kept behind the
//! round boundaries as opaque serialized artifacts.

pub mod artifact;
pub mod derivation;
pub mod errors;
pub mod ids;
pub mod keygen;
pub mod laws;
pub mod rotate;
pub mod scratch;
pub mod sign;
pub mod store;
pub mod types;
