//! Bellare-Micali 1-out-of-2 oblivious transfer over secp256k1, with the
//! protocol state machines and the payload framing verified.

pub mod crypto;
pub mod errors;
pub mod group;
pub mod states;

pub use errors::OtError;
pub use group::{EcPoint, SecretScalar};
pub use states::{CiphertextPair, ReceiverKeys, SenderSetup, SenderTransmit};
