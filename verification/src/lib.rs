use vstd::prelude::*;

pub mod bls;
pub mod codec;
pub mod quorum;

pub use bls::{PublicKey, PublicKeySet, SecretKeyShare, Signature, SignatureShare};
pub use quorum::{Proof, ProofShare};

verus! {

/// Why a key, a signature, or a whole proof could not be rebuilt from bytes.
#[derive(Clone, Copy, PartialEq, Eq, Hash, Debug)]
pub enum ProofError {
    /// A key, key-set commitment, or signature did not decode to a valid
    /// element of the underlying pairing groups.
    MalformedKeyMaterial,
    /// A decoded member index does not fit this platform's index range.
    InvalidIndex,
}

} // verus!
