//! The two proof types: a combined quorum proof and a single member's share.

use vstd::prelude::*;

verus! {

use crate::bls::{
    bls_share_verify, bls_sign_share, bls_verify, bls_verifies, format_share_debug, group_key_of,
    matching_share, share_debug_of, share_verifies, sign_share_of, PublicKey, PublicKeySet,
    SecretKeyShare, Signature, SignatureShare,
};

/// The mathematical content of a `Proof`: the encodings of its two fields.
#[verifier::ext_equal]
pub struct ProofV {
    pub public_key: Seq<u8>,
    pub signature: Seq<u8>,
}

/// Proof that a quorum of the group's members has agreed on a payload: the
/// group public key together with the aggregated signature an external
/// combiner built from enough signature shares.
#[derive(PartialEq, Eq, PartialOrd, Ord, Hash, Debug)]
pub struct Proof {
    /// The BLS public key of the whole group.
    pub public_key: PublicKey,
    /// The aggregated BLS signature under that key.
    pub signature: Signature,
}

impl View for Proof {
    type V = ProofV;

    open spec fn view(&self) -> ProofV {
        ProofV { public_key: self.public_key@, signature: self.signature@ }
    }
}

impl Clone for Proof {
    fn clone(&self) -> (r: Self)
        ensures
            r@ == self@,
    {
        Proof { public_key: self.public_key.clone(), signature: self.signature.clone() }
    }
}

impl Proof {
    /// Verifies this proof against the payload: true exactly when the
    /// aggregated signature is valid for these exact bytes under the group
    /// public key. Pure and total; an invalid proof is a plain `false`.
    pub fn verify(&self, payload: &[u8]) -> (r: bool)
        ensures
            r == bls_verifies(self.public_key@, self.signature@, payload@),
    {
        proof {
            use_type_invariant(&self.public_key);
            use_type_invariant(&self.signature);
        }
        bls_verify(self.public_key.as_bytes(), self.signature.as_bytes(), payload)
    }
}

/// The mathematical content of a `ProofShare`: the encodings of its fields.
#[verifier::ext_equal]
pub struct ProofShareV {
    pub public_key_set: Seq<u8>,
    pub index: int,
    pub signature_share: Seq<u8>,
}

/// A single member's share of a `Proof`: the group's public-key-set
/// commitment, the member's index in the group ordering, and that member's
/// partial signature over the payload.
#[derive(PartialEq, Eq, PartialOrd, Ord, Hash)]
pub struct ProofShare {
    /// The BLS public key set of the whole group.
    pub public_key_set: PublicKeySet,
    /// Index of the member that created this share.
    pub index: usize,
    /// BLS signature share matching the `index`-th public key share of the set.
    pub signature_share: SignatureShare,
}

impl View for ProofShare {
    type V = ProofShareV;

    open spec fn view(&self) -> ProofShareV {
        ProofShareV {
            public_key_set: self.public_key_set@,
            index: self.index as int,
            signature_share: self.signature_share@,
        }
    }
}

impl Clone for ProofShare {
    fn clone(&self) -> (r: Self)
        ensures
            r@ == self@,
    {
        ProofShare {
            public_key_set: self.public_key_set.clone(),
            index: self.index,
            signature_share: self.signature_share.clone(),
        }
    }
}

impl ProofShare {
    /// Creates a new proof share by signing the payload with the member's
    /// secret key share. When the secret share is the one standing at `index`
    /// of `public_key_set`, the result verifies against that same payload.
    pub fn new(
        public_key_set: PublicKeySet,
        index: usize,
        secret_key_share: &SecretKeyShare,
        payload: &[u8],
    ) -> (r: ProofShare)
        ensures
            r.public_key_set@ == public_key_set@,
            r.index == index,
            r.signature_share@ == sign_share_of(secret_key_share@, payload@),
            matching_share(public_key_set@, index as int, secret_key_share@)
                ==> share_verifies(public_key_set@, index as int, r.signature_share@, payload@),
    {
        proof {
            use_type_invariant(secret_key_share);
        }
        let signature_share = bls_sign_share(secret_key_share.as_bytes(), payload);
        ProofShare { public_key_set, index, signature_share }
    }

    /// Verifies this share against the payload: true exactly when the
    /// signature share is valid for these exact bytes under the `index`-th
    /// public key share derived from the key set. Pure and total; a mismatched
    /// payload, a wrong index, or a forged share is a plain `false`.
    pub fn verify(&self, payload: &[u8]) -> (r: bool)
        ensures
            r == share_verifies(
                self.public_key_set@,
                self.index as int,
                self.signature_share@,
                payload@,
            ),
    {
        proof {
            use_type_invariant(&self.public_key_set);
            use_type_invariant(&self.signature_share);
        }
        bls_share_verify(
            self.public_key_set.as_bytes(),
            self.index,
            self.signature_share.as_bytes(),
            payload,
        )
    }

    /// A safe-to-log rendering of this share: the group public key and the
    /// index, with the key-set commitment and the signature share left out.
    /// Only those two values are handed to the renderer, so nothing else can
    /// leak into the result.
    pub fn debug_string(&self) -> (r: String)
        ensures
            r@ == share_debug_of(group_key_of(self.public_key_set@), self.index as int),
    {
        let public_key = self.public_key_set.public_key();
        proof {
            use_type_invariant(&public_key);
        }
        format_share_debug(public_key.as_bytes(), self.index)
    }
}

} // verus!
