//! The stable wire encoding of both proof types.
//!
//! A `Proof` is its public key's encoding followed by its signature's, both of
//! fixed size. A `ProofShare` starts with the byte length of the key-set
//! commitment, then the commitment itself, the member index, and the signature
//! share; the two integers travel as eight little-endian bytes each.

use vstd::prelude::*;
use vstd::assert_seqs_equal;

verus! {

use vstd::bytes::{
    lemma_auto_spec_u64_to_from_le_bytes, spec_u64_from_le_bytes, spec_u64_to_le_bytes,
    u64_from_le_bytes, u64_to_le_bytes,
};
use vstd::slice::{slice_index_get, slice_subrange, slice_to_vec};

use crate::bls::{
    key_set_valid, pk_wf, sig_share_wf, sig_wf, PublicKey, PublicKeySet, Signature,
    SignatureShare, PK_SIZE, SIG_SIZE,
};
use crate::quorum::{Proof, ProofShare, ProofShareV, ProofV};
use crate::ProofError;

/// The wire form of a proof: the public key's encoding, then the signature's.
pub open spec fn spec_encode_proof(p: ProofV) -> Seq<u8> {
    p.public_key + p.signature
}

/// A proof's content is well formed when both field encodings are.
pub open spec fn proof_v_wf(p: ProofV) -> bool {
    pk_wf(p.public_key) && sig_wf(p.signature)
}

/// What decoding a proof yields: the two fixed-size fields, provided the
/// length is exact and both decode to valid group elements.
pub open spec fn spec_decode_proof(b: Seq<u8>) -> Result<ProofV, ProofError> {
    if b.len() != PK_SIZE + SIG_SIZE {
        Err(ProofError::MalformedKeyMaterial)
    } else {
        let p = ProofV {
            public_key: b.subrange(0, PK_SIZE as int),
            signature: b.subrange(PK_SIZE as int, (PK_SIZE + SIG_SIZE) as int),
        };
        if proof_v_wf(p) {
            Ok(p)
        } else {
            Err(ProofError::MalformedKeyMaterial)
        }
    }
}

/// The wire form of a share: the key set's byte length, the key set, the
/// member index, and the signature share.
pub open spec fn spec_encode_share(s: ProofShareV) -> Seq<u8> {
    spec_u64_to_le_bytes(s.public_key_set.len() as u64) + s.public_key_set
        + spec_u64_to_le_bytes(s.index as u64) + s.signature_share
}

/// A share's content is well formed when the key set and the signature share
/// encodings are valid and the key set and index fit this platform's sizes.
pub open spec fn share_v_wf(s: ProofShareV) -> bool {
    &&& key_set_valid(s.public_key_set)
    &&& s.public_key_set.len() <= usize::MAX
    &&& 0 <= s.index <= usize::MAX
    &&& sig_share_wf(s.signature_share)
}

/// What decoding a share yields. The recorded key-set length must account for
/// exactly the bytes that the two integers and the signature share leave, the
/// key set and the share must decode to valid values, and the index must fit
/// this platform's index range — the one condition with its own error kind,
/// so that an impossible position is told apart from invalid key material.
pub open spec fn spec_decode_share(b: Seq<u8>) -> Result<ProofShareV, ProofError> {
    if b.len() < 8 + 8 + SIG_SIZE {
        Err(ProofError::MalformedKeyMaterial)
    } else {
        let n = spec_u64_from_le_bytes(b.subrange(0, 8)) as int;
        if n != b.len() - (8 + 8 + SIG_SIZE) {
            Err(ProofError::MalformedKeyMaterial)
        } else {
            let key_set = b.subrange(8, 8 + n);
            let index = spec_u64_from_le_bytes(b.subrange(8 + n, 16 + n));
            let signature_share = b.subrange(16 + n, 16 + n + SIG_SIZE);
            if !(key_set_valid(key_set) && sig_share_wf(signature_share)) {
                Err(ProofError::MalformedKeyMaterial)
            } else if index > usize::MAX {
                Err(ProofError::InvalidIndex)
            } else {
                Ok(ProofShareV { public_key_set: key_set, index: index as int, signature_share })
            }
        }
    }
}

/// Appends every byte of `s` to `out`.
fn push_all(out: &mut Vec<u8>, s: &[u8])
    ensures
        final(out)@ == old(out)@ + s@,
{
    let n = s.len();
    let mut i: usize = 0;
    while i < n
        invariant
            i <= n,
            n == s@.len(),
            out@ == old(out)@ + s@.subrange(0, i as int),
        decreases n - i,
    {
        out.push(*slice_index_get(s, i));
        proof {
            assert_seqs_equal!(
                old(out)@ + s@.subrange(0, i as int + 1)
                    == (old(out)@ + s@.subrange(0, i as int)).push(s@[i as int])
            );
        }
        i = i + 1;
    }
    proof {
        assert_seqs_equal!(s@.subrange(0, s@.len() as int) == s@);
    }
}

impl Proof {
    /// Encodes this proof for the wire: public key first, then signature.
    pub fn encode(&self) -> (r: Vec<u8>)
        ensures
            r@ == spec_encode_proof(self@),
            proof_v_wf(self@),
    {
        proof {
            use_type_invariant(&self.public_key);
            use_type_invariant(&self.signature);
        }
        let mut out = self.public_key.to_bytes();
        push_all(&mut out, self.signature.as_bytes());
        out
    }

    /// Decodes a proof from its wire form; anything that `encode` did not
    /// produce from well-formed fields is rejected as malformed key material.
    pub fn decode(bytes: &[u8]) -> (r: Result<Proof, ProofError>)
        ensures
            (r matches Ok(p) ==> spec_decode_proof(bytes@) == Ok::<ProofV, ProofError>(p@)),
            (r matches Err(e) ==> spec_decode_proof(bytes@) == Err::<ProofV, ProofError>(e)),
    {
        if bytes.len() != PK_SIZE + SIG_SIZE {
            return Err(ProofError::MalformedKeyMaterial);
        }
        let pk_part = slice_subrange(bytes, 0, PK_SIZE);
        let sig_part = slice_subrange(bytes, PK_SIZE, PK_SIZE + SIG_SIZE);
        let public_key = match PublicKey::from_bytes(slice_to_vec(pk_part)) {
            Ok(k) => k,
            Err(e) => {
                return Err(e);
            },
        };
        let signature = match Signature::from_bytes(slice_to_vec(sig_part)) {
            Ok(s) => s,
            Err(e) => {
                return Err(e);
            },
        };
        Ok(Proof { public_key, signature })
    }
}

impl ProofShare {
    /// Encodes this share for the wire: key-set length, key set, index, and
    /// signature share.
    pub fn encode(&self) -> (r: Vec<u8>)
        ensures
            r@ == spec_encode_share(self@),
            share_v_wf(self@),
    {
        proof {
            use_type_invariant(&self.public_key_set);
            use_type_invariant(&self.signature_share);
        }
        let key_set = self.public_key_set.as_bytes();
        let mut out = u64_to_le_bytes(key_set.len() as u64);
        push_all(&mut out, key_set);
        let index_bytes = u64_to_le_bytes(self.index as u64);
        push_all(&mut out, index_bytes.as_slice());
        push_all(&mut out, self.signature_share.as_bytes());
        out
    }

    /// Decodes a share from its wire form. Invalid key or signature material
    /// is rejected as malformed; an index beyond this platform's range is
    /// rejected as an invalid index, a distinct condition.
    pub fn decode(bytes: &[u8]) -> (r: Result<ProofShare, ProofError>)
        ensures
            (r matches Ok(s) ==> spec_decode_share(bytes@) == Ok::<ProofShareV, ProofError>(s@)),
            (r matches Err(e) ==> spec_decode_share(bytes@) == Err::<ProofShareV, ProofError>(e)),
    {
        if bytes.len() < 8 + 8 + SIG_SIZE {
            return Err(ProofError::MalformedKeyMaterial);
        }
        let n64 = u64_from_le_bytes(slice_subrange(bytes, 0, 8));
        let n = bytes.len() - (8 + 8 + SIG_SIZE);
        if n64 != n as u64 {
            return Err(ProofError::MalformedKeyMaterial);
        }
        let key_set_part = slice_subrange(bytes, 8, 8 + n);
        let index_part = slice_subrange(bytes, 8 + n, 16 + n);
        let sig_part = slice_subrange(bytes, 16 + n, 16 + n + SIG_SIZE);
        let public_key_set = match PublicKeySet::from_bytes(slice_to_vec(key_set_part)) {
            Ok(k) => k,
            Err(e) => {
                return Err(e);
            },
        };
        let signature_share = match SignatureShare::from_bytes(slice_to_vec(sig_part)) {
            Ok(s) => s,
            Err(e) => {
                return Err(e);
            },
        };
        let index64 = u64_from_le_bytes(index_part);
        if index64 > usize::MAX as u64 {
            return Err(ProofError::InvalidIndex);
        }
        let index = index64 as usize;
        Ok(ProofShare { public_key_set, index, signature_share })
    }
}

/// Encoding a proof and decoding the result gives the proof back: the wire
/// form loses nothing, for every proof whose fields are well formed.
pub proof fn lemma_proof_codec_round_trip(p: ProofV)
    requires
        proof_v_wf(p),
    ensures
        spec_decode_proof(spec_encode_proof(p)) == Ok::<ProofV, ProofError>(p),
{
    let b = spec_encode_proof(p);
    assert_seqs_equal!(b.subrange(0, PK_SIZE as int) == p.public_key);
    assert_seqs_equal!(b.subrange(PK_SIZE as int, (PK_SIZE + SIG_SIZE) as int) == p.signature);
    assert(spec_decode_proof(b) =~= Ok::<ProofV, ProofError>(p));
}

/// Encoding a share and decoding the result gives the share back: the wire
/// form loses nothing, for every share whose fields are well formed.
pub proof fn lemma_share_codec_round_trip(s: ProofShareV)
    requires
        share_v_wf(s),
    ensures
        spec_decode_share(spec_encode_share(s)) == Ok::<ProofShareV, ProofError>(s),
{
    lemma_auto_spec_u64_to_from_le_bytes();
    let b = spec_encode_share(s);
    let n = s.public_key_set.len() as int;
    assert_seqs_equal!(b.subrange(0, 8) == spec_u64_to_le_bytes(s.public_key_set.len() as u64));
    assert(spec_u64_from_le_bytes(b.subrange(0, 8)) == s.public_key_set.len() as u64);
    assert(b.len() - (8 + 8 + SIG_SIZE) == n);
    assert_seqs_equal!(b.subrange(8, 8 + n) == s.public_key_set);
    assert_seqs_equal!(b.subrange(8 + n, 16 + n) == spec_u64_to_le_bytes(s.index as u64));
    assert(spec_u64_from_le_bytes(b.subrange(8 + n, 16 + n)) == s.index as u64);
    assert_seqs_equal!(b.subrange(16 + n, 16 + n + SIG_SIZE) == s.signature_share);
    assert(spec_decode_share(b) =~= Ok::<ProofShareV, ProofError>(s));
}

} // verus!

