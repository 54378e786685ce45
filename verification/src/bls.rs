//! Value types for the threshold-signature material a proof carries.
//!
//! Each type holds the canonical byte encoding of one cryptographic value and
//! is built only through validated deserialization, so that every value in
//! existence decodes to a valid group element and verification is total.

use vstd::prelude::*;

verus! {

use bincode::Options;

use crate::ProofError;

/// Number of bytes in the compressed encoding of a public key.
pub const PK_SIZE: usize = 48;

/// Number of bytes in the compressed encoding of a signature or signature share.
pub const SIG_SIZE: usize = 96;

/// Whether `threshold_crypto::PublicKey::from_bytes` accepts a 48-byte string
/// as the compressed encoding of a group element, i.e. the string names a
/// valid public key.
pub uninterp spec fn pk_valid(b: Seq<u8>) -> bool;

/// Whether `threshold_crypto::Signature::from_bytes` accepts a 96-byte string
/// as the compressed encoding of a valid signature.
pub uninterp spec fn sig_valid(b: Seq<u8>) -> bool;

/// Whether `threshold_crypto::SignatureShare::from_bytes` accepts a 96-byte
/// string as the compressed encoding of a valid signature share.
pub uninterp spec fn sig_share_valid(b: Seq<u8>) -> bool;

/// Whether a byte string is exactly the serialized form of a valid
/// `threshold_crypto::PublicKeySet` whose polynomial commitment holds at
/// least one coefficient. The empty commitment has no group public key to
/// read, and trailing bytes would let distinct encodings name one commitment,
/// so both are excluded.
pub uninterp spec fn key_set_valid(b: Seq<u8>) -> bool;

/// Whether a byte string is exactly the serialized form of a valid
/// `threshold_crypto::SecretKeyShare` (a field element); trailing bytes are
/// excluded.
pub uninterp spec fn secret_share_valid(b: Seq<u8>) -> bool;

/// The verdict of `threshold_crypto::PublicKey::verify`: whether `sig` is a
/// valid signature of `msg` under the public key encoded by `pk`. A pure
/// function of its three arguments.
pub uninterp spec fn bls_verifies(pk: Seq<u8>, sig: Seq<u8>, msg: Seq<u8>) -> bool;

/// The verdict of `threshold_crypto::PublicKeyShare::verify` against the
/// `index`-th key share that `threshold_crypto::PublicKeySet::public_key_share`
/// derives from the key set encoded by `key_set`. A pure function of its
/// arguments.
pub uninterp spec fn share_verifies(key_set: Seq<u8>, index: int, sig: Seq<u8>, msg: Seq<u8>) -> bool;

/// The encoding of the signature share that
/// `threshold_crypto::SecretKeyShare::sign` produces for `msg` with the secret
/// key share encoded by `secret`. BLS signing is deterministic, so this is a
/// pure function of its arguments.
pub uninterp spec fn sign_share_of(secret: Seq<u8>, msg: Seq<u8>) -> Seq<u8>;

/// Whether `secret` encodes the secret key share standing at position `index`
/// of the group whose public commitment `key_set` encodes, as the scheme's key
/// distribution hands them out (`SecretKeySet::secret_key_share(index)`
/// together with `SecretKeySet::public_keys()`).
pub uninterp spec fn matching_share(key_set: Seq<u8>, index: int, secret: Seq<u8>) -> bool;

/// The encoding of the group public key that
/// `threshold_crypto::PublicKeySet::public_key` derives from the key set
/// encoded by `key_set` (the commitment's constant coefficient).
pub uninterp spec fn group_key_of(key_set: Seq<u8>) -> Seq<u8>;

/// The diagnostic rendering of a proof share: the group public key encoded by
/// `public_key` as `threshold_crypto::PublicKey`'s debug form renders it,
/// together with `index`, and nothing else.
pub uninterp spec fn share_debug_of(public_key: Seq<u8>, index: int) -> Seq<char>;

/// A well-formed public key encoding: 48 bytes naming a valid group element.
pub open spec fn pk_wf(b: Seq<u8>) -> bool {
    b.len() == PK_SIZE && pk_valid(b)
}

/// A well-formed signature encoding: 96 bytes naming a valid group element.
pub open spec fn sig_wf(b: Seq<u8>) -> bool {
    b.len() == SIG_SIZE && sig_valid(b)
}

/// A well-formed signature-share encoding: 96 bytes naming a valid group element.
pub open spec fn sig_share_wf(b: Seq<u8>) -> bool {
    b.len() == SIG_SIZE && sig_share_valid(b)
}

/// Relies on `threshold_crypto::PublicKey::from_bytes`: it accepts exactly the
/// 48-byte compressed encodings of elements of the key group.
#[verifier::external_body]
pub(crate) fn check_public_key_bytes(b: &[u8]) -> (r: bool)
    ensures
        r == (b@.len() == PK_SIZE && pk_valid(b@)),
{
    match <&[u8; threshold_crypto::PK_SIZE]>::try_from(b) {
        Ok(arr) => threshold_crypto::PublicKey::from_bytes(arr).is_ok(),
        Err(_) => false,
    }
}

/// Relies on `threshold_crypto::Signature::from_bytes`: it accepts exactly the
/// 96-byte compressed encodings of elements of the signature group.
#[verifier::external_body]
pub(crate) fn check_signature_bytes(b: &[u8]) -> (r: bool)
    ensures
        r == (b@.len() == SIG_SIZE && sig_valid(b@)),
{
    match <&[u8; threshold_crypto::SIG_SIZE]>::try_from(b) {
        Ok(arr) => threshold_crypto::Signature::from_bytes(arr).is_ok(),
        Err(_) => false,
    }
}

/// Relies on `threshold_crypto::SignatureShare::from_bytes`: it accepts
/// exactly the 96-byte compressed encodings of valid signature shares.
#[verifier::external_body]
pub(crate) fn check_signature_share_bytes(b: &[u8]) -> (r: bool)
    ensures
        r == (b@.len() == SIG_SIZE && sig_share_valid(b@)),
{
    match <&[u8; threshold_crypto::SIG_SIZE]>::try_from(b) {
        Ok(arr) => threshold_crypto::SignatureShare::from_bytes(arr).is_ok(),
        Err(_) => false,
    }
}

/// Relies on `bincode::DefaultOptions` deserialization (the wire form of
/// `bincode::serialize`, with trailing bytes rejected) for
/// `threshold_crypto::PublicKeySet`, which rejects any byte string that does
/// not decode to a valid polynomial commitment over the key group, and on the
/// encoding's leading eight bytes, which hold the commitment's coefficient
/// count: a commitment with no coefficients has no group public key, so it is
/// rejected here too.
#[verifier::external_body]
pub(crate) fn check_key_set_bytes(b: &[u8]) -> (r: bool)
    ensures
        r == key_set_valid(b@),
{
    if b.len() < 8 || u64::from_le_bytes(<[u8; 8]>::try_from(&b[..8]).unwrap()) < 1 {
        return false;
    }
    bincode::DefaultOptions::new()
        .with_fixint_encoding()
        .deserialize::<threshold_crypto::PublicKeySet>(b)
        .is_ok()
}

/// Relies on `bincode::DefaultOptions` deserialization (the wire form of
/// `bincode::serialize`, with trailing bytes rejected) for
/// `threshold_crypto::SecretKeyShare`, which rejects any byte string that
/// does not decode to a valid field element.
#[verifier::external_body]
pub(crate) fn check_secret_share_bytes(b: &[u8]) -> (r: bool)
    ensures
        r == secret_share_valid(b@),
{
    bincode::DefaultOptions::new()
        .with_fixint_encoding()
        .deserialize::<threshold_crypto::SecretKeyShare>(b)
        .is_ok()
}

/// Relies on `threshold_crypto::PublicKey::verify`: a deterministic pairing
/// check of the signature against the key and the exact message bytes.
#[verifier::external_body]
pub(crate) fn bls_verify(pk: &[u8], sig: &[u8], msg: &[u8]) -> (r: bool)
    requires
        pk_wf(pk@),
        sig_wf(sig@),
    ensures
        r == bls_verifies(pk@, sig@, msg@),
{
    let key = threshold_crypto::PublicKey::from_bytes(<&[u8; threshold_crypto::PK_SIZE]>::try_from(pk).unwrap()).unwrap();
    let s = threshold_crypto::Signature::from_bytes(<&[u8; threshold_crypto::SIG_SIZE]>::try_from(sig).unwrap()).unwrap();
    key.verify(&s, msg)
}

/// Relies on `threshold_crypto::PublicKeySet::public_key_share`, which derives
/// the `index`-th key share (total for any `usize` index), and on
/// `threshold_crypto::PublicKeyShare::verify`, a deterministic pairing check.
#[verifier::external_body]
pub(crate) fn bls_share_verify(key_set: &[u8], index: usize, sig: &[u8], msg: &[u8]) -> (r: bool)
    requires
        key_set_valid(key_set@),
        sig_share_wf(sig@),
    ensures
        r == share_verifies(key_set@, index as int, sig@, msg@),
{
    let set: threshold_crypto::PublicKeySet = bincode::deserialize(key_set).unwrap();
    let share = threshold_crypto::SignatureShare::from_bytes(<&[u8; threshold_crypto::SIG_SIZE]>::try_from(sig).unwrap()).unwrap();
    set.public_key_share(index).verify(&share, msg)
}

/// Relies on `threshold_crypto::SecretKeyShare::sign`: deterministic BLS
/// signing of the message with a secret key share. The crate documents (in the
/// `PublicKeySet::combine_signatures` example) that a share signed with the
/// `index`-th secret key share verifies against the `index`-th public key
/// share of the matching key set, which the last clause records.
#[verifier::external_body]
pub(crate) fn bls_sign_share(secret: &[u8], msg: &[u8]) -> (r: SignatureShare)
    requires
        secret_share_valid(secret@),
    ensures
        r@ == sign_share_of(secret@, msg@),
        (forall|ks: Seq<u8>, i: int| matching_share(ks, i, secret@) ==> share_verifies(ks, i, r@, msg@)),
{
    let share: threshold_crypto::SecretKeyShare = bincode::deserialize(secret).unwrap();
    SignatureShare { bytes: share.sign(msg).to_bytes().to_vec() }
}

/// Relies on `threshold_crypto::PublicKeySet::public_key`, which reads the
/// commitment's constant coefficient — present, since a valid key set holds
/// at least one — and on `threshold_crypto::PublicKey::to_bytes`, whose
/// output `from_bytes` accepts back.
#[verifier::external_body]
pub(crate) fn bls_group_key(key_set: &[u8]) -> (r: PublicKey)
    requires
        key_set_valid(key_set@),
    ensures
        r@ == group_key_of(key_set@),
{
    let set: threshold_crypto::PublicKeySet = bincode::deserialize(key_set).unwrap();
    PublicKey { bytes: set.public_key().to_bytes().to_vec() }
}

/// Relies on `threshold_crypto::PublicKey`'s debug form, a deterministic
/// rendering of the key's bytes. Only the key and the index reach this call,
/// so nothing else can appear in the rendering.
#[verifier::external_body]
pub(crate) fn format_share_debug(pk: &[u8], index: usize) -> (r: String)
    requires
        pk_wf(pk@),
    ensures
        r@ == share_debug_of(pk@, index as int),
{
    let key = threshold_crypto::PublicKey::from_bytes(<&[u8; threshold_crypto::PK_SIZE]>::try_from(pk).unwrap()).unwrap();
    format!("ProofShare {{ public_key: {:?}, index: {}, .. }}", key, index)
}

/// A BLS group public key, held as its canonical compressed encoding.
#[derive(PartialEq, Eq, PartialOrd, Ord, Hash, Debug)]
pub struct PublicKey {
    bytes: Vec<u8>,
}

impl View for PublicKey {
    type V = Seq<u8>;

    closed spec fn view(&self) -> Seq<u8> {
        self.bytes@
    }
}

impl Clone for PublicKey {
    fn clone(&self) -> (r: Self)
        ensures
            r@ == self@,
    {
        proof {
            use_type_invariant(self);
        }
        PublicKey { bytes: vstd::slice::slice_to_vec(self.bytes.as_slice()) }
    }
}

impl PublicKey {
    #[verifier::type_invariant]
    pub open spec fn wf(self) -> bool {
        pk_wf(self@)
    }

    /// Rebuilds a public key from its encoding; fails on anything that does
    /// not name a valid group element.
    pub fn from_bytes(bytes: Vec<u8>) -> (r: Result<PublicKey, ProofError>)
        ensures
            pk_wf(bytes@) ==> (r matches Ok(k) && k@ == bytes@),
            !pk_wf(bytes@) ==> (r matches Err(e) && e == ProofError::MalformedKeyMaterial),
    {
        if check_public_key_bytes(bytes.as_slice()) {
            Ok(PublicKey { bytes })
        } else {
            Err(ProofError::MalformedKeyMaterial)
        }
    }

    /// The key's canonical encoding.
    pub fn as_bytes(&self) -> (r: &[u8])
        ensures
            r@ == self@,
    {
        self.bytes.as_slice()
    }

    /// The key's canonical encoding, as an owned buffer.
    pub fn to_bytes(&self) -> (r: Vec<u8>)
        ensures
            r@ == self@,
    {
        vstd::slice::slice_to_vec(self.bytes.as_slice())
    }
}

/// An aggregated BLS signature, held as its canonical compressed encoding.
#[derive(PartialEq, Eq, PartialOrd, Ord, Hash, Debug)]
pub struct Signature {
    bytes: Vec<u8>,
}

impl View for Signature {
    type V = Seq<u8>;

    closed spec fn view(&self) -> Seq<u8> {
        self.bytes@
    }
}

impl Clone for Signature {
    fn clone(&self) -> (r: Self)
        ensures
            r@ == self@,
    {
        proof {
            use_type_invariant(self);
        }
        Signature { bytes: vstd::slice::slice_to_vec(self.bytes.as_slice()) }
    }
}

impl Signature {
    #[verifier::type_invariant]
    pub open spec fn wf(self) -> bool {
        sig_wf(self@)
    }

    /// Rebuilds a signature from its encoding; fails on anything that does not
    /// name a valid group element.
    pub fn from_bytes(bytes: Vec<u8>) -> (r: Result<Signature, ProofError>)
        ensures
            sig_wf(bytes@) ==> (r matches Ok(s) && s@ == bytes@),
            !sig_wf(bytes@) ==> (r matches Err(e) && e == ProofError::MalformedKeyMaterial),
    {
        if check_signature_bytes(bytes.as_slice()) {
            Ok(Signature { bytes })
        } else {
            Err(ProofError::MalformedKeyMaterial)
        }
    }

    /// The signature's canonical encoding.
    pub fn as_bytes(&self) -> (r: &[u8])
        ensures
            r@ == self@,
    {
        self.bytes.as_slice()
    }

    /// The signature's canonical encoding, as an owned buffer.
    pub fn to_bytes(&self) -> (r: Vec<u8>)
        ensures
            r@ == self@,
    {
        vstd::slice::slice_to_vec(self.bytes.as_slice())
    }
}

/// One member's partial BLS signature, held as its canonical compressed encoding.
#[derive(PartialEq, Eq, PartialOrd, Ord, Hash, Debug)]
pub struct SignatureShare {
    bytes: Vec<u8>,
}

impl View for SignatureShare {
    type V = Seq<u8>;

    closed spec fn view(&self) -> Seq<u8> {
        self.bytes@
    }
}

impl Clone for SignatureShare {
    fn clone(&self) -> (r: Self)
        ensures
            r@ == self@,
    {
        proof {
            use_type_invariant(self);
        }
        SignatureShare { bytes: vstd::slice::slice_to_vec(self.bytes.as_slice()) }
    }
}

impl SignatureShare {
    #[verifier::type_invariant]
    pub open spec fn wf(self) -> bool {
        sig_share_wf(self@)
    }

    /// Rebuilds a signature share from its encoding; fails on anything that
    /// does not name a valid group element.
    pub fn from_bytes(bytes: Vec<u8>) -> (r: Result<SignatureShare, ProofError>)
        ensures
            sig_share_wf(bytes@) ==> (r matches Ok(s) && s@ == bytes@),
            !sig_share_wf(bytes@) ==> (r matches Err(e) && e == ProofError::MalformedKeyMaterial),
    {
        if check_signature_share_bytes(bytes.as_slice()) {
            Ok(SignatureShare { bytes })
        } else {
            Err(ProofError::MalformedKeyMaterial)
        }
    }

    /// The share's canonical encoding.
    pub fn as_bytes(&self) -> (r: &[u8])
        ensures
            r@ == self@,
    {
        self.bytes.as_slice()
    }

    /// The share's canonical encoding, as an owned buffer.
    pub fn to_bytes(&self) -> (r: Vec<u8>)
        ensures
            r@ == self@,
    {
        vstd::slice::slice_to_vec(self.bytes.as_slice())
    }
}

/// A public-key-set commitment: the group public key together with the
/// derivation of every member's public key share, held as its serialized
/// encoding.
#[derive(PartialEq, Eq, PartialOrd, Ord, Hash, Debug)]
pub struct PublicKeySet {
    bytes: Vec<u8>,
}

impl View for PublicKeySet {
    type V = Seq<u8>;

    closed spec fn view(&self) -> Seq<u8> {
        self.bytes@
    }
}

impl Clone for PublicKeySet {
    fn clone(&self) -> (r: Self)
        ensures
            r@ == self@,
    {
        proof {
            use_type_invariant(self);
        }
        PublicKeySet { bytes: vstd::slice::slice_to_vec(self.bytes.as_slice()) }
    }
}

impl PublicKeySet {
    #[verifier::type_invariant]
    pub open spec fn wf(self) -> bool {
        key_set_valid(self@)
    }

    /// Rebuilds a key set from its encoding; fails on anything that is not
    /// exactly the encoding of a valid commitment with at least one
    /// coefficient.
    pub fn from_bytes(bytes: Vec<u8>) -> (r: Result<PublicKeySet, ProofError>)
        ensures
            key_set_valid(bytes@) ==> (r matches Ok(s) && s@ == bytes@),
            !key_set_valid(bytes@) ==> (r matches Err(e) && e == ProofError::MalformedKeyMaterial),
    {
        if check_key_set_bytes(bytes.as_slice()) {
            Ok(PublicKeySet { bytes })
        } else {
            Err(ProofError::MalformedKeyMaterial)
        }
    }

    /// The group public key this key set commits to.
    pub fn public_key(&self) -> (r: PublicKey)
        ensures
            r@ == group_key_of(self@),
    {
        proof {
            use_type_invariant(&*self);
        }
        bls_group_key(self.bytes.as_slice())
    }

    /// The key set's encoding.
    pub fn as_bytes(&self) -> (r: &[u8])
        ensures
            r@ == self@,
    {
        self.bytes.as_slice()
    }

    /// The key set's encoding, as an owned buffer.
    pub fn to_bytes(&self) -> (r: Vec<u8>)
        ensures
            r@ == self@,
    {
        vstd::slice::slice_to_vec(self.bytes.as_slice())
    }
}

/// One member's secret key share, held as its serialized encoding.
pub struct SecretKeyShare {
    bytes: Vec<u8>,
}

impl View for SecretKeyShare {
    type V = Seq<u8>;

    closed spec fn view(&self) -> Seq<u8> {
        self.bytes@
    }
}

impl Clone for SecretKeyShare {
    fn clone(&self) -> (r: Self)
        ensures
            r@ == self@,
    {
        proof {
            use_type_invariant(self);
        }
        SecretKeyShare { bytes: vstd::slice::slice_to_vec(self.bytes.as_slice()) }
    }
}

impl SecretKeyShare {
    #[verifier::type_invariant]
    pub open spec fn wf(self) -> bool {
        secret_share_valid(self@)
    }

    /// Rebuilds a secret key share from its encoding; fails on anything that
    /// does not name a valid field element.
    pub fn from_bytes(bytes: Vec<u8>) -> (r: Result<SecretKeyShare, ProofError>)
        ensures
            secret_share_valid(bytes@) ==> (r matches Ok(s) && s@ == bytes@),
            !secret_share_valid(bytes@) ==> (r matches Err(e) && e == ProofError::MalformedKeyMaterial),
    {
        if check_secret_share_bytes(bytes.as_slice()) {
            Ok(SecretKeyShare { bytes })
        } else {
            Err(ProofError::MalformedKeyMaterial)
        }
    }

    /// The share's encoding; stays inside the crate so the secret is never
    /// handed out.
    pub(crate) fn as_bytes(&self) -> (r: &[u8])
        ensures
            r@ == self@,
    {
        self.bytes.as_slice()
    }
}

} // verus!
