//! The fixed-length values that eltoo messages carry: channel and chain identifiers,
//! transaction ids, public keys, MuSig2 public nonces and partial signatures.
//!
//! A public key, a nonce and a partial signature are held as their serialized bytes. Which
//! byte strings are valid is decided by the secp256k1 library: a value of these types is
//! only ever made from bytes that the library parses, and that is each type's invariant.
use vstd::prelude::*;

use crate::ser::{get_array, put_bytes, read_bytes, reads_as, DecodeError};

verus! {

/// Size of a compressed public key.
pub const PUBLIC_KEY_SIZE: usize = 33;

/// Size of a serialized MuSig2 public nonce.
pub const PUBLIC_NONCE_SIZE: usize = 66;

/// Size of a serialized MuSig2 partial signature.
pub const PARTIAL_SIGNATURE_SIZE: usize = 32;

// ---------------------------------------------------------------------------------------
// What the secp256k1 library accepts
// ---------------------------------------------------------------------------------------

/// Whether `bitcoin::secp256k1::PublicKey::from_slice` accepts these bytes.
pub uninterp spec fn public_key_parses(bytes: Seq<u8>) -> bool;

/// Whether `secp256k1::musig::PublicNonce::from_byte_array` accepts these bytes.
pub uninterp spec fn public_nonce_parses(bytes: Seq<u8>) -> bool;

/// Whether `secp256k1::musig::PartialSignature::from_byte_array` accepts these bytes.
pub uninterp spec fn partial_signature_parses(bytes: Seq<u8>) -> bool;

/// Calls `bitcoin::secp256k1::PublicKey::from_slice` (secp256k1 0.29) on 33 bytes and
/// reports whether it succeeded. The contract claims only that the answer is the library's
/// verdict on these bytes, which depends on them alone.
#[verifier::external_body]
fn public_key_from_slice_is_ok(bytes: &[u8; 33]) -> (r: bool)
    ensures
        r == public_key_parses(bytes@),
{
    bitcoin::secp256k1::PublicKey::from_slice(bytes).is_ok()
}

/// Calls `secp256k1::musig::PublicNonce::from_byte_array` (secp256k1 0.33) and reports
/// whether it succeeded; the answer is the library's verdict on these bytes alone.
#[verifier::external_body]
pub(crate) fn public_nonce_from_byte_array_is_ok(bytes: &[u8; 66]) -> (r: bool)
    ensures
        r == public_nonce_parses(bytes@),
{
    secp256k1::musig::PublicNonce::from_byte_array(bytes).is_ok()
}

/// Calls `secp256k1::musig::PartialSignature::from_byte_array` (secp256k1 0.33) and reports
/// whether it succeeded; the answer is the library's verdict on these bytes alone.
#[verifier::external_body]
pub(crate) fn partial_signature_from_byte_array_is_ok(bytes: &[u8; 32]) -> (r: bool)
    ensures
        r == partial_signature_parses(bytes@),
{
    secp256k1::musig::PartialSignature::from_byte_array(bytes).is_ok()
}

/// The bytes of a public key as they stand on the wire.
pub open spec fn is_public_key(b: Seq<u8>) -> bool {
    b.len() == PUBLIC_KEY_SIZE && public_key_parses(b)
}

/// The bytes of a MuSig2 public nonce as they stand on the wire.
pub open spec fn is_public_nonce(b: Seq<u8>) -> bool {
    b.len() == PUBLIC_NONCE_SIZE && public_nonce_parses(b)
}

/// The bytes of a MuSig2 partial signature as they stand on the wire.
pub open spec fn is_partial_signature(b: Seq<u8>) -> bool {
    b.len() == PARTIAL_SIGNATURE_SIZE && partial_signature_parses(b)
}

// ---------------------------------------------------------------------------------------
// Public keys, nonces, partial signatures
// ---------------------------------------------------------------------------------------

/// A secp256k1 public key, held as its 33-byte compressed serialization.
#[derive(Clone, Copy, Debug, PartialEq, Eq, Hash)]
pub struct PublicKey {
    bytes: [u8; 33],
}

impl PublicKey {
    #[verifier::type_invariant]
    spec fn inv(self) -> bool {
        public_key_parses(self.bytes@)
    }

    /// The key whose compressed serialization is `bytes`, if the secp256k1 library accepts it.
    pub fn from_slice(bytes: &[u8; 33]) -> (r: Option<PublicKey>)
        ensures
            r is Some <==> public_key_parses(bytes@),
            r matches Some(k) ==> k@ == bytes@,
    {
        if public_key_from_slice_is_ok(bytes) {
            Some(PublicKey { bytes: *bytes })
        } else {
            None
        }
    }

    /// The compressed serialization of the key.
    pub fn serialize(&self) -> (r: [u8; 33])
        ensures
            r@ == self@,
            is_public_key(r@),
    {
        proof {
            use_type_invariant(self);
        }
        self.bytes
    }
}

impl View for PublicKey {
    type V = Seq<u8>;

    closed spec fn view(&self) -> Seq<u8> {
        self.bytes@
    }
}

/// A MuSig2 public nonce, held as its 66-byte serialization.
#[derive(Clone, Copy, Debug, PartialEq, Eq, Hash)]
pub struct PublicNonce {
    bytes: [u8; 66],
}

impl PublicNonce {
    #[verifier::type_invariant]
    spec fn inv(self) -> bool {
        public_nonce_parses(self.bytes@)
    }

    /// The nonce serialized as `bytes`, if the secp256k1 library accepts it.
    pub fn from_byte_array(bytes: &[u8; 66]) -> (r: Option<PublicNonce>)
        ensures
            r is Some <==> public_nonce_parses(bytes@),
            r matches Some(n) ==> n@ == bytes@,
    {
        if public_nonce_from_byte_array_is_ok(bytes) {
            Some(PublicNonce { bytes: *bytes })
        } else {
            None
        }
    }

    /// The serialization of the nonce.
    pub fn serialize(&self) -> (r: [u8; 66])
        ensures
            r@ == self@,
            is_public_nonce(r@),
    {
        proof {
            use_type_invariant(self);
        }
        self.bytes
    }
}

impl View for PublicNonce {
    type V = Seq<u8>;

    closed spec fn view(&self) -> Seq<u8> {
        self.bytes@
    }
}

/// A MuSig2 partial signature, held as its 32-byte serialization.
#[derive(Clone, Copy, Debug, PartialEq, Eq, Hash)]
pub struct PartialSignature {
    bytes: [u8; 32],
}

impl PartialSignature {
    #[verifier::type_invariant]
    spec fn inv(self) -> bool {
        partial_signature_parses(self.bytes@)
    }

    /// The partial signature serialized as `bytes`, if the secp256k1 library accepts it.
    pub fn from_byte_array(bytes: &[u8; 32]) -> (r: Option<PartialSignature>)
        ensures
            r is Some <==> partial_signature_parses(bytes@),
            r matches Some(s) ==> s@ == bytes@,
    {
        if partial_signature_from_byte_array_is_ok(bytes) {
            Some(PartialSignature { bytes: *bytes })
        } else {
            None
        }
    }

    /// The serialization of the partial signature.
    pub fn serialize(&self) -> (r: [u8; 32])
        ensures
            r@ == self@,
            is_partial_signature(r@),
    {
        proof {
            use_type_invariant(self);
        }
        self.bytes
    }
}

impl View for PartialSignature {
    type V = Seq<u8>;

    closed spec fn view(&self) -> Seq<u8> {
        self.bytes@
    }
}

// ---------------------------------------------------------------------------------------
// Identifiers
// ---------------------------------------------------------------------------------------

/// A 32-byte channel identifier (temporary or final).
#[derive(Clone, Copy, Debug, PartialEq, Eq, Hash)]
pub struct ChannelId(pub [u8; 32]);

impl View for ChannelId {
    type V = Seq<u8>;

    open spec fn view(&self) -> Seq<u8> {
        self.0@
    }
}

/// The 32-byte genesis block hash that names a chain.
#[derive(Clone, Copy, Debug, PartialEq, Eq, Hash)]
pub struct ChainHash(pub [u8; 32]);

impl View for ChainHash {
    type V = Seq<u8>;

    open spec fn view(&self) -> Seq<u8> {
        self.0@
    }
}

/// A 32-byte transaction id, in the byte order in which it is serialized.
#[derive(Clone, Copy, Debug, PartialEq, Eq, Hash)]
pub struct Txid(pub [u8; 32]);

impl View for Txid {
    type V = Seq<u8>;

    open spec fn view(&self) -> Seq<u8> {
        self.0@
    }
}

/// A transaction output: the id of the transaction and the index of the output in it.
#[derive(Clone, Copy, Debug, PartialEq, Eq, Hash)]
pub struct OutPoint {
    pub txid: Txid,
    pub vout: u32,
}


// ---------------------------------------------------------------------------------------
// Reading and writing
// ---------------------------------------------------------------------------------------

/// Reads a public key off the front of `s`: 33 bytes that the secp256k1 library accepts.
pub open spec fn read_public_key(s: Seq<u8>) -> Result<(Seq<u8>, Seq<u8>), DecodeError> {
    match read_bytes(s, PUBLIC_KEY_SIZE as nat) {
        Err(e) => Err(e),
        Ok((b, r)) => if public_key_parses(b) {
            Ok((b, r))
        } else {
            Err(DecodeError::InvalidValue)
        },
    }
}

/// Reads a MuSig2 public nonce off the front of `s`.
pub open spec fn read_public_nonce(s: Seq<u8>) -> Result<(Seq<u8>, Seq<u8>), DecodeError> {
    match read_bytes(s, PUBLIC_NONCE_SIZE as nat) {
        Err(e) => Err(e),
        Ok((b, r)) => if public_nonce_parses(b) {
            Ok((b, r))
        } else {
            Err(DecodeError::InvalidValue)
        },
    }
}

/// Reads a MuSig2 partial signature off the front of `s`.
pub open spec fn read_partial_signature(s: Seq<u8>) -> Result<(Seq<u8>, Seq<u8>), DecodeError> {
    match read_bytes(s, PARTIAL_SIGNATURE_SIZE as nat) {
        Err(e) => Err(e),
        Ok((b, r)) => if partial_signature_parses(b) {
            Ok((b, r))
        } else {
            Err(DecodeError::InvalidValue)
        },
    }
}

/// Reads 32 bytes off the front of `s` (a channel id, chain hash or txid).
pub open spec fn read_bytes32(s: Seq<u8>) -> Result<(Seq<u8>, Seq<u8>), DecodeError> {
    read_bytes(s, 32)
}

pub proof fn lemma_read_public_key_of(b: Seq<u8>, rest: Seq<u8>)
    requires
        is_public_key(b),
    ensures
        read_public_key(b + rest) == Ok::<(Seq<u8>, Seq<u8>), DecodeError>((b, rest)),
{
    crate::ser::lemma_read_bytes_of(b, rest);
}

pub proof fn lemma_read_public_nonce_of(b: Seq<u8>, rest: Seq<u8>)
    requires
        is_public_nonce(b),
    ensures
        read_public_nonce(b + rest) == Ok::<(Seq<u8>, Seq<u8>), DecodeError>((b, rest)),
{
    crate::ser::lemma_read_bytes_of(b, rest);
}

pub proof fn lemma_read_partial_signature_of(b: Seq<u8>, rest: Seq<u8>)
    requires
        is_partial_signature(b),
    ensures
        read_partial_signature(b + rest) == Ok::<(Seq<u8>, Seq<u8>), DecodeError>((b, rest)),
{
    crate::ser::lemma_read_bytes_of(b, rest);
}

pub proof fn lemma_read_bytes32_of(b: Seq<u8>, rest: Seq<u8>)
    requires
        b.len() == 32,
    ensures
        read_bytes32(b + rest) == Ok::<(Seq<u8>, Seq<u8>), DecodeError>((b, rest)),
{
    crate::ser::lemma_read_bytes_of(b, rest);
}

/// Reads a public key at `pos`.
pub fn get_public_key(buf: &[u8], pos: usize) -> (r: Result<(PublicKey, usize), DecodeError>)
    requires
        pos <= buf@.len(),
    ensures
        reads_as(r, read_public_key(buf@.skip(pos as int)), buf@),
{
    let (b, p) = get_array::<33>(buf, pos)?;
    match PublicKey::from_slice(&b) {
        Some(k) => Ok((k, p)),
        None => Err(DecodeError::InvalidValue),
    }
}

/// Reads a MuSig2 public nonce at `pos`.
pub fn get_public_nonce(buf: &[u8], pos: usize) -> (r: Result<(PublicNonce, usize), DecodeError>)
    requires
        pos <= buf@.len(),
    ensures
        reads_as(r, read_public_nonce(buf@.skip(pos as int)), buf@),
{
    let (b, p) = get_array::<66>(buf, pos)?;
    match PublicNonce::from_byte_array(&b) {
        Some(n) => Ok((n, p)),
        None => Err(DecodeError::InvalidValue),
    }
}

/// Reads a MuSig2 partial signature at `pos`.
pub fn get_partial_signature(buf: &[u8], pos: usize) -> (r: Result<(PartialSignature, usize), DecodeError>)
    requires
        pos <= buf@.len(),
    ensures
        reads_as(r, read_partial_signature(buf@.skip(pos as int)), buf@),
{
    let (b, p) = get_array::<32>(buf, pos)?;
    match PartialSignature::from_byte_array(&b) {
        Some(sig) => Ok((sig, p)),
        None => Err(DecodeError::InvalidValue),
    }
}

/// Reads a channel id at `pos`.
pub fn get_channel_id(buf: &[u8], pos: usize) -> (r: Result<(ChannelId, usize), DecodeError>)
    requires
        pos <= buf@.len(),
    ensures
        reads_as(r, read_bytes32(buf@.skip(pos as int)), buf@),
{
    let (b, p) = get_array::<32>(buf, pos)?;
    Ok((ChannelId(b), p))
}

/// Reads a chain hash at `pos`.
pub fn get_chain_hash(buf: &[u8], pos: usize) -> (r: Result<(ChainHash, usize), DecodeError>)
    requires
        pos <= buf@.len(),
    ensures
        reads_as(r, read_bytes32(buf@.skip(pos as int)), buf@),
{
    let (b, p) = get_array::<32>(buf, pos)?;
    Ok((ChainHash(b), p))
}

/// Reads a transaction id at `pos`.
pub fn get_txid(buf: &[u8], pos: usize) -> (r: Result<(Txid, usize), DecodeError>)
    requires
        pos <= buf@.len(),
    ensures
        reads_as(r, read_bytes32(buf@.skip(pos as int)), buf@),
{
    let (b, p) = get_array::<32>(buf, pos)?;
    Ok((Txid(b), p))
}

impl PublicKey {
    /// Appends the compressed serialization of the key.
    pub fn write(&self, w: &mut Vec<u8>)
        ensures
            final(w)@ == old(w)@ + self@,
            is_public_key(self@),
    {
        let b = self.serialize();
        put_bytes(w, &b);
    }
}

impl PublicNonce {
    /// Appends the serialization of the nonce.
    pub fn write(&self, w: &mut Vec<u8>)
        ensures
            final(w)@ == old(w)@ + self@,
            is_public_nonce(self@),
    {
        let b = self.serialize();
        put_bytes(w, &b);
    }
}

impl PartialSignature {
    /// Appends the serialization of the partial signature.
    pub fn write(&self, w: &mut Vec<u8>)
        ensures
            final(w)@ == old(w)@ + self@,
            is_partial_signature(self@),
    {
        let b = self.serialize();
        put_bytes(w, &b);
    }
}

impl ChannelId {
    /// Appends the 32 bytes of the id.
    pub fn write(&self, w: &mut Vec<u8>)
        ensures
            final(w)@ == old(w)@ + self@,
    {
        put_bytes(w, &self.0);
    }
}

impl ChainHash {
    /// Appends the 32 bytes of the hash.
    pub fn write(&self, w: &mut Vec<u8>)
        ensures
            final(w)@ == old(w)@ + self@,
    {
        put_bytes(w, &self.0);
    }
}

impl Txid {
    /// Appends the 32 bytes of the id.
    pub fn write(&self, w: &mut Vec<u8>)
        ensures
            final(w)@ == old(w)@ + self@,
    {
        put_bytes(w, &self.0);
    }
}


impl PublicKey {
    /// Whether the two keys are the same.
    pub fn same_key(&self, other: &PublicKey) -> (r: bool)
        ensures
            r == (self@ == other@),
    {
        let a = self.bytes;
        let b = other.bytes;
        let mut i: usize = 0;
        while i < 33
            invariant
                i <= 33,
                a@ == self@,
                b@ == other@,
                forall|j: int| 0 <= j < i ==> a@[j] == b@[j],
            decreases 33 - i,
        {
            if a[i] != b[i] {
                assert(a@[i as int] != b@[i as int]);
                return false;
            }
            i = i + 1;
        }
        assert(a@ =~= b@);
        true
    }
}

} // verus!
