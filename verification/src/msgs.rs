//! Eltoo wire messages.
//!
//! Each message has a model (`Spec...`), in which keys, nonces and identifiers are byte
//! sequences, an encoding of the model (`encode_...`) and a decoding of bytes into a model
//! (`decode_...`). The executable `write` appends the encoding of the message's model, and
//! `read_from_fixed_length_buffer` decodes a message body as the specification does. Every
//! message that satisfies its types' invariants decodes back from its encoding.
use vstd::prelude::*;

use crate::keys::{
    get_chain_hash, get_channel_id, get_partial_signature, get_public_key, get_public_nonce,
    get_txid, is_partial_signature, is_public_key, is_public_nonce, lemma_read_bytes32_of,
    lemma_read_partial_signature_of, lemma_read_public_key_of, lemma_read_public_nonce_of,
    read_bytes32, read_partial_signature, read_public_key, read_public_nonce, ChainHash, ChannelId,
    OutPoint, PartialSignature, PublicKey, PublicNonce,
};
use crate::ser::{
    be16, be32, be64, decodes_as, get_u16, get_u32, get_u64, get_u8, get_vec, lemma_read_u16_of,
    lemma_read_u32_of, lemma_read_u64_of, lemma_read_u8_of, put_bytes, put_u16, put_u32, put_u64,
    put_u8, read_bytes, read_u16, read_u32, read_u64, read_u8, DecodeError,
};
use crate::tlv::{
    get_tlv_stream, lemma_read_tlvs_channel_opening, lemma_read_tlvs_closing_signed,
    lemma_read_tlvs_none_known, opt_bytes, opt_tlv_record, put_tlv_record, read_tlvs, TlvSchema,
};

verus! {

// ---------------------------------------------------------------------------------------
// Amounts
// ---------------------------------------------------------------------------------------

/// An amount in thousandths of a satoshi.
#[derive(Clone, Copy, Debug, Eq, PartialEq, Hash)]
pub struct MilliSatoshi(u64);

impl View for MilliSatoshi {
    type V = u64;

    closed spec fn view(&self) -> u64 {
        self.0
    }
}

/// The amount of millisatoshis that `sat` satoshis make, when it fits in a `u64`.
pub open spec fn msat_of_sat(sat: u64) -> Option<u64> {
    if sat * 1000 <= u64::MAX {
        Some((sat * 1000) as u64)
    } else {
        None
    }
}

/// A satoshi amount whose millisatoshi value does not fit in a `u64`.
#[derive(Debug)]
pub struct MilliSatoshiOverflow;

impl MilliSatoshi {
    /// Zero millisatoshis.
    pub fn zero() -> (r: MilliSatoshi)
        ensures
            r@ == 0,
    {
        MilliSatoshi(0)
    }

    pub fn from_msat(msat: u64) -> (r: MilliSatoshi)
        ensures
            r@ == msat,
    {
        MilliSatoshi(msat)
    }

    /// Splits the amount into whole satoshis and the millisatoshis left over.
    pub fn to_amount(self) -> (r: (u64, MilliSatoshi))
        ensures
            r.0 == self@ / 1000,
            r.1@ == self@ % 1000,
            r.0 * 1000 + r.1@ == self@,
            r.1@ < 1000,
    {
        (self.0 / 1000, MilliSatoshi(self.0 % 1000))
    }

    pub fn to_msat(self) -> (r: u64)
        ensures
            r == self@,
    {
        self.0
    }

    /// The difference, when `other` is not more than `self`.
    pub fn checked_sub(&self, other: MilliSatoshi) -> (r: Option<MilliSatoshi>)
        ensures
            r is Some <==> other@ <= self@,
            r matches Some(m) ==> m@ == self@ - other@,
    {
        match self.0.checked_sub(other.0) {
            Some(msat) => Some(MilliSatoshi::from_msat(msat)),
            None => None,
        }
    }

    /// The sum, when it fits in a `u64`.
    pub fn checked_add(&self, other: MilliSatoshi) -> (r: Option<MilliSatoshi>)
        ensures
            r is Some <==> self@ + other@ <= u64::MAX,
            r matches Some(m) ==> m@ == self@ + other@,
    {
        match self.0.checked_add(other.0) {
            Some(msat) => Some(MilliSatoshi::from_msat(msat)),
            None => None,
        }
    }

    /// The millisatoshi value of an amount of `amount_sat` satoshis.
    pub fn try_from_amount(amount_sat: u64) -> (r: Result<MilliSatoshi, MilliSatoshiOverflow>)
        ensures
            r is Ok <==> msat_of_sat(amount_sat) is Some,
            r matches Ok(m) ==> Some(m@) == msat_of_sat(amount_sat),
            r is Ok <==> amount_sat * 1000 <= u64::MAX,
            r matches Ok(m) ==> m@ == amount_sat * 1000,
    {
        match amount_sat.checked_mul(1000) {
            Some(msat) => Ok(MilliSatoshi(msat)),
            None => Err(MilliSatoshiOverflow),
        }
    }

    /// Appends the amount as a big-endian `u64`.
    pub fn write(&self, w: &mut Vec<u8>)
        ensures
            final(w)@ == old(w)@ + be64(self@),
    {
        put_u64(w, self.0);
    }

    /// The size of the encoding.
    pub fn serialized_length(&self) -> (r: usize)
        ensures
            r == be64(self@).len(),
    {
        proof {
            crate::ser::lemma_be64(self.0);
        }
        8
    }
}

/// Reads a millisatoshi amount at `pos`.
pub fn get_msat(buf: &[u8], pos: usize) -> (r: Result<(MilliSatoshi, usize), DecodeError>)
    requires
        pos <= buf@.len(),
    ensures
        crate::ser::reads_as(r, read_u64(buf@.skip(pos as int)), buf@),
{
    let (x, p) = get_u64(buf, pos)?;
    Ok((MilliSatoshi::from_msat(x), p))
}

/// The minimum and maximum fees (in satoshis) that the sender of `closing_signed_eltoo` accepts.
#[derive(Clone, Copy, Debug, Hash, PartialEq, Eq)]
pub struct ClosingSignedFeeRange {
    pub min_fee_satoshis: u64,
    pub max_fee_satoshis: u64,
}

/// The encoding of a fee range.
pub open spec fn encode_fee_range(min: u64, max: u64) -> Seq<u8> {
    be64(min) + be64(max)
}


// ---------------------------------------------------------------------------------------
// open_channel_eltoo
// ---------------------------------------------------------------------------------------

/// An `open_channel_eltoo` message to be sent to or received from a peer.
#[derive(Clone, Debug, Hash, PartialEq, Eq)]
pub struct OpenChannel {
    /// The genesis hash of the blockchain where the channel is to be opened
    pub chain_hash: ChainHash,
    /// A temporary channel ID
    pub temporary_channel_id: ChannelId,
    /// The channel value, in satoshis
    pub funding_amount: u64,
    pub push_value: MilliSatoshi,
    /// The maximum inbound HTLC value in flight towards channel initiator, in milli-satoshi
    pub max_htlc_value_in_flight: MilliSatoshi,
    /// The minimum HTLC size incoming to channel initiator, in milli-satoshi
    pub htlc_minimum_value: MilliSatoshi,
    /// The delay before a settlement transaction may spend an on-chain update transaction
    pub shared_delay: u16,
    /// The maximum number of inbound HTLCs towards channel initiator
    pub max_accepted_htlcs: u16,
    /// The channel initiator's key controlling the funding transaction
    pub funding_pubkey: PublicKey,
    /// Pubkey for settling HTLCs and the funder's balance
    pub settlement_pubkey: PublicKey,
    /// The channel flags to be used
    pub channel_flags: u8,
    /// Pre-exchange the nonce required for the first update transaction
    pub next_nonce: PublicNonce,
    /// Optionally, a request to pre-set the to-channel-initiator output's scriptPubkey for when
    /// we collaboratively close
    pub shutdown_scriptpubkey: Option<Vec<u8>>,
    /// The channel type that this channel will represent, as its feature bits in big-endian
    /// byte order. As defined in the latest specification, this field is required. However,
    /// it is an `Option` for legacy reasons.
    pub channel_type: Option<Vec<u8>>,
}

/// The model of an `open_channel_eltoo` message.
pub struct SpecOpenChannel {
    pub chain_hash: Seq<u8>,
    pub temporary_channel_id: Seq<u8>,
    pub funding_amount: u64,
    pub push_value: u64,
    pub max_htlc_value_in_flight: u64,
    pub htlc_minimum_value: u64,
    pub shared_delay: u16,
    pub max_accepted_htlcs: u16,
    pub funding_pubkey: Seq<u8>,
    pub settlement_pubkey: Seq<u8>,
    pub channel_flags: u8,
    pub next_nonce: Seq<u8>,
    pub shutdown_scriptpubkey: Option<Seq<u8>>,
    pub channel_type: Option<Seq<u8>>,
}

/// Whether an optional byte string is short enough for the length field of a TLV record.
pub open spec fn opt_fits_record(v: Option<Seq<u8>>) -> bool {
    v matches Some(x) ==> x.len() <= u64::MAX
}

impl SpecOpenChannel {
    /// What the types of the fields guarantee of a message.
    pub open spec fn wf(self) -> bool {
        &&& self.chain_hash.len() == 32
        &&& self.temporary_channel_id.len() == 32
        &&& is_public_key(self.funding_pubkey)
        &&& is_public_key(self.settlement_pubkey)
        &&& is_public_nonce(self.next_nonce)
        &&& opt_fits_record(self.shutdown_scriptpubkey)
        &&& opt_fits_record(self.channel_type)
    }
}

impl View for OpenChannel {
    type V = SpecOpenChannel;

    open spec fn view(&self) -> SpecOpenChannel {
        SpecOpenChannel {
            chain_hash: self.chain_hash@,
            temporary_channel_id: self.temporary_channel_id@,
            funding_amount: self.funding_amount,
            push_value: self.push_value@,
            max_htlc_value_in_flight: self.max_htlc_value_in_flight@,
            htlc_minimum_value: self.htlc_minimum_value@,
            shared_delay: self.shared_delay,
            max_accepted_htlcs: self.max_accepted_htlcs,
            funding_pubkey: self.funding_pubkey@,
            settlement_pubkey: self.settlement_pubkey@,
            channel_flags: self.channel_flags,
            next_nonce: self.next_nonce@,
            shutdown_scriptpubkey: opt_bytes(self.shutdown_scriptpubkey),
            channel_type: opt_bytes(self.channel_type),
        }
    }
}

/// The encoding of the identifiers and amounts at the front of an `open_channel_eltoo`
/// message.
pub open spec fn encode_open_channel_amounts(m: SpecOpenChannel) -> Seq<u8> {
    m.chain_hash + (m.temporary_channel_id + (be64(m.funding_amount) + (be64(m.push_value) + (
    be64(m.max_htlc_value_in_flight) + be64(m.htlc_minimum_value)))))
}

/// The encoding of the channel parameters and keys of `open_channel_eltoo` and
/// `accept_channel_eltoo`; only `open_channel_eltoo` carries channel flags.
pub open spec fn encode_channel_keys(
    shared_delay: u16,
    max_accepted_htlcs: u16,
    funding_pubkey: Seq<u8>,
    settlement_pubkey: Seq<u8>,
    channel_flags: Option<u8>,
    next_nonce: Seq<u8>,
) -> Seq<u8> {
    let flags = match channel_flags {
        Some(f) => seq![f],
        None => Seq::empty(),
    };
    be16(shared_delay) + (be16(max_accepted_htlcs) + (funding_pubkey + (settlement_pubkey + (flags
        + next_nonce))))
}

/// The TLV stream of a channel-opening message: the shutdown script as record 0 and the
/// channel type as record 1, each when present.
pub open spec fn encode_opening_tlvs(script: Option<Seq<u8>>, channel_type: Option<Seq<u8>>) -> Seq<u8> {
    opt_tlv_record(0, script) + opt_tlv_record(1, channel_type)
}

/// The encoding of an `open_channel_eltoo` message: its fixed fields in order, then its TLV
/// stream.
pub open spec fn encode_open_channel(m: SpecOpenChannel) -> Seq<u8> {
    encode_open_channel_amounts(m) + (encode_channel_keys(
        m.shared_delay,
        m.max_accepted_htlcs,
        m.funding_pubkey,
        m.settlement_pubkey,
        Some(m.channel_flags),
        m.next_nonce,
    ) + encode_opening_tlvs(m.shutdown_scriptpubkey, m.channel_type))
}

/// Reads the identifiers and amounts at the front of an `open_channel_eltoo` message: the
/// chain hash, the temporary channel id, the funding amount, the push value, the maximum
/// HTLC value in flight and the HTLC minimum.
pub open spec fn read_open_channel_amounts(s: Seq<u8>) -> Result<
    ((Seq<u8>, Seq<u8>, u64, u64, u64, u64), Seq<u8>),
    DecodeError,
> {
    match read_bytes32(s) {
        Err(e) => Err(e),
        Ok((chain_hash, s)) => match read_bytes32(s) {
            Err(e) => Err(e),
            Ok((temporary_channel_id, s)) => match read_u64(s) {
                Err(e) => Err(e),
                Ok((funding_amount, s)) => match read_u64(s) {
                    Err(e) => Err(e),
                    Ok((push_value, s)) => match read_u64(s) {
                        Err(e) => Err(e),
                        Ok((max_htlc_value_in_flight, s)) => match read_u64(s) {
                            Err(e) => Err(e),
                            Ok((htlc_minimum_value, s)) => Ok(
                                (
                                    (
                                        chain_hash,
                                        temporary_channel_id,
                                        funding_amount,
                                        push_value,
                                        max_htlc_value_in_flight,
                                        htlc_minimum_value,
                                    ),
                                    s,
                                ),
                            ),
                        },
                    },
                },
            },
        },
    }
}

/// Reads the channel parameters and keys of an `open_channel_eltoo` or
/// `accept_channel_eltoo` message: the shared delay, the maximum number of accepted HTLCs, the
/// funding and settlement public keys, (for `open_channel_eltoo`) the channel flags, and the
/// next nonce.
pub open spec fn read_channel_keys(s: Seq<u8>, with_flags: bool) -> Result<
    ((u16, u16, Seq<u8>, Seq<u8>, u8, Seq<u8>), Seq<u8>),
    DecodeError,
> {
    match read_u16(s) {
        Err(e) => Err(e),
        Ok((shared_delay, s)) => match read_u16(s) {
            Err(e) => Err(e),
            Ok((max_accepted_htlcs, s)) => match read_public_key(s) {
                Err(e) => Err(e),
                Ok((funding_pubkey, s)) => match read_public_key(s) {
                    Err(e) => Err(e),
                    Ok((settlement_pubkey, s)) => match (
                        if with_flags { read_u8(s) } else { Ok((0u8, s)) }) {
                        Err(e) => Err(e),
                        Ok((channel_flags, s)) => match read_public_nonce(s) {
                            Err(e) => Err(e),
                            Ok((next_nonce, s)) => Ok(
                                (
                                    (
                                        shared_delay,
                                        max_accepted_htlcs,
                                        funding_pubkey,
                                        settlement_pubkey,
                                        channel_flags,
                                        next_nonce,
                                    ),
                                    s,
                                ),
                            ),
                        },
                    },
                },
            },
        },
    }
}

/// Decodes the body of an `open_channel_eltoo` message.
pub open spec fn decode_open_channel(s: Seq<u8>) -> Result<SpecOpenChannel, DecodeError> {
    match read_open_channel_amounts(s) {
        Err(e) => Err(e),
        Ok((a, s)) => match read_channel_keys(s, true) {
            Err(e) => Err(e),
            Ok((k, s)) => match read_tlvs(TlvSchema::ChannelOpening, s) {
                Err(e) => Err(e),
                Ok(t) => Ok(
                    SpecOpenChannel {
                        chain_hash: a.0,
                        temporary_channel_id: a.1,
                        funding_amount: a.2,
                        push_value: a.3,
                        max_htlc_value_in_flight: a.4,
                        htlc_minimum_value: a.5,
                        shared_delay: k.0,
                        max_accepted_htlcs: k.1,
                        funding_pubkey: k.2,
                        settlement_pubkey: k.3,
                        channel_flags: k.4,
                        next_nonce: k.5,
                        shutdown_scriptpubkey: t.r0,
                        channel_type: t.r1,
                    },
                ),
            },
        },
    }
}

pub proof fn lemma_read_open_channel_amounts_of(m: SpecOpenChannel, rest: Seq<u8>)
    requires
        m.chain_hash.len() == 32,
        m.temporary_channel_id.len() == 32,
    ensures
        read_open_channel_amounts(encode_open_channel_amounts(m) + rest) == Ok::<
            ((Seq<u8>, Seq<u8>, u64, u64, u64, u64), Seq<u8>),
            DecodeError,
        >(
            (
                (
                    m.chain_hash,
                    m.temporary_channel_id,
                    m.funding_amount,
                    m.push_value,
                    m.max_htlc_value_in_flight,
                    m.htlc_minimum_value,
                ),
                rest,
            ),
        ),
{
    let t5 = be64(m.htlc_minimum_value) + rest;
    let t4 = be64(m.max_htlc_value_in_flight) + t5;
    let t3 = be64(m.push_value) + t4;
    let t2 = be64(m.funding_amount) + t3;
    let t1 = m.temporary_channel_id + t2;
    assert(encode_open_channel_amounts(m) + rest =~= m.chain_hash + t1);
    lemma_read_bytes32_of(m.chain_hash, t1);
    lemma_read_bytes32_of(m.temporary_channel_id, t2);
    lemma_read_u64_of(m.funding_amount, t3);
    lemma_read_u64_of(m.push_value, t4);
    lemma_read_u64_of(m.max_htlc_value_in_flight, t5);
    lemma_read_u64_of(m.htlc_minimum_value, rest);
}

#[verifier::rlimit(50)]
pub proof fn lemma_read_channel_keys_of(
    shared_delay: u16,
    max_accepted_htlcs: u16,
    funding_pubkey: Seq<u8>,
    settlement_pubkey: Seq<u8>,
    channel_flags: Option<u8>,
    next_nonce: Seq<u8>,
    rest: Seq<u8>,
)
    requires
        is_public_key(funding_pubkey),
        is_public_key(settlement_pubkey),
        is_public_nonce(next_nonce),
    ensures
        read_channel_keys(
            encode_channel_keys(
                shared_delay,
                max_accepted_htlcs,
                funding_pubkey,
                settlement_pubkey,
                channel_flags,
                next_nonce,
            ) + rest,
            channel_flags is Some,
        ) == Ok::<((u16, u16, Seq<u8>, Seq<u8>, u8, Seq<u8>), Seq<u8>), DecodeError>(
            (
                (
                    shared_delay,
                    max_accepted_htlcs,
                    funding_pubkey,
                    settlement_pubkey,
                    match channel_flags {
                        Some(f) => f,
                        None => 0u8,
                    },
                    next_nonce,
                ),
                rest,
            ),
        ),
{
    let flags = match channel_flags {
        Some(f) => seq![f],
        None => Seq::<u8>::empty(),
    };
    let t5 = next_nonce + rest;
    let t4 = flags + t5;
    let t3 = settlement_pubkey + t4;
    let t2 = funding_pubkey + t3;
    let t1 = be16(max_accepted_htlcs) + t2;
    assert(encode_channel_keys(
        shared_delay,
        max_accepted_htlcs,
        funding_pubkey,
        settlement_pubkey,
        channel_flags,
        next_nonce,
    ) + rest =~= be16(shared_delay) + t1);
    lemma_read_u16_of(shared_delay, t1);
    lemma_read_u16_of(max_accepted_htlcs, t2);
    lemma_read_public_key_of(funding_pubkey, t3);
    lemma_read_public_key_of(settlement_pubkey, t4);
    match channel_flags {
        Some(f) => lemma_read_u8_of(f, t5),
        None => assert(t4 =~= t5),
    }
    lemma_read_public_nonce_of(next_nonce, rest);
}

/// An `open_channel_eltoo` message decodes back from its encoding.
#[verifier::rlimit(50)]
pub proof fn lemma_open_channel_roundtrip(m: SpecOpenChannel)
    requires
        m.wf(),
    ensures
        decode_open_channel(encode_open_channel(m)) == Ok::<SpecOpenChannel, DecodeError>(m),
{
    let tlvs = encode_opening_tlvs(m.shutdown_scriptpubkey, m.channel_type);
    let keys = encode_channel_keys(
        m.shared_delay,
        m.max_accepted_htlcs,
        m.funding_pubkey,
        m.settlement_pubkey,
        Some(m.channel_flags),
        m.next_nonce,
    );
    lemma_read_open_channel_amounts_of(m, keys + tlvs);
    lemma_read_channel_keys_of(
        m.shared_delay,
        m.max_accepted_htlcs,
        m.funding_pubkey,
        m.settlement_pubkey,
        Some(m.channel_flags),
        m.next_nonce,
        tlvs,
    );
    lemma_read_tlvs_channel_opening(m.shutdown_scriptpubkey, m.channel_type);
}

/// Appends an optional TLV record of raw bytes.
fn put_opt_raw_record(w: &mut Vec<u8>, t: u64, v: &Option<Vec<u8>>)
    ensures
        final(w)@ == old(w)@ + opt_tlv_record(t, opt_bytes(*v)),
        opt_fits_record(opt_bytes(*v)),
{
    match v {
        Some(b) => {
            assert(b@.len() == b.len());
            put_tlv_record(w, t, b.as_slice());
        },
        None => {
            assert(w@ =~= w@ + opt_tlv_record(t, opt_bytes(*v)));
        },
    }
}

impl OpenChannel {
    /// Appends the encoding; the message's fields are well formed, by their types' invariants.
    #[verifier::rlimit(50)]
    fn write_fields(&self, w: &mut Vec<u8>)
        ensures
            final(w)@ == old(w)@ + encode_open_channel(self@),
            self@.wf(),
    {
        let ghost w0 = w@;
        self.chain_hash.write(w);
        self.temporary_channel_id.write(w);
        put_u64(w, self.funding_amount);
        self.push_value.write(w);
        self.max_htlc_value_in_flight.write(w);
        self.htlc_minimum_value.write(w);
        put_u16(w, self.shared_delay);
        put_u16(w, self.max_accepted_htlcs);
        self.funding_pubkey.write(w);
        self.settlement_pubkey.write(w);
        put_u8(w, self.channel_flags);
        self.next_nonce.write(w);
        put_opt_raw_record(w, 0, &self.shutdown_scriptpubkey);
        put_opt_raw_record(w, 1, &self.channel_type);
        assert(w@ =~= w0 + encode_open_channel(self@));
    }

    /// Appends the encoding of the message.
    pub fn write(&self, w: &mut Vec<u8>)
        ensures
            final(w)@ == old(w)@ + encode_open_channel(self@),
            decode_open_channel(encode_open_channel(self@)) == Ok::<SpecOpenChannel, DecodeError>(self@),
    {
        self.write_fields(w);
        proof {
            lemma_open_channel_roundtrip(self@);
        }
    }

    /// Decodes the body of an `open_channel_eltoo` message.
    #[verifier::rlimit(50)]
    pub fn read_from_fixed_length_buffer(buf: &[u8]) -> (r: Result<OpenChannel, DecodeError>)
        ensures
            decodes_as(r, decode_open_channel(buf@)),
    {
        assert(buf@.skip(0) =~= buf@);
        let (chain_hash, p) = get_chain_hash(buf, 0)?;
        let (temporary_channel_id, p) = get_channel_id(buf, p)?;
        let (funding_amount, p) = get_u64(buf, p)?;
        let (push_value, p) = get_msat(buf, p)?;
        let (max_htlc_value_in_flight, p) = get_msat(buf, p)?;
        let (htlc_minimum_value, p) = get_msat(buf, p)?;
        let (shared_delay, p) = get_u16(buf, p)?;
        let (max_accepted_htlcs, p) = get_u16(buf, p)?;
        let (funding_pubkey, p) = get_public_key(buf, p)?;
        let (settlement_pubkey, p) = get_public_key(buf, p)?;
        let (channel_flags, p) = get_u8(buf, p)?;
        let (next_nonce, p) = get_public_nonce(buf, p)?;
        let tlvs = get_tlv_stream(TlvSchema::ChannelOpening, buf, p)?;
        Ok(
            OpenChannel {
                chain_hash,
                temporary_channel_id,
                funding_amount,
                push_value,
                max_htlc_value_in_flight,
                htlc_minimum_value,
                shared_delay,
                max_accepted_htlcs,
                funding_pubkey,
                settlement_pubkey,
                channel_flags,
                next_nonce,
                shutdown_scriptpubkey: tlvs.r0,
                channel_type: tlvs.r1,
            },
        )
    }
}


// ---------------------------------------------------------------------------------------
// accept_channel_eltoo
// ---------------------------------------------------------------------------------------

/// An `accept_channel_eltoo` message to be sent to or received from a peer.
#[derive(Clone, Debug, Hash, PartialEq, Eq)]
pub struct AcceptChannel {
    /// A temporary channel ID
    pub temporary_channel_id: ChannelId,
    /// The maximum inbound HTLC value in flight towards channel initiator, in milli-satoshi
    pub max_htlc_value_in_flight: MilliSatoshi,
    /// The minimum HTLC size incoming to channel initiator, in milli-satoshi
    pub htlc_minimum_value: MilliSatoshi,
    /// The minimum number of confirmations the funding transaction must achieve before the
    /// channel is considered ready
    pub minimum_depth: u32,
    /// The delay before a settlement transaction may spend an on-chain update transaction
    pub shared_delay: u16,
    /// The maximum number of inbound HTLCs towards channel accepter
    pub max_accepted_htlcs: u16,
    /// The channel accepter's key controlling the funding transaction
    pub funding_pubkey: PublicKey,
    /// Pubkey for settling HTLCs and the fundee's balance
    pub settlement_pubkey: PublicKey,
    /// Pre-exchange the nonce required for the first update transaction
    pub next_nonce: PublicNonce,
    /// Optionally, a request to pre-set the to-channel-initiator output's scriptPubkey for when
    /// we collaboratively close
    pub shutdown_scriptpubkey: Option<Vec<u8>>,
    /// The channel type that this channel will represent, as its feature bits in big-endian
    /// byte order. As defined in the latest specification, this field is required. However,
    /// it is an `Option` for legacy reasons.
    pub channel_type: Option<Vec<u8>>,
}

/// The model of an `accept_channel_eltoo` message.
pub struct SpecAcceptChannel {
    pub temporary_channel_id: Seq<u8>,
    pub max_htlc_value_in_flight: u64,
    pub htlc_minimum_value: u64,
    pub minimum_depth: u32,
    pub shared_delay: u16,
    pub max_accepted_htlcs: u16,
    pub funding_pubkey: Seq<u8>,
    pub settlement_pubkey: Seq<u8>,
    pub next_nonce: Seq<u8>,
    pub shutdown_scriptpubkey: Option<Seq<u8>>,
    pub channel_type: Option<Seq<u8>>,
}

impl SpecAcceptChannel {
    /// What the types of the fields guarantee of a message.
    pub open spec fn wf(self) -> bool {
        &&& self.temporary_channel_id.len() == 32
        &&& is_public_key(self.funding_pubkey)
        &&& is_public_key(self.settlement_pubkey)
        &&& is_public_nonce(self.next_nonce)
        &&& opt_fits_record(self.shutdown_scriptpubkey)
        &&& opt_fits_record(self.channel_type)
    }
}

impl View for AcceptChannel {
    type V = SpecAcceptChannel;

    open spec fn view(&self) -> SpecAcceptChannel {
        SpecAcceptChannel {
            temporary_channel_id: self.temporary_channel_id@,
            max_htlc_value_in_flight: self.max_htlc_value_in_flight@,
            htlc_minimum_value: self.htlc_minimum_value@,
            minimum_depth: self.minimum_depth,
            shared_delay: self.shared_delay,
            max_accepted_htlcs: self.max_accepted_htlcs,
            funding_pubkey: self.funding_pubkey@,
            settlement_pubkey: self.settlement_pubkey@,
            next_nonce: self.next_nonce@,
            shutdown_scriptpubkey: opt_bytes(self.shutdown_scriptpubkey),
            channel_type: opt_bytes(self.channel_type),
        }
    }
}

/// The encoding of the identifier and amounts at the front of an `accept_channel_eltoo`
/// message.
pub open spec fn encode_accept_channel_amounts(m: SpecAcceptChannel) -> Seq<u8> {
    m.temporary_channel_id + (be64(m.max_htlc_value_in_flight) + (be64(m.htlc_minimum_value)
        + be32(m.minimum_depth)))
}

/// The encoding of an `accept_channel_eltoo` message: its fixed fields in order, then its TLV
/// stream.
pub open spec fn encode_accept_channel(m: SpecAcceptChannel) -> Seq<u8> {
    encode_accept_channel_amounts(m) + (encode_channel_keys(
        m.shared_delay,
        m.max_accepted_htlcs,
        m.funding_pubkey,
        m.settlement_pubkey,
        None,
        m.next_nonce,
    ) + encode_opening_tlvs(m.shutdown_scriptpubkey, m.channel_type))
}

/// Reads the identifier and amounts at the front of an `accept_channel_eltoo` message: the
/// temporary channel id, the maximum HTLC value in flight, the HTLC minimum and the minimum
/// depth.
pub open spec fn read_accept_channel_amounts(s: Seq<u8>) -> Result<
    ((Seq<u8>, u64, u64, u32), Seq<u8>),
    DecodeError,
> {
    match read_bytes32(s) {
        Err(e) => Err(e),
        Ok((temporary_channel_id, s)) => match read_u64(s) {
            Err(e) => Err(e),
            Ok((max_htlc_value_in_flight, s)) => match read_u64(s) {
                Err(e) => Err(e),
                Ok((htlc_minimum_value, s)) => match read_u32(s) {
                    Err(e) => Err(e),
                    Ok((minimum_depth, s)) => Ok(
                        (
                            (
                                temporary_channel_id,
                                max_htlc_value_in_flight,
                                htlc_minimum_value,
                                minimum_depth,
                            ),
                            s,
                        ),
                    ),
                },
            },
        },
    }
}

/// Decodes the body of an `accept_channel_eltoo` message.
pub open spec fn decode_accept_channel(s: Seq<u8>) -> Result<SpecAcceptChannel, DecodeError> {
    match read_accept_channel_amounts(s) {
        Err(e) => Err(e),
        Ok((a, s)) => match read_channel_keys(s, false) {
            Err(e) => Err(e),
            Ok((k, s)) => match read_tlvs(TlvSchema::ChannelOpening, s) {
                Err(e) => Err(e),
                Ok(t) => Ok(
                    SpecAcceptChannel {
                        temporary_channel_id: a.0,
                        max_htlc_value_in_flight: a.1,
                        htlc_minimum_value: a.2,
                        minimum_depth: a.3,
                        shared_delay: k.0,
                        max_accepted_htlcs: k.1,
                        funding_pubkey: k.2,
                        settlement_pubkey: k.3,
                        next_nonce: k.5,
                        shutdown_scriptpubkey: t.r0,
                        channel_type: t.r1,
                    },
                ),
            },
        },
    }
}

pub proof fn lemma_read_accept_channel_amounts_of(m: SpecAcceptChannel, rest: Seq<u8>)
    requires
        m.temporary_channel_id.len() == 32,
    ensures
        read_accept_channel_amounts(encode_accept_channel_amounts(m) + rest) == Ok::<
            ((Seq<u8>, u64, u64, u32), Seq<u8>),
            DecodeError,
        >(
            (
                (
                    m.temporary_channel_id,
                    m.max_htlc_value_in_flight,
                    m.htlc_minimum_value,
                    m.minimum_depth,
                ),
                rest,
            ),
        ),
{
    let t3 = be32(m.minimum_depth) + rest;
    let t2 = be64(m.htlc_minimum_value) + t3;
    let t1 = be64(m.max_htlc_value_in_flight) + t2;
    assert(encode_accept_channel_amounts(m) + rest =~= m.temporary_channel_id + t1);
    lemma_read_bytes32_of(m.temporary_channel_id, t1);
    lemma_read_u64_of(m.max_htlc_value_in_flight, t2);
    lemma_read_u64_of(m.htlc_minimum_value, t3);
    lemma_read_u32_of(m.minimum_depth, rest);
}

/// An `accept_channel_eltoo` message decodes back from its encoding.
#[verifier::rlimit(50)]
pub proof fn lemma_accept_channel_roundtrip(m: SpecAcceptChannel)
    requires
        m.wf(),
    ensures
        decode_accept_channel(encode_accept_channel(m)) == Ok::<SpecAcceptChannel, DecodeError>(m),
{
    let tlvs = encode_opening_tlvs(m.shutdown_scriptpubkey, m.channel_type);
    let keys = encode_channel_keys(
        m.shared_delay,
        m.max_accepted_htlcs,
        m.funding_pubkey,
        m.settlement_pubkey,
        None,
        m.next_nonce,
    );
    lemma_read_accept_channel_amounts_of(m, keys + tlvs);
    lemma_read_channel_keys_of(
        m.shared_delay,
        m.max_accepted_htlcs,
        m.funding_pubkey,
        m.settlement_pubkey,
        None,
        m.next_nonce,
        tlvs,
    );
    lemma_read_tlvs_channel_opening(m.shutdown_scriptpubkey, m.channel_type);
}

impl AcceptChannel {
    /// Appends the encoding; the message's fields are well formed, by their types' invariants.
    #[verifier::rlimit(50)]
    fn write_fields(&self, w: &mut Vec<u8>)
        ensures
            final(w)@ == old(w)@ + encode_accept_channel(self@),
            self@.wf(),
    {
        let ghost w0 = w@;
        self.temporary_channel_id.write(w);
        self.max_htlc_value_in_flight.write(w);
        self.htlc_minimum_value.write(w);
        put_u32(w, self.minimum_depth);
        put_u16(w, self.shared_delay);
        put_u16(w, self.max_accepted_htlcs);
        self.funding_pubkey.write(w);
        self.settlement_pubkey.write(w);
        self.next_nonce.write(w);
        put_opt_raw_record(w, 0, &self.shutdown_scriptpubkey);
        put_opt_raw_record(w, 1, &self.channel_type);
        assert(w@ =~= w0 + encode_accept_channel(self@));
    }

    /// Appends the encoding of the message.
    pub fn write(&self, w: &mut Vec<u8>)
        ensures
            final(w)@ == old(w)@ + encode_accept_channel(self@),
            decode_accept_channel(encode_accept_channel(self@)) == Ok::<SpecAcceptChannel, DecodeError>(self@),
    {
        self.write_fields(w);
        proof {
            lemma_accept_channel_roundtrip(self@);
        }
    }

    /// Decodes the body of an `accept_channel_eltoo` message.
    #[verifier::rlimit(50)]
    pub fn read_from_fixed_length_buffer(buf: &[u8]) -> (r: Result<AcceptChannel, DecodeError>)
        ensures
            decodes_as(r, decode_accept_channel(buf@)),
    {
        assert(buf@.skip(0) =~= buf@);
        let (temporary_channel_id, p) = get_channel_id(buf, 0)?;
        let (max_htlc_value_in_flight, p) = get_msat(buf, p)?;
        let (htlc_minimum_value, p) = get_msat(buf, p)?;
        let (minimum_depth, p) = get_u32(buf, p)?;
        let (shared_delay, p) = get_u16(buf, p)?;
        let (max_accepted_htlcs, p) = get_u16(buf, p)?;
        let (funding_pubkey, p) = get_public_key(buf, p)?;
        let (settlement_pubkey, p) = get_public_key(buf, p)?;
        let (next_nonce, p) = get_public_nonce(buf, p)?;
        let tlvs = get_tlv_stream(TlvSchema::ChannelOpening, buf, p)?;
        Ok(
            AcceptChannel {
                temporary_channel_id,
                max_htlc_value_in_flight,
                htlc_minimum_value,
                minimum_depth,
                shared_delay,
                max_accepted_htlcs,
                funding_pubkey,
                settlement_pubkey,
                next_nonce,
                shutdown_scriptpubkey: tlvs.r0,
                channel_type: tlvs.r1,
            },
        )
    }
}

// ---------------------------------------------------------------------------------------
// funding_created_eltoo
// ---------------------------------------------------------------------------------------

/// A `funding_created_eltoo` message to be sent to or received from a peer.
#[derive(Clone, Debug, Hash, PartialEq, Eq)]
pub struct FundingCreated {
    /// A temporary channel ID
    pub temporary_channel_id: ChannelId,
    pub funding_outpoint: OutPoint,
    pub update_partial_signature: PartialSignature,
    /// Pre-exchange the nonce required for the next update transaction
    pub next_nonce: PublicNonce,
}

/// The model of a `funding_created_eltoo` message.
pub struct SpecFundingCreated {
    pub temporary_channel_id: Seq<u8>,
    pub funding_txid: Seq<u8>,
    pub funding_output_index: u32,
    pub update_partial_signature: Seq<u8>,
    pub next_nonce: Seq<u8>,
}

impl SpecFundingCreated {
    /// What the types of the fields guarantee of a message.
    pub open spec fn wf(self) -> bool {
        &&& self.temporary_channel_id.len() == 32
        &&& self.funding_txid.len() == 32
        &&& is_partial_signature(self.update_partial_signature)
        &&& is_public_nonce(self.next_nonce)
    }
}

impl View for FundingCreated {
    type V = SpecFundingCreated;

    open spec fn view(&self) -> SpecFundingCreated {
        SpecFundingCreated {
            temporary_channel_id: self.temporary_channel_id@,
            funding_txid: self.funding_outpoint.txid@,
            funding_output_index: self.funding_outpoint.vout,
            update_partial_signature: self.update_partial_signature@,
            next_nonce: self.next_nonce@,
        }
    }
}

/// The encoding of a `funding_created_eltoo` message; the funding output index is sent as a
/// `u16`. The message has no TLV stream.
pub open spec fn encode_funding_created(m: SpecFundingCreated) -> Seq<u8> {
    m.temporary_channel_id + (m.funding_txid + (be16(m.funding_output_index as u16) + (
    m.update_partial_signature + m.next_nonce)))
}

/// Decodes the body of a `funding_created_eltoo` message; whatever follows the nonce is
/// ignored.
pub open spec fn decode_funding_created(s: Seq<u8>) -> Result<SpecFundingCreated, DecodeError> {
    match read_bytes32(s) {
        Err(e) => Err(e),
        Ok((temporary_channel_id, s)) => match read_bytes32(s) {
            Err(e) => Err(e),
            Ok((funding_txid, s)) => match read_u16(s) {
                Err(e) => Err(e),
                Ok((funding_output_index, s)) => match read_partial_signature(s) {
                    Err(e) => Err(e),
                    Ok((update_partial_signature, s)) => match read_public_nonce(s) {
                        Err(e) => Err(e),
                        Ok((next_nonce, _)) => Ok(
                            SpecFundingCreated {
                                temporary_channel_id,
                                funding_txid,
                                funding_output_index: funding_output_index as u32,
                                update_partial_signature,
                                next_nonce,
                            },
                        ),
                    },
                },
            },
        },
    }
}

/// A `funding_created_eltoo` message whose funding output index fits in 16 bits decodes back
/// from its encoding, whatever follows it.
pub proof fn lemma_funding_created_roundtrip(m: SpecFundingCreated, rest: Seq<u8>)
    requires
        m.wf(),
        m.funding_output_index <= u16::MAX,
    ensures
        decode_funding_created(encode_funding_created(m) + rest) == Ok::<
            SpecFundingCreated,
            DecodeError,
        >(m),
{
    let t4 = m.next_nonce + rest;
    let t3 = m.update_partial_signature + t4;
    let t2 = be16(m.funding_output_index as u16) + t3;
    let t1 = m.funding_txid + t2;
    assert(encode_funding_created(m) + rest =~= m.temporary_channel_id + t1);
    lemma_read_bytes32_of(m.temporary_channel_id, t1);
    lemma_read_bytes32_of(m.funding_txid, t2);
    lemma_read_u16_of(m.funding_output_index as u16, t3);
    lemma_read_partial_signature_of(m.update_partial_signature, t4);
    lemma_read_public_nonce_of(m.next_nonce, rest);
}

impl FundingCreated {
    /// Appends the encoding of the message. The funding output index must fit in 16 bits.
    pub fn write(&self, w: &mut Vec<u8>)
        requires
            self.funding_outpoint.vout <= u16::MAX,
        ensures
            final(w)@ == old(w)@ + encode_funding_created(self@),
            forall|rest: Seq<u8>|
                decode_funding_created(#[trigger] (encode_funding_created(self@) + rest)) == Ok::<SpecFundingCreated, DecodeError>(self@),
    {
        let ghost w0 = w@;
        self.temporary_channel_id.write(w);
        self.funding_outpoint.txid.write(w);
        let funding_output_index: u16 = self.funding_outpoint.vout as u16;
        put_u16(w, funding_output_index);
        self.update_partial_signature.write(w);
        self.next_nonce.write(w);
        assert(w@ =~= w0 + encode_funding_created(self@));
        proof {
            assert forall|rest: Seq<u8>| decode_funding_created(#[trigger] (encode_funding_created(self@) + rest)) == Ok::<SpecFundingCreated, DecodeError>(self@) by { lemma_funding_created_roundtrip(self@, rest); }
        }
    }

    /// Decodes the body of a `funding_created_eltoo` message.
    pub fn read_from_fixed_length_buffer(buf: &[u8]) -> (r: Result<FundingCreated, DecodeError>)
        ensures
            decodes_as(r, decode_funding_created(buf@)),
    {
        assert(buf@.skip(0) =~= buf@);
        let (temporary_channel_id, p) = get_channel_id(buf, 0)?;
        let (funding_txid, p) = get_txid(buf, p)?;
        let (funding_output_index, p) = get_u16(buf, p)?;
        let (update_partial_signature, p) = get_partial_signature(buf, p)?;
        let (next_nonce, _) = get_public_nonce(buf, p)?;
        Ok(
            FundingCreated {
                temporary_channel_id,
                funding_outpoint: OutPoint { txid: funding_txid, vout: funding_output_index as u32 },
                update_partial_signature,
                next_nonce,
            },
        )
    }
}

// ---------------------------------------------------------------------------------------
// funding_signed_eltoo, update_signed, update_signed_ack
// ---------------------------------------------------------------------------------------

/// A `funding_signed_eltoo` message to be sent to or received from a peer.
#[derive(Clone, Debug, Hash, PartialEq, Eq)]
pub struct FundingSigned {
    /// Channel ID
    pub channel_id: ChannelId,
    pub update_partial_signature: PartialSignature,
    /// Pre-exchange the nonce required for the next update transaction
    pub next_nonce: PublicNonce,
}

/// An `update_signed` message to be sent to or received from a peer.
#[derive(Clone, Debug, Hash, PartialEq, Eq)]
pub struct UpdateSigned {
    /// Channel ID
    pub channel_id: ChannelId,
    pub update_partial_signature: PartialSignature,
    /// Pre-exchange the nonce required for the next update transaction
    pub next_nonce: PublicNonce,
}

/// An `update_signed_ack` message to be sent to or received from a peer.
#[derive(Clone, Debug, Hash, PartialEq, Eq)]
pub struct UpdateSignedAck {
    /// Channel ID
    pub channel_id: ChannelId,
    pub update_partial_signature: PartialSignature,
    /// Pre-exchange the nonce required for the next update transaction
    pub next_nonce: PublicNonce,
}

/// The model of `funding_signed_eltoo`, `update_signed` and `update_signed_ack`, which carry
/// the same fields: a channel id, a partial signature of an update and the next nonce.
pub struct SpecSignedUpdate {
    pub channel_id: Seq<u8>,
    pub update_partial_signature: Seq<u8>,
    pub next_nonce: Seq<u8>,
}

impl SpecSignedUpdate {
    /// What the types of the fields guarantee of a message.
    pub open spec fn wf(self) -> bool {
        &&& self.channel_id.len() == 32
        &&& is_partial_signature(self.update_partial_signature)
        &&& is_public_nonce(self.next_nonce)
    }
}

impl View for FundingSigned {
    type V = SpecSignedUpdate;

    open spec fn view(&self) -> SpecSignedUpdate {
        SpecSignedUpdate {
            channel_id: self.channel_id@,
            update_partial_signature: self.update_partial_signature@,
            next_nonce: self.next_nonce@,
        }
    }
}

impl View for UpdateSigned {
    type V = SpecSignedUpdate;

    open spec fn view(&self) -> SpecSignedUpdate {
        SpecSignedUpdate {
            channel_id: self.channel_id@,
            update_partial_signature: self.update_partial_signature@,
            next_nonce: self.next_nonce@,
        }
    }
}

impl View for UpdateSignedAck {
    type V = SpecSignedUpdate;

    open spec fn view(&self) -> SpecSignedUpdate {
        SpecSignedUpdate {
            channel_id: self.channel_id@,
            update_partial_signature: self.update_partial_signature@,
            next_nonce: self.next_nonce@,
        }
    }
}

/// The encoding of a signed update: its three fields in order and an empty TLV stream.
pub open spec fn encode_signed_update(m: SpecSignedUpdate) -> Seq<u8> {
    m.channel_id + (m.update_partial_signature + m.next_nonce)
}

/// Decodes the body of a signed update. What follows the nonce is a TLV stream in which no
/// record is known.
pub open spec fn decode_signed_update(s: Seq<u8>) -> Result<SpecSignedUpdate, DecodeError> {
    match read_bytes32(s) {
        Err(e) => Err(e),
        Ok((channel_id, s)) => match read_partial_signature(s) {
            Err(e) => Err(e),
            Ok((update_partial_signature, s)) => match read_public_nonce(s) {
                Err(e) => Err(e),
                Ok((next_nonce, s)) => match read_tlvs(TlvSchema::NoneKnown, s) {
                    Err(e) => Err(e),
                    Ok(_) => Ok(SpecSignedUpdate { channel_id, update_partial_signature, next_nonce }),
                },
            },
        },
    }
}

/// A signed update decodes back from its encoding.
pub proof fn lemma_signed_update_roundtrip(m: SpecSignedUpdate)
    requires
        m.wf(),
    ensures
        decode_signed_update(encode_signed_update(m)) == Ok::<SpecSignedUpdate, DecodeError>(m),
{
    let e = Seq::<u8>::empty();
    let t2 = m.next_nonce + e;
    let t1 = m.update_partial_signature + t2;
    assert(encode_signed_update(m) =~= m.channel_id + t1);
    lemma_read_bytes32_of(m.channel_id, t1);
    lemma_read_partial_signature_of(m.update_partial_signature, t2);
    lemma_read_public_nonce_of(m.next_nonce, e);
    lemma_read_tlvs_none_known();
}

/// Appends the encoding of a signed update.
fn write_signed_update(
    w: &mut Vec<u8>,
    channel_id: &ChannelId,
    sig: &PartialSignature,
    nonce: &PublicNonce,
)
    ensures
        final(w)@ == old(w)@ + encode_signed_update(
            SpecSignedUpdate {
                channel_id: channel_id@,
                update_partial_signature: sig@,
                next_nonce: nonce@,
            },
        ),
        is_partial_signature(sig@),
        is_public_nonce(nonce@),
{
    let ghost w0 = w@;
    channel_id.write(w);
    sig.write(w);
    nonce.write(w);
    assert(w@ =~= w0 + channel_id@ + (sig@ + nonce@));
}

/// Decodes the body of a signed update.
fn read_signed_update(buf: &[u8]) -> (r: Result<(ChannelId, PartialSignature, PublicNonce), DecodeError>)
    ensures
        match decode_signed_update(buf@) {
            Ok(m) => r matches Ok((c, sig, n)) && c@ == m.channel_id && sig@
                == m.update_partial_signature && n@ == m.next_nonce,
            Err(e) => r == Err::<(ChannelId, PartialSignature, PublicNonce), DecodeError>(e),
        },
{
    assert(buf@.skip(0) =~= buf@);
    let (channel_id, p) = get_channel_id(buf, 0)?;
    let (sig, p) = get_partial_signature(buf, p)?;
    let (nonce, p) = get_public_nonce(buf, p)?;
    let _ = get_tlv_stream(TlvSchema::NoneKnown, buf, p)?;
    Ok((channel_id, sig, nonce))
}

impl FundingSigned {
    /// Appends the encoding of the message.
    pub fn write(&self, w: &mut Vec<u8>)
        ensures
            final(w)@ == old(w)@ + encode_signed_update(self@),
            decode_signed_update(encode_signed_update(self@)) == Ok::<SpecSignedUpdate, DecodeError>(self@),
    {
        write_signed_update(w, &self.channel_id, &self.update_partial_signature, &self.next_nonce);
        assert(decode_signed_update(encode_signed_update(self@)) == Ok::<SpecSignedUpdate, DecodeError>(self@)) by {
            lemma_signed_update_roundtrip(self@);
        }
    }

    /// Decodes the body of a `funding_signed_eltoo` message.
    pub fn read_from_fixed_length_buffer(buf: &[u8]) -> (r: Result<FundingSigned, DecodeError>)
        ensures
            decodes_as(r, decode_signed_update(buf@)),
    {
        let (channel_id, update_partial_signature, next_nonce) = read_signed_update(buf)?;
        Ok(FundingSigned { channel_id, update_partial_signature, next_nonce })
    }
}

impl UpdateSigned {
    /// Appends the encoding of the message.
    pub fn write(&self, w: &mut Vec<u8>)
        ensures
            final(w)@ == old(w)@ + encode_signed_update(self@),
            decode_signed_update(encode_signed_update(self@)) == Ok::<SpecSignedUpdate, DecodeError>(self@),
    {
        write_signed_update(w, &self.channel_id, &self.update_partial_signature, &self.next_nonce);
        assert(decode_signed_update(encode_signed_update(self@)) == Ok::<SpecSignedUpdate, DecodeError>(self@)) by {
            lemma_signed_update_roundtrip(self@);
        }
    }

    /// Decodes the body of an `update_signed` message.
    pub fn read_from_fixed_length_buffer(buf: &[u8]) -> (r: Result<UpdateSigned, DecodeError>)
        ensures
            decodes_as(r, decode_signed_update(buf@)),
    {
        let (channel_id, update_partial_signature, next_nonce) = read_signed_update(buf)?;
        Ok(UpdateSigned { channel_id, update_partial_signature, next_nonce })
    }
}

impl UpdateSignedAck {
    /// Appends the encoding of the message.
    pub fn write(&self, w: &mut Vec<u8>)
        ensures
            final(w)@ == old(w)@ + encode_signed_update(self@),
            decode_signed_update(encode_signed_update(self@)) == Ok::<SpecSignedUpdate, DecodeError>(self@),
    {
        write_signed_update(w, &self.channel_id, &self.update_partial_signature, &self.next_nonce);
        assert(decode_signed_update(encode_signed_update(self@)) == Ok::<SpecSignedUpdate, DecodeError>(self@)) by {
            lemma_signed_update_roundtrip(self@);
        }
    }

    /// Decodes the body of an `update_signed_ack` message.
    pub fn read_from_fixed_length_buffer(buf: &[u8]) -> (r: Result<UpdateSignedAck, DecodeError>)
        ensures
            decodes_as(r, decode_signed_update(buf@)),
    {
        let (channel_id, update_partial_signature, next_nonce) = read_signed_update(buf)?;
        Ok(UpdateSignedAck { channel_id, update_partial_signature, next_nonce })
    }
}


// ---------------------------------------------------------------------------------------
// channel_ready_eltoo
// ---------------------------------------------------------------------------------------

/// A `channel_ready_eltoo` message to be sent to or received from a peer.
#[derive(Clone, Debug, Hash, PartialEq, Eq)]
pub struct ChannelReady {
    /// Channel ID
    pub channel_id: ChannelId,
}

/// The model of a `channel_ready_eltoo` message.
pub struct SpecChannelReady {
    pub channel_id: Seq<u8>,
}

impl View for ChannelReady {
    type V = SpecChannelReady;

    open spec fn view(&self) -> SpecChannelReady {
        SpecChannelReady { channel_id: self.channel_id@ }
    }
}

/// The encoding of a `channel_ready_eltoo` message: the channel id and an empty TLV stream.
pub open spec fn encode_channel_ready(m: SpecChannelReady) -> Seq<u8> {
    m.channel_id
}

/// Decodes the body of a `channel_ready_eltoo` message.
pub open spec fn decode_channel_ready(s: Seq<u8>) -> Result<SpecChannelReady, DecodeError> {
    match read_bytes32(s) {
        Err(e) => Err(e),
        Ok((channel_id, s)) => match read_tlvs(TlvSchema::NoneKnown, s) {
            Err(e) => Err(e),
            Ok(_) => Ok(SpecChannelReady { channel_id }),
        },
    }
}

/// A `channel_ready_eltoo` message decodes back from its encoding.
pub proof fn lemma_channel_ready_roundtrip(m: SpecChannelReady)
    requires
        m.channel_id.len() == 32,
    ensures
        decode_channel_ready(encode_channel_ready(m)) == Ok::<SpecChannelReady, DecodeError>(m),
{
    assert(m.channel_id + Seq::<u8>::empty() =~= m.channel_id);
    lemma_read_bytes32_of(m.channel_id, Seq::empty());
    lemma_read_tlvs_none_known();
}

impl ChannelReady {
    /// Appends the encoding of the message.
    pub fn write(&self, w: &mut Vec<u8>)
        ensures
            final(w)@ == old(w)@ + encode_channel_ready(self@),
            decode_channel_ready(encode_channel_ready(self@)) == Ok::<SpecChannelReady, DecodeError>(self@),
    {
        self.channel_id.write(w);
        assert(decode_channel_ready(encode_channel_ready(self@)) == Ok::<SpecChannelReady, DecodeError>(self@)) by {
            lemma_channel_ready_roundtrip(self@);
        }
    }

    /// Decodes the body of a `channel_ready_eltoo` message.
    pub fn read_from_fixed_length_buffer(buf: &[u8]) -> (r: Result<ChannelReady, DecodeError>)
        ensures
            decodes_as(r, decode_channel_ready(buf@)),
    {
        assert(buf@.skip(0) =~= buf@);
        let (channel_id, p) = get_channel_id(buf, 0)?;
        let _ = get_tlv_stream(TlvSchema::NoneKnown, buf, p)?;
        Ok(ChannelReady { channel_id })
    }
}

// ---------------------------------------------------------------------------------------
// shutdown_eltoo
// ---------------------------------------------------------------------------------------

/// A `shutdown_eltoo` message to be sent to or received from a peer.
#[derive(Clone, Debug, Hash, PartialEq, Eq)]
pub struct Shutdown {
    /// Channel ID
    pub channel_id: ChannelId,
    /// script_pubkey to lock funds for sender
    pub script_pubkey: Vec<u8>,
    /// Pre-exchange the nonce required for the next update transaction
    pub next_nonce: PublicNonce,
}

/// The model of a `shutdown_eltoo` message.
pub struct SpecShutdown {
    pub channel_id: Seq<u8>,
    pub script_pubkey: Seq<u8>,
    pub next_nonce: Seq<u8>,
}

impl View for Shutdown {
    type V = SpecShutdown;

    open spec fn view(&self) -> SpecShutdown {
        SpecShutdown {
            channel_id: self.channel_id@,
            script_pubkey: self.script_pubkey@,
            next_nonce: self.next_nonce@,
        }
    }
}

/// The encoding of a `shutdown_eltoo` message: the channel id, the script's length as a
/// `u16` (its low 16 bits), the script, the nonce, and an empty TLV stream.
pub open spec fn encode_shutdown(m: SpecShutdown) -> Seq<u8> {
    m.channel_id + (be16(m.script_pubkey.len() as u16) + (m.script_pubkey + m.next_nonce))
}

/// Decodes the body of a `shutdown_eltoo` message.
pub open spec fn decode_shutdown(s: Seq<u8>) -> Result<SpecShutdown, DecodeError> {
    match read_bytes32(s) {
        Err(e) => Err(e),
        Ok((channel_id, s)) => match read_u16(s) {
            Err(e) => Err(e),
            Ok((len, s)) => match read_bytes(s, len as nat) {
                Err(e) => Err(e),
                Ok((script_pubkey, s)) => match read_public_nonce(s) {
                    Err(e) => Err(e),
                    Ok((next_nonce, s)) => match read_tlvs(TlvSchema::NoneKnown, s) {
                        Err(e) => Err(e),
                        Ok(_) => Ok(SpecShutdown { channel_id, script_pubkey, next_nonce }),
                    },
                },
            },
        },
    }
}

/// A `shutdown_eltoo` message whose script is at most 65535 bytes long decodes back from its
/// encoding.
pub proof fn lemma_shutdown_roundtrip(m: SpecShutdown)
    requires
        m.channel_id.len() == 32,
        m.script_pubkey.len() <= u16::MAX,
        is_public_nonce(m.next_nonce),
    ensures
        decode_shutdown(encode_shutdown(m)) == Ok::<SpecShutdown, DecodeError>(m),
{
    let e = Seq::<u8>::empty();
    let t3 = m.next_nonce + e;
    let t2 = m.script_pubkey + t3;
    let t1 = be16(m.script_pubkey.len() as u16) + t2;
    assert(encode_shutdown(m) =~= m.channel_id + t1);
    lemma_read_bytes32_of(m.channel_id, t1);
    lemma_read_u16_of(m.script_pubkey.len() as u16, t2);
    crate::ser::lemma_read_bytes_of(m.script_pubkey, t3);
    lemma_read_public_nonce_of(m.next_nonce, e);
    lemma_read_tlvs_none_known();
}

impl Shutdown {
    /// Appends the encoding of the message.
    pub fn write(&self, w: &mut Vec<u8>)
        ensures
            final(w)@ == old(w)@ + encode_shutdown(self@),
            self.script_pubkey@.len() <= u16::MAX ==> decode_shutdown(encode_shutdown(self@)) == Ok::<SpecShutdown, DecodeError>(self@),
    {
        let ghost w0 = w@;
        self.channel_id.write(w);
        put_u16(w, self.script_pubkey.len() as u16);
        put_bytes(w, self.script_pubkey.as_slice());
        self.next_nonce.write(w);
        assert(w@ =~= w0 + encode_shutdown(self@));
        proof {
            if self.script_pubkey@.len() <= u16::MAX { lemma_shutdown_roundtrip(self@); }
        }
    }

    /// Decodes the body of a `shutdown_eltoo` message.
    pub fn read_from_fixed_length_buffer(buf: &[u8]) -> (r: Result<Shutdown, DecodeError>)
        ensures
            decodes_as(r, decode_shutdown(buf@)),
    {
        assert(buf@.skip(0) =~= buf@);
        let (channel_id, p) = get_channel_id(buf, 0)?;
        let (len, p) = get_u16(buf, p)?;
        let (script_pubkey, p) = get_vec(buf, p, len as u64)?;
        let (next_nonce, p) = get_public_nonce(buf, p)?;
        let _ = get_tlv_stream(TlvSchema::NoneKnown, buf, p)?;
        Ok(Shutdown { channel_id, script_pubkey, next_nonce })
    }
}

// ---------------------------------------------------------------------------------------
// closing_signed_eltoo
// ---------------------------------------------------------------------------------------

/// A `closing_signed_eltoo` message to be sent to or received from a peer.
#[derive(Clone, Debug, Hash, PartialEq, Eq)]
pub struct ClosingSigned {
    /// Channel ID
    pub channel_id: ChannelId,
    /// Fee proposal amount, in satoshis
    pub fee: u64,
    /// The minimum and maximum fees which the sender is willing to accept, provided only by
    /// new nodes.
    pub fee_range: Option<ClosingSignedFeeRange>,
    pub nonce: Option<PublicNonce>,
    pub partial_signature: Option<PartialSignature>,
}

/// The model of a `closing_signed_eltoo` message.
pub struct SpecClosingSigned {
    pub channel_id: Seq<u8>,
    pub fee: u64,
    pub fee_range: Option<(u64, u64)>,
    pub nonce: Option<Seq<u8>>,
    pub partial_signature: Option<Seq<u8>>,
}

impl SpecClosingSigned {
    /// What the types of the fields guarantee of a message.
    pub open spec fn wf(self) -> bool {
        &&& self.channel_id.len() == 32
        &&& self.nonce matches Some(n) ==> is_public_nonce(n)
        &&& self.partial_signature matches Some(p) ==> is_partial_signature(p)
    }
}

impl View for ClosingSigned {
    type V = SpecClosingSigned;

    open spec fn view(&self) -> SpecClosingSigned {
        SpecClosingSigned {
            channel_id: self.channel_id@,
            fee: self.fee,
            fee_range: match self.fee_range {
                Some(r) => Some((r.min_fee_satoshis, r.max_fee_satoshis)),
                None => None,
            },
            nonce: match self.nonce {
                Some(n) => Some(n@),
                None => None,
            },
            partial_signature: match self.partial_signature {
                Some(p) => Some(p@),
                None => None,
            },
        }
    }
}

/// The value of the fee range record.
pub open spec fn fee_range_record(r: Option<(u64, u64)>) -> Option<Seq<u8>> {
    match r {
        Some((min, max)) => Some(encode_fee_range(min, max)),
        None => None,
    }
}

/// The encoding of a `closing_signed_eltoo` message: the channel id and fee, then the fee
/// range, nonce and partial signature as TLV records 0, 2 and 3, each when present.
pub open spec fn encode_closing_signed(m: SpecClosingSigned) -> Seq<u8> {
    m.channel_id + (be64(m.fee) + (opt_tlv_record(0, fee_range_record(m.fee_range)) + (
    opt_tlv_record(2, m.nonce) + opt_tlv_record(3, m.partial_signature))))
}

/// The fee range that a record value holds: two big-endian `u64`.
pub open spec fn fee_range_of(v: Option<Seq<u8>>) -> Option<(u64, u64)> {
    match v {
        Some(b) => Some((crate::ser::u64_from_be(b), crate::ser::u64_from_be(b.skip(8)))),
        None => None,
    }
}

/// Decodes the body of a `closing_signed_eltoo` message.
pub open spec fn decode_closing_signed(s: Seq<u8>) -> Result<SpecClosingSigned, DecodeError> {
    match read_bytes32(s) {
        Err(e) => Err(e),
        Ok((channel_id, s)) => match read_u64(s) {
            Err(e) => Err(e),
            Ok((fee, s)) => match read_tlvs(TlvSchema::ClosingSigned, s) {
                Err(e) => Err(e),
                Ok(t) => Ok(
                    SpecClosingSigned {
                        channel_id,
                        fee,
                        fee_range: fee_range_of(t.r0),
                        nonce: t.r2,
                        partial_signature: t.r3,
                    },
                ),
            },
        },
    }
}

/// A `closing_signed_eltoo` message decodes back from its encoding.
#[verifier::rlimit(50)]
pub proof fn lemma_closing_signed_roundtrip(m: SpecClosingSigned)
    requires
        m.wf(),
    ensures
        decode_closing_signed(encode_closing_signed(m)) == Ok::<SpecClosingSigned, DecodeError>(m),
{
    let fr = fee_range_record(m.fee_range);
    let tlvs = opt_tlv_record(0, fr) + (opt_tlv_record(2, m.nonce) + opt_tlv_record(
        3,
        m.partial_signature,
    ));
    let t1 = be64(m.fee) + tlvs;
    lemma_read_bytes32_of(m.channel_id, t1);
    lemma_read_u64_of(m.fee, tlvs);
    if let Some((min, max)) = m.fee_range {
        crate::ser::lemma_read_u64_of(min, be64(max));
        crate::ser::lemma_read_u64_of(max, Seq::empty());
        assert(be64(max) + Seq::<u8>::empty() =~= be64(max));
        crate::ser::lemma_be64(min);
        crate::ser::lemma_be64(max);
        assert(encode_fee_range(min, max).skip(8) =~= be64(max));
    }
    lemma_read_tlvs_closing_signed(fr, m.nonce, m.partial_signature);
}

impl ClosingSigned {
    /// Appends the encoding; the message's fields are well formed, by their types' invariants.
    #[verifier::rlimit(50)]
    fn write_fields(&self, w: &mut Vec<u8>)
        ensures
            final(w)@ == old(w)@ + encode_closing_signed(self@),
            self@.wf(),
    {
        let ghost w0 = w@;
        self.channel_id.write(w);
        put_u64(w, self.fee);
        let ghost w1 = w@;
        match &self.fee_range {
            Some(r) => {
                let mut v: Vec<u8> = Vec::new();
                put_u64(&mut v, r.min_fee_satoshis);
                put_u64(&mut v, r.max_fee_satoshis);
                assert(v@ =~= encode_fee_range(r.min_fee_satoshis, r.max_fee_satoshis));
                put_tlv_record(w, 0, v.as_slice());
            },
            None => {},
        }
        assert(w@ =~= w1 + opt_tlv_record(0, fee_range_record(self@.fee_range)));
        let ghost w2 = w@;
        match &self.nonce {
            Some(n) => {
                let b = n.serialize();
                put_tlv_record(w, 2, &b);
            },
            None => {},
        }
        assert(w@ =~= w2 + opt_tlv_record(2, self@.nonce));
        let ghost w3 = w@;
        match &self.partial_signature {
            Some(sig) => {
                let b = sig.serialize();
                put_tlv_record(w, 3, &b);
            },
            None => {},
        }
        assert(w@ =~= w3 + opt_tlv_record(3, self@.partial_signature));
        assert(w@ =~= w0 + encode_closing_signed(self@));
    }

    /// Appends the encoding of the message.
    pub fn write(&self, w: &mut Vec<u8>)
        ensures
            final(w)@ == old(w)@ + encode_closing_signed(self@),
            decode_closing_signed(encode_closing_signed(self@)) == Ok::<SpecClosingSigned, DecodeError>(self@),
    {
        self.write_fields(w);
        proof {
            lemma_closing_signed_roundtrip(self@);
        }
    }

    /// Decodes the body of a `closing_signed_eltoo` message.
    #[verifier::rlimit(50)]
    pub fn read_from_fixed_length_buffer(buf: &[u8]) -> (r: Result<ClosingSigned, DecodeError>)
        ensures
            decodes_as(r, decode_closing_signed(buf@)),
    {
        assert(buf@.skip(0) =~= buf@);
        let (channel_id, p) = get_channel_id(buf, 0)?;
        let (fee, p) = get_u64(buf, p)?;
        let tlvs = get_tlv_stream(TlvSchema::ClosingSigned, buf, p)?;
        let fee_range = match &tlvs.r0 {
            Some(v) => {
                assert(v@.skip(0) =~= v@);
                let (min_fee_satoshis, _) = get_u64(v.as_slice(), 0)?;
                let (max_fee_satoshis, _) = get_u64(v.as_slice(), 8)?;
                Some(ClosingSignedFeeRange { min_fee_satoshis, max_fee_satoshis })
            },
            None => None,
        };
        let nonce = match &tlvs.r2 {
            Some(v) => {
                assert(v@.skip(0) =~= v@);
                let (n, _) = get_public_nonce(v.as_slice(), 0)?;
                Some(n)
            },
            None => None,
        };
        let partial_signature = match &tlvs.r3 {
            Some(v) => {
                assert(v@.skip(0) =~= v@);
                let (sig, _) = get_partial_signature(v.as_slice(), 0)?;
                Some(sig)
            },
            None => None,
        };
        Ok(ClosingSigned { channel_id, fee, fee_range, nonce, partial_signature })
    }
}

// ---------------------------------------------------------------------------------------
// channel_reestablish_eltoo
// ---------------------------------------------------------------------------------------

/// A `channel_reestablish_eltoo` message to be sent to or received from a peer.
#[derive(Clone, Debug, Hash, PartialEq, Eq)]
pub struct ChannelReestablish {
    /// Channel ID
    pub channel_id: ChannelId,
    pub last_update_number: u64,
    pub update_partial_signature: PartialSignature,
    /// Pre-exchange the nonce required for the next update transaction
    pub fresh_nonce: PublicNonce,
}

/// The model of a `channel_reestablish_eltoo` message.
pub struct SpecChannelReestablish {
    pub channel_id: Seq<u8>,
    pub last_update_number: u64,
    pub update_partial_signature: Seq<u8>,
    pub fresh_nonce: Seq<u8>,
}

impl SpecChannelReestablish {
    /// What the types of the fields guarantee of a message.
    pub open spec fn wf(self) -> bool {
        &&& self.channel_id.len() == 32
        &&& is_partial_signature(self.update_partial_signature)
        &&& is_public_nonce(self.fresh_nonce)
    }
}

impl View for ChannelReestablish {
    type V = SpecChannelReestablish;

    open spec fn view(&self) -> SpecChannelReestablish {
        SpecChannelReestablish {
            channel_id: self.channel_id@,
            last_update_number: self.last_update_number,
            update_partial_signature: self.update_partial_signature@,
            fresh_nonce: self.fresh_nonce@,
        }
    }
}

/// The encoding of a `channel_reestablish_eltoo` message: its four fields in order and an
/// empty TLV stream.
pub open spec fn encode_channel_reestablish(m: SpecChannelReestablish) -> Seq<u8> {
    m.channel_id + (be64(m.last_update_number) + (m.update_partial_signature + m.fresh_nonce))
}

/// Decodes the body of a `channel_reestablish_eltoo` message.
pub open spec fn decode_channel_reestablish(s: Seq<u8>) -> Result<SpecChannelReestablish, DecodeError> {
    match read_bytes32(s) {
        Err(e) => Err(e),
        Ok((channel_id, s)) => match read_u64(s) {
            Err(e) => Err(e),
            Ok((last_update_number, s)) => match read_partial_signature(s) {
                Err(e) => Err(e),
                Ok((update_partial_signature, s)) => match read_public_nonce(s) {
                    Err(e) => Err(e),
                    Ok((fresh_nonce, s)) => match read_tlvs(TlvSchema::NoneKnown, s) {
                        Err(e) => Err(e),
                        Ok(_) => Ok(
                            SpecChannelReestablish {
                                channel_id,
                                last_update_number,
                                update_partial_signature,
                                fresh_nonce,
                            },
                        ),
                    },
                },
            },
        },
    }
}

/// A `channel_reestablish_eltoo` message decodes back from its encoding.
pub proof fn lemma_channel_reestablish_roundtrip(m: SpecChannelReestablish)
    requires
        m.wf(),
    ensures
        decode_channel_reestablish(encode_channel_reestablish(m)) == Ok::<
            SpecChannelReestablish,
            DecodeError,
        >(m),
{
    let e = Seq::<u8>::empty();
    let t3 = m.fresh_nonce + e;
    let t2 = m.update_partial_signature + t3;
    let t1 = be64(m.last_update_number) + t2;
    assert(encode_channel_reestablish(m) =~= m.channel_id + t1);
    lemma_read_bytes32_of(m.channel_id, t1);
    lemma_read_u64_of(m.last_update_number, t2);
    lemma_read_partial_signature_of(m.update_partial_signature, t3);
    lemma_read_public_nonce_of(m.fresh_nonce, e);
    lemma_read_tlvs_none_known();
}

impl ChannelReestablish {
    /// Appends the encoding; the message's fields are well formed, by their types' invariants.
    #[verifier::rlimit(50)]
    fn write_fields(&self, w: &mut Vec<u8>)
        ensures
            final(w)@ == old(w)@ + encode_channel_reestablish(self@),
            self@.wf(),
    {
        let ghost w0 = w@;
        self.channel_id.write(w);
        put_u64(w, self.last_update_number);
        self.update_partial_signature.write(w);
        self.fresh_nonce.write(w);
        assert(w@ =~= w0 + encode_channel_reestablish(self@));
    }

    /// Appends the encoding of the message.
    pub fn write(&self, w: &mut Vec<u8>)
        ensures
            final(w)@ == old(w)@ + encode_channel_reestablish(self@),
            decode_channel_reestablish(encode_channel_reestablish(self@)) == Ok::<SpecChannelReestablish, DecodeError>(self@),
    {
        self.write_fields(w);
        proof {
            lemma_channel_reestablish_roundtrip(self@);
        }
    }

    /// Decodes the body of a `channel_reestablish_eltoo` message.
    pub fn read_from_fixed_length_buffer(buf: &[u8]) -> (r: Result<ChannelReestablish, DecodeError>)
        ensures
            decodes_as(r, decode_channel_reestablish(buf@)),
    {
        assert(buf@.skip(0) =~= buf@);
        let (channel_id, p) = get_channel_id(buf, 0)?;
        let (last_update_number, p) = get_u64(buf, p)?;
        let (update_partial_signature, p) = get_partial_signature(buf, p)?;
        let (fresh_nonce, p) = get_public_nonce(buf, p)?;
        let _ = get_tlv_stream(TlvSchema::NoneKnown, buf, p)?;
        Ok(ChannelReestablish { channel_id, last_update_number, update_partial_signature, fresh_nonce })
    }
}



// ---------------------------------------------------------------------------------------
// Where each field stands in an encoding
// ---------------------------------------------------------------------------------------

/// The layout of `open_channel_eltoo`: chain hash at 0, temporary channel id at 32, funding
/// amount at 64, push value at 72, maximum HTLC value in flight at 80, HTLC minimum at 88,
/// shared delay at 96, maximum accepted HTLCs at 98, funding key at 100, settlement key at
/// 133, channel flags at 166, next nonce at 167, and the TLV stream from 233 on.
#[verifier::rlimit(50)]
pub proof fn lemma_open_channel_layout(m: SpecOpenChannel)
    requires
        m.wf(),
    ensures
        encode_open_channel(m).len() >= 233,
        encode_open_channel(m).subrange(0, 32) == m.chain_hash,
        encode_open_channel(m).subrange(32, 64) == m.temporary_channel_id,
        encode_open_channel(m).subrange(64, 72) == be64(m.funding_amount),
        encode_open_channel(m).subrange(72, 80) == be64(m.push_value),
        encode_open_channel(m).subrange(80, 88) == be64(m.max_htlc_value_in_flight),
        encode_open_channel(m).subrange(88, 96) == be64(m.htlc_minimum_value),
        encode_open_channel(m).subrange(96, 98) == be16(m.shared_delay),
        encode_open_channel(m).subrange(98, 100) == be16(m.max_accepted_htlcs),
        encode_open_channel(m).subrange(100, 133) == m.funding_pubkey,
        encode_open_channel(m).subrange(133, 166) == m.settlement_pubkey,
        encode_open_channel(m)[166] == m.channel_flags,
        encode_open_channel(m).subrange(167, 233) == m.next_nonce,
        encode_open_channel(m).skip(233) == opt_tlv_record(0, m.shutdown_scriptpubkey)
            + opt_tlv_record(1, m.channel_type),
{
    crate::ser::lemma_be64(m.funding_amount);
    crate::ser::lemma_be64(m.push_value);
    crate::ser::lemma_be64(m.max_htlc_value_in_flight);
    crate::ser::lemma_be64(m.htlc_minimum_value);
    crate::ser::lemma_be16(m.shared_delay);
    crate::ser::lemma_be16(m.max_accepted_htlcs);
    let a = encode_open_channel_amounts(m);
    let k = encode_channel_keys(
        m.shared_delay,
        m.max_accepted_htlcs,
        m.funding_pubkey,
        m.settlement_pubkey,
        Some(m.channel_flags),
        m.next_nonce,
    );
    let t = encode_opening_tlvs(m.shutdown_scriptpubkey, m.channel_type);
    let e = encode_open_channel(m);
    assert(a =~= m.chain_hash + m.temporary_channel_id + be64(m.funding_amount) + be64(m.push_value)
        + be64(m.max_htlc_value_in_flight) + be64(m.htlc_minimum_value));
    assert(k =~= be16(m.shared_delay) + be16(m.max_accepted_htlcs) + m.funding_pubkey
        + m.settlement_pubkey + seq![m.channel_flags] + m.next_nonce);
    assert(a.len() == 96);
    assert(k.len() == 137);
    assert(e == a + (k + t));
    assert(e.subrange(0, 32) =~= m.chain_hash);
    assert(e.subrange(32, 64) =~= m.temporary_channel_id);
    assert(e.subrange(64, 72) =~= be64(m.funding_amount));
    assert(e.subrange(72, 80) =~= be64(m.push_value));
    assert(e.subrange(80, 88) =~= be64(m.max_htlc_value_in_flight));
    assert(e.subrange(88, 96) =~= be64(m.htlc_minimum_value));
    assert(e.subrange(96, 98) =~= be16(m.shared_delay));
    assert(e.subrange(98, 100) =~= be16(m.max_accepted_htlcs));
    assert(e.subrange(100, 133) =~= m.funding_pubkey);
    assert(e.subrange(133, 166) =~= m.settlement_pubkey);
    assert(e.subrange(167, 233) =~= m.next_nonce);
    assert(e.skip(233) =~= t);
}

/// The layout of `accept_channel_eltoo`: temporary channel id at 0, maximum HTLC value in
/// flight at 32, HTLC minimum at 40, minimum depth at 48, shared delay at 52, maximum accepted
/// HTLCs at 54, funding key at 56, settlement key at 89, next nonce at 122, and the TLV stream
/// from 188 on.
#[verifier::rlimit(50)]
pub proof fn lemma_accept_channel_layout(m: SpecAcceptChannel)
    requires
        m.wf(),
    ensures
        encode_accept_channel(m).len() >= 188,
        encode_accept_channel(m).subrange(0, 32) == m.temporary_channel_id,
        encode_accept_channel(m).subrange(32, 40) == be64(m.max_htlc_value_in_flight),
        encode_accept_channel(m).subrange(40, 48) == be64(m.htlc_minimum_value),
        encode_accept_channel(m).subrange(48, 52) == be32(m.minimum_depth),
        encode_accept_channel(m).subrange(52, 54) == be16(m.shared_delay),
        encode_accept_channel(m).subrange(54, 56) == be16(m.max_accepted_htlcs),
        encode_accept_channel(m).subrange(56, 89) == m.funding_pubkey,
        encode_accept_channel(m).subrange(89, 122) == m.settlement_pubkey,
        encode_accept_channel(m).subrange(122, 188) == m.next_nonce,
        encode_accept_channel(m).skip(188) == opt_tlv_record(0, m.shutdown_scriptpubkey)
            + opt_tlv_record(1, m.channel_type),
{
    crate::ser::lemma_be64(m.max_htlc_value_in_flight);
    crate::ser::lemma_be64(m.htlc_minimum_value);
    crate::ser::lemma_be32(m.minimum_depth);
    crate::ser::lemma_be16(m.shared_delay);
    crate::ser::lemma_be16(m.max_accepted_htlcs);
    let a = encode_accept_channel_amounts(m);
    let k = encode_channel_keys(
        m.shared_delay,
        m.max_accepted_htlcs,
        m.funding_pubkey,
        m.settlement_pubkey,
        None,
        m.next_nonce,
    );
    let t = encode_opening_tlvs(m.shutdown_scriptpubkey, m.channel_type);
    let e = encode_accept_channel(m);
    assert(a =~= m.temporary_channel_id + be64(m.max_htlc_value_in_flight) + be64(m.htlc_minimum_value)
        + be32(m.minimum_depth));
    assert(k =~= be16(m.shared_delay) + be16(m.max_accepted_htlcs) + m.funding_pubkey
        + m.settlement_pubkey + m.next_nonce);
    assert(a.len() == 52);
    assert(k.len() == 136);
    assert(e == a + (k + t));
    assert(e.subrange(0, 32) =~= m.temporary_channel_id);
    assert(e.subrange(32, 40) =~= be64(m.max_htlc_value_in_flight));
    assert(e.subrange(40, 48) =~= be64(m.htlc_minimum_value));
    assert(e.subrange(48, 52) =~= be32(m.minimum_depth));
    assert(e.subrange(52, 54) =~= be16(m.shared_delay));
    assert(e.subrange(54, 56) =~= be16(m.max_accepted_htlcs));
    assert(e.subrange(56, 89) =~= m.funding_pubkey);
    assert(e.subrange(89, 122) =~= m.settlement_pubkey);
    assert(e.subrange(122, 188) =~= m.next_nonce);
    assert(e.skip(188) =~= t);
}

/// The layout of `funding_created_eltoo`: temporary channel id at 0, funding txid at 32, the
/// funding output index as a `u16` at 64, the partial signature at 66 and the next nonce at 98,
/// 164 bytes in all.
pub proof fn lemma_funding_created_layout(m: SpecFundingCreated)
    requires
        m.wf(),
    ensures
        encode_funding_created(m).len() == 164,
        encode_funding_created(m).subrange(0, 32) == m.temporary_channel_id,
        encode_funding_created(m).subrange(32, 64) == m.funding_txid,
        encode_funding_created(m).subrange(64, 66) == be16(m.funding_output_index as u16),
        encode_funding_created(m).subrange(66, 98) == m.update_partial_signature,
        encode_funding_created(m).subrange(98, 164) == m.next_nonce,
{
    crate::ser::lemma_be16(m.funding_output_index as u16);
    let e = encode_funding_created(m);
    assert(e =~= m.temporary_channel_id + m.funding_txid + be16(m.funding_output_index as u16)
        + m.update_partial_signature + m.next_nonce);
    assert(e.subrange(0, 32) =~= m.temporary_channel_id);
    assert(e.subrange(32, 64) =~= m.funding_txid);
    assert(e.subrange(64, 66) =~= be16(m.funding_output_index as u16));
    assert(e.subrange(66, 98) =~= m.update_partial_signature);
    assert(e.subrange(98, 164) =~= m.next_nonce);
}

/// The layout of `funding_signed_eltoo`, `update_signed` and `update_signed_ack`: channel id at
/// 0, partial signature at 32, next nonce at 64, 130 bytes in all.
pub proof fn lemma_signed_update_layout(m: SpecSignedUpdate)
    requires
        m.wf(),
    ensures
        encode_signed_update(m).len() == 130,
        encode_signed_update(m).subrange(0, 32) == m.channel_id,
        encode_signed_update(m).subrange(32, 64) == m.update_partial_signature,
        encode_signed_update(m).subrange(64, 130) == m.next_nonce,
{
    let e = encode_signed_update(m);
    assert(e.subrange(0, 32) =~= m.channel_id);
    assert(e.subrange(32, 64) =~= m.update_partial_signature);
    assert(e.subrange(64, 130) =~= m.next_nonce);
}

/// The layout of `channel_ready_eltoo`: the 32 bytes of the channel id and nothing else.
pub proof fn lemma_channel_ready_layout(m: SpecChannelReady)
    requires
        m.channel_id.len() == 32,
    ensures
        encode_channel_ready(m) == m.channel_id,
{
}

/// The layout of `shutdown_eltoo`: channel id at 0, the script's length as a `u16` at 32, the
/// script at 34, then the next nonce, which ends the message.
pub proof fn lemma_shutdown_layout(m: SpecShutdown)
    requires
        m.channel_id.len() == 32,
        is_public_nonce(m.next_nonce),
    ensures
        encode_shutdown(m).len() == 34 + m.script_pubkey.len() + 66,
        encode_shutdown(m).subrange(0, 32) == m.channel_id,
        encode_shutdown(m).subrange(32, 34) == be16(m.script_pubkey.len() as u16),
        encode_shutdown(m).subrange(34, 34 + m.script_pubkey.len() as int) == m.script_pubkey,
        encode_shutdown(m).skip(34 + m.script_pubkey.len() as int) == m.next_nonce,
{
    crate::ser::lemma_be16(m.script_pubkey.len() as u16);
    let e = encode_shutdown(m);
    let n = m.script_pubkey.len() as int;
    assert(e =~= m.channel_id + be16(m.script_pubkey.len() as u16) + m.script_pubkey + m.next_nonce);
    assert(e.subrange(0, 32) =~= m.channel_id);
    assert(e.subrange(32, 34) =~= be16(m.script_pubkey.len() as u16));
    assert(e.subrange(34, 34 + n) =~= m.script_pubkey);
    assert(e.skip(34 + n) =~= m.next_nonce);
}

/// The layout of `closing_signed_eltoo`: channel id at 0, fee at 32, then the records of the fee
/// range (type 0, two big-endian `u64`), the nonce (type 2) and the partial signature (type 3),
/// each when present.
pub proof fn lemma_closing_signed_layout(m: SpecClosingSigned)
    requires
        m.wf(),
    ensures
        encode_closing_signed(m).len() >= 40,
        encode_closing_signed(m).subrange(0, 32) == m.channel_id,
        encode_closing_signed(m).subrange(32, 40) == be64(m.fee),
        encode_closing_signed(m).skip(40) == opt_tlv_record(
            0,
            match m.fee_range {
                Some((min, max)) => Some(be64(min) + be64(max)),
                None => None,
            },
        ) + opt_tlv_record(2, m.nonce) + opt_tlv_record(3, m.partial_signature),
{
    crate::ser::lemma_be64(m.fee);
    let e = encode_closing_signed(m);
    assert(e.subrange(0, 32) =~= m.channel_id);
    assert(e.subrange(32, 40) =~= be64(m.fee));
    assert(e.skip(40) =~= opt_tlv_record(0, fee_range_record(m.fee_range)) + opt_tlv_record(
        2,
        m.nonce,
    ) + opt_tlv_record(3, m.partial_signature));
}

/// The layout of `channel_reestablish_eltoo`: channel id at 0, last update number at 32, partial
/// signature at 40, fresh nonce at 72, 138 bytes in all.
pub proof fn lemma_channel_reestablish_layout(m: SpecChannelReestablish)
    requires
        m.wf(),
    ensures
        encode_channel_reestablish(m).len() == 138,
        encode_channel_reestablish(m).subrange(0, 32) == m.channel_id,
        encode_channel_reestablish(m).subrange(32, 40) == be64(m.last_update_number),
        encode_channel_reestablish(m).subrange(40, 72) == m.update_partial_signature,
        encode_channel_reestablish(m).subrange(72, 138) == m.fresh_nonce,
{
    crate::ser::lemma_be64(m.last_update_number);
    let e = encode_channel_reestablish(m);
    assert(e =~= m.channel_id + be64(m.last_update_number) + m.update_partial_signature
        + m.fresh_nonce);
    assert(e.subrange(0, 32) =~= m.channel_id);
    assert(e.subrange(32, 40) =~= be64(m.last_update_number));
    assert(e.subrange(40, 72) =~= m.update_partial_signature);
    assert(e.subrange(72, 138) =~= m.fresh_nonce);
}

// ---------------------------------------------------------------------------------------
// Messages and their wire types
// ---------------------------------------------------------------------------------------

impl OpenChannel {
    pub const TYPE: u16 = 32778;
}

impl AcceptChannel {
    pub const TYPE: u16 = 32769;
}

impl FundingCreated {
    pub const TYPE: u16 = 32770;
}

impl FundingSigned {
    pub const TYPE: u16 = 32771;
}

impl ChannelReady {
    pub const TYPE: u16 = 32772;
}

impl Shutdown {
    pub const TYPE: u16 = 32773;
}

impl ClosingSigned {
    pub const TYPE: u16 = 32774;
}

impl UpdateSigned {
    pub const TYPE: u16 = 32775;
}

impl UpdateSignedAck {
    pub const TYPE: u16 = 32776;
}

impl ChannelReestablish {
    pub const TYPE: u16 = 32777;
}

/// An eltoo message of any kind.
#[derive(Clone, Debug)]
pub enum Message {
    OpenChannel(OpenChannel),
    AcceptChannel(AcceptChannel),
    FundingCreated(FundingCreated),
    FundingSigned(FundingSigned),
    ChannelReady(ChannelReady),
    Shutdown(Shutdown),
    ClosingSigned(ClosingSigned),
    UpdateSigned(UpdateSigned),
    UpdateSignedAck(UpdateSignedAck),
    ChannelReestablish(ChannelReestablish),
}

/// The channel that a message is about: the temporary channel id for the messages of channel
/// opening, the channel id for all others.
pub open spec fn message_channel_id(m: Message) -> ChannelId {
    match m {
        Message::OpenChannel(msg) => msg.temporary_channel_id,
        Message::AcceptChannel(msg) => msg.temporary_channel_id,
        Message::FundingCreated(msg) => msg.temporary_channel_id,
        Message::FundingSigned(msg) => msg.channel_id,
        Message::ChannelReady(msg) => msg.channel_id,
        Message::Shutdown(msg) => msg.channel_id,
        Message::ClosingSigned(msg) => msg.channel_id,
        Message::UpdateSigned(msg) => msg.channel_id,
        Message::UpdateSignedAck(msg) => msg.channel_id,
        Message::ChannelReestablish(msg) => msg.channel_id,
    }
}

/// The wire type of a message.
pub open spec fn message_type_id(m: Message) -> u16 {
    match m {
        Message::OpenChannel(_) => OpenChannel::TYPE,
        Message::AcceptChannel(_) => AcceptChannel::TYPE,
        Message::FundingCreated(_) => FundingCreated::TYPE,
        Message::FundingSigned(_) => FundingSigned::TYPE,
        Message::ChannelReady(_) => ChannelReady::TYPE,
        Message::Shutdown(_) => Shutdown::TYPE,
        Message::ClosingSigned(_) => ClosingSigned::TYPE,
        Message::UpdateSigned(_) => UpdateSigned::TYPE,
        Message::UpdateSignedAck(_) => UpdateSignedAck::TYPE,
        Message::ChannelReestablish(_) => ChannelReestablish::TYPE,
    }
}

/// Which of the ten kinds of message `m` is, numbered in the order of the variants.
pub open spec fn message_kind(m: Message) -> nat {
    match m {
        Message::OpenChannel(_) => 0,
        Message::AcceptChannel(_) => 1,
        Message::FundingCreated(_) => 2,
        Message::FundingSigned(_) => 3,
        Message::ChannelReady(_) => 4,
        Message::Shutdown(_) => 5,
        Message::ClosingSigned(_) => 6,
        Message::UpdateSigned(_) => 7,
        Message::UpdateSignedAck(_) => 8,
        Message::ChannelReestablish(_) => 9,
    }
}

/// The encoding of the body of a message.
pub open spec fn encode_message(m: Message) -> Seq<u8> {
    match m {
        Message::OpenChannel(msg) => encode_open_channel(msg@),
        Message::AcceptChannel(msg) => encode_accept_channel(msg@),
        Message::FundingCreated(msg) => encode_funding_created(msg@),
        Message::FundingSigned(msg) => encode_signed_update(msg@),
        Message::ChannelReady(msg) => encode_channel_ready(msg@),
        Message::Shutdown(msg) => encode_shutdown(msg@),
        Message::ClosingSigned(msg) => encode_closing_signed(msg@),
        Message::UpdateSigned(msg) => encode_signed_update(msg@),
        Message::UpdateSignedAck(msg) => encode_signed_update(msg@),
        Message::ChannelReestablish(msg) => encode_channel_reestablish(msg@),
    }
}

/// Two messages have the same wire type exactly when they are of the same kind: the wire
/// type of a message tells its kind.
pub proof fn lemma_message_type_ids_distinct(a: Message, b: Message)
    ensures
        message_type_id(a) == message_type_id(b) <==> message_kind(a) == message_kind(b),
{
}


/// Where the channel id of a message stands in its encoding: after the 32-byte chain hash in
/// `open_channel_eltoo`, at the very start of every other message.
pub open spec fn channel_id_offset(m: Message) -> int {
    match m {
        Message::OpenChannel(_) => 32,
        _ => 0,
    }
}

/// The channel id of a message stands in its encoding at `channel_id_offset`.
pub proof fn lemma_message_channel_id_position(m: Message)
    ensures
        encode_message(m).len() >= channel_id_offset(m) + 32,
        encode_message(m).subrange(channel_id_offset(m), channel_id_offset(m) + 32)
            == message_channel_id(m)@,
{
    let id = message_channel_id(m)@;
    assert(id.len() == 32);
    match m {
        Message::OpenChannel(msg) => {
            let v = msg@;
            assert(v.chain_hash.len() == 32);
            let e = encode_open_channel(v);
            assert(e.subrange(32, 64) =~= id);
        },
        Message::AcceptChannel(msg) => {
            assert(encode_accept_channel(msg@).subrange(0, 32) =~= id);
        },
        Message::FundingCreated(msg) => {
            assert(encode_funding_created(msg@).subrange(0, 32) =~= id);
        },
        Message::FundingSigned(msg) => {
            assert(encode_signed_update(msg@).subrange(0, 32) =~= id);
        },
        Message::ChannelReady(msg) => {
            assert(encode_channel_ready(msg@).subrange(0, 32) =~= id);
        },
        Message::Shutdown(msg) => {
            assert(encode_shutdown(msg@).subrange(0, 32) =~= id);
        },
        Message::ClosingSigned(msg) => {
            assert(encode_closing_signed(msg@).subrange(0, 32) =~= id);
        },
        Message::UpdateSigned(msg) => {
            assert(encode_signed_update(msg@).subrange(0, 32) =~= id);
        },
        Message::UpdateSignedAck(msg) => {
            assert(encode_signed_update(msg@).subrange(0, 32) =~= id);
        },
        Message::ChannelReestablish(msg) => {
            assert(encode_channel_reestablish(msg@).subrange(0, 32) =~= id);
        },
    }
}

impl Message {
    /// The channel that the message is about.
    pub fn channel_id(&self) -> (r: ChannelId)
        ensures
            r == message_channel_id(*self),
    {
        match self {
            Message::OpenChannel(msg) => msg.temporary_channel_id,
            Message::AcceptChannel(msg) => msg.temporary_channel_id,
            Message::FundingCreated(msg) => msg.temporary_channel_id,
            Message::FundingSigned(msg) => msg.channel_id,
            Message::ChannelReady(msg) => msg.channel_id,
            Message::Shutdown(msg) => msg.channel_id,
            Message::ClosingSigned(msg) => msg.channel_id,
            Message::UpdateSigned(msg) => msg.channel_id,
            Message::UpdateSignedAck(msg) => msg.channel_id,
            Message::ChannelReestablish(msg) => msg.channel_id,
        }
    }

    /// Appends the encoding of the body of the message. A `funding_created_eltoo` message
    /// must have a funding output index that fits in 16 bits.
    pub fn write(&self, w: &mut Vec<u8>)
        requires
            *self matches Message::FundingCreated(msg) ==> msg.funding_outpoint.vout <= u16::MAX,
        ensures
            final(w)@ == old(w)@ + encode_message(*self),
            encode_message(*self).subrange(channel_id_offset(*self), channel_id_offset(*self) + 32)
                == message_channel_id(*self)@,
    {
        proof {
            lemma_message_channel_id_position(*self);
        }
        match self {
            Message::OpenChannel(msg) => msg.write(w),
            Message::AcceptChannel(msg) => msg.write(w),
            Message::FundingCreated(msg) => msg.write(w),
            Message::FundingSigned(msg) => msg.write(w),
            Message::ChannelReady(msg) => msg.write(w),
            Message::Shutdown(msg) => msg.write(w),
            Message::ClosingSigned(msg) => msg.write(w),
            Message::UpdateSigned(msg) => msg.write(w),
            Message::UpdateSignedAck(msg) => msg.write(w),
            Message::ChannelReestablish(msg) => msg.write(w),
        }
    }

    /// The wire type of the message.
    pub fn type_id(&self) -> (r: u16)
        ensures
            r == message_type_id(*self),
    {
        match self {
            Message::OpenChannel(_) => OpenChannel::TYPE,
            Message::AcceptChannel(_) => AcceptChannel::TYPE,
            Message::FundingCreated(_) => FundingCreated::TYPE,
            Message::FundingSigned(_) => FundingSigned::TYPE,
            Message::ChannelReady(_) => ChannelReady::TYPE,
            Message::Shutdown(_) => Shutdown::TYPE,
            Message::ClosingSigned(_) => ClosingSigned::TYPE,
            Message::UpdateSigned(_) => UpdateSigned::TYPE,
            Message::UpdateSignedAck(_) => UpdateSignedAck::TYPE,
            Message::ChannelReestablish(_) => ChannelReestablish::TYPE,
        }
    }
}

} // verus!
