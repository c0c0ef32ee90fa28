//! TLV streams: the sequence of `(type, length, value)` records that ends every eltoo
//! message but `funding_created_eltoo`.
//!
//! A record's type and length are `BigSize` numbers. Types must rise strictly from record to
//! record. A message knows some types (at most the types 0 to 3 here) and says how each one's
//! value reads; an unknown record of an odd type is skipped, one of an even type is refused.
use vstd::prelude::*;

use crate::keys::{
    partial_signature_from_byte_array_is_ok, partial_signature_parses,
    public_nonce_from_byte_array_is_ok, public_nonce_parses, PARTIAL_SIGNATURE_SIZE,
    PUBLIC_NONCE_SIZE,
};
use crate::ser::{
    bigsize, get_array, get_bigsize, get_vec, lemma_read_bigsize_of, lemma_read_bigsize_shrinks,
    put_bigsize, put_bytes, read_bigsize, read_bytes, DecodeError,
};

verus! {

/// How the value of a known record reads.
#[derive(Clone, Copy, Debug, PartialEq, Eq, Structural)]
pub enum TlvValue {
    /// All the bytes of the record, whatever they are (a script, a feature bit field).
    Raw,
    /// Two big-endian `u64`: the fee range of `closing_signed_eltoo`.
    FeeRange,
    /// A MuSig2 public nonce.
    Nonce,
    /// A MuSig2 partial signature.
    PartialSig,
}

/// The TLV records that a message knows.
#[derive(Clone, Copy, Debug, PartialEq, Eq, Structural)]
pub enum TlvSchema {
    /// `open_channel_eltoo`, `accept_channel_eltoo`: 0 the upfront shutdown script, 1 the channel type.
    ChannelOpening,
    /// `closing_signed_eltoo`: 0 the fee range, 2 the nonce, 3 the partial signature.
    ClosingSigned,
    /// Every other message knows none.
    NoneKnown,
}

/// How the value of a record of type `t` reads in a message of schema `schema`, if the
/// message knows the type.
pub open spec fn schema_field(schema: TlvSchema, t: u64) -> Option<TlvValue> {
    match schema {
        TlvSchema::ChannelOpening => if t == 0 || t == 1 {
            Some(TlvValue::Raw)
        } else {
            None
        },
        TlvSchema::ClosingSigned => if t == 0 {
            Some(TlvValue::FeeRange)
        } else if t == 2 {
            Some(TlvValue::Nonce)
        } else if t == 3 {
            Some(TlvValue::PartialSig)
        } else {
            None
        },
        TlvSchema::NoneKnown => None,
    }
}

impl TlvSchema {
    /// How the value of a record of type `t` reads, if the message knows the type.
    pub fn field(&self, t: u64) -> (r: Option<TlvValue>)
        ensures
            r == schema_field(*self, t),
    {
        match self {
            TlvSchema::ChannelOpening => if t == 0 || t == 1 {
                Some(TlvValue::Raw)
            } else {
                None
            },
            TlvSchema::ClosingSigned => if t == 0 {
                Some(TlvValue::FeeRange)
            } else if t == 2 {
                Some(TlvValue::Nonce)
            } else if t == 3 {
                Some(TlvValue::PartialSig)
            } else {
                None
            },
            TlvSchema::NoneKnown => None,
        }
    }
}

/// The size of a value of fixed size.
pub open spec fn fixed_size(kind: TlvValue) -> nat {
    match kind {
        TlvValue::Raw => 0,
        TlvValue::FeeRange => 16,
        TlvValue::Nonce => PUBLIC_NONCE_SIZE as nat,
        TlvValue::PartialSig => PARTIAL_SIGNATURE_SIZE as nat,
    }
}

/// Whether the bytes of a fixed-size value are one that the field may hold.
pub open spec fn fixed_value_valid(kind: TlvValue, b: Seq<u8>) -> bool {
    match kind {
        TlvValue::Nonce => public_nonce_parses(b),
        TlvValue::PartialSig => partial_signature_parses(b),
        _ => true,
    }
}

/// Whether `v` is a value that a record of this kind can carry and read back.
pub open spec fn value_fits(kind: TlvValue, v: Seq<u8>) -> bool {
    match kind {
        TlvValue::Raw => v.len() <= u64::MAX,
        _ => v.len() == fixed_size(kind) && fixed_value_valid(kind, v),
    }
}

/// Reads the value of a record whose length field says `len`, off the front of `s`.
///
/// A raw value is the next `len` bytes. A fixed-size value is read first; a record shorter
/// than the value, or a buffer that ends before it, is a short read; an invalid value is
/// refused; and a record longer than its value is refused as well, unless the buffer ends
/// before the record does.
pub open spec fn read_value(kind: TlvValue, len: u64, s: Seq<u8>) -> Result<(Seq<u8>, Seq<u8>), DecodeError> {
    match kind {
        TlvValue::Raw => read_bytes(s, len as nat),
        _ => {
            let n = fixed_size(kind);
            if len < n || s.len() < n {
                Err(DecodeError::ShortRead)
            } else if !fixed_value_valid(kind, s.take(n as int)) {
                Err(DecodeError::InvalidValue)
            } else if len > n {
                if s.len() < len {
                    Err(DecodeError::ShortRead)
                } else {
                    Err(DecodeError::InvalidValue)
                }
            } else {
                Ok((s.take(n as int), s.skip(n as int)))
            }
        },
    }
}

/// The values of the known records of a stream, by type.
pub struct KnownRecords {
    pub r0: Option<Seq<u8>>,
    pub r1: Option<Seq<u8>>,
    pub r2: Option<Seq<u8>>,
    pub r3: Option<Seq<u8>>,
}

impl KnownRecords {
    /// No known record.
    pub open spec fn empty() -> KnownRecords {
        KnownRecords { r0: None, r1: None, r2: None, r3: None }
    }

    /// The record of type `t` set to `v`.
    pub open spec fn with(self, t: u64, v: Seq<u8>) -> KnownRecords {
        if t == 0 {
            KnownRecords { r0: Some(v), r1: self.r1, r2: self.r2, r3: self.r3 }
        } else if t == 1 {
            KnownRecords { r0: self.r0, r1: Some(v), r2: self.r2, r3: self.r3 }
        } else if t == 2 {
            KnownRecords { r0: self.r0, r1: self.r1, r2: Some(v), r3: self.r3 }
        } else if t == 3 {
            KnownRecords { r0: self.r0, r1: self.r1, r2: self.r2, r3: Some(v) }
        } else {
            self
        }
    }
}

/// Reads the records of a TLV stream that fills all of `s`, after a record of type `last`
/// (if any), adding the values of known records to `acc`.
pub open spec fn read_tlv_stream(
    schema: TlvSchema,
    s: Seq<u8>,
    last: Option<u64>,
    acc: KnownRecords,
) -> Result<KnownRecords, DecodeError>
    decreases s.len(),
{
    if s.len() == 0 {
        Ok(acc)
    } else {
        match read_bigsize(s) {
            Err(e) => Err(e),
            Ok((t, r)) => if last matches Some(l) && t <= l {
                Err(DecodeError::InvalidValue)
            } else {
                proof {
                    lemma_read_bigsize_shrinks(s);
                    lemma_read_bigsize_shrinks(r);
                }
                match read_bigsize(r) {
                    Err(e) => Err(e),
                    Ok((len, r2)) => match schema_field(schema, t) {
                        None => if t % 2 == 0 {
                            Err(DecodeError::UnknownRequiredFeature)
                        } else if r2.len() < len {
                            Err(DecodeError::ShortRead)
                        } else {
                            read_tlv_stream(schema, r2.skip(len as int), Some(t), acc)
                        },
                        Some(kind) => match read_value(kind, len, r2) {
                            Err(e) => Err(e),
                            Ok((v, r3)) => read_tlv_stream(schema, r3, Some(t), acc.with(t, v)),
                        },
                    },
                }
            },
        }
    }
}

/// Reads a whole TLV stream from `s`.
pub open spec fn read_tlvs(schema: TlvSchema, s: Seq<u8>) -> Result<KnownRecords, DecodeError> {
    read_tlv_stream(schema, s, None, KnownRecords::empty())
}

/// The encoding of one record.
pub open spec fn tlv_record(t: u64, v: Seq<u8>) -> Seq<u8> {
    bigsize(t) + (bigsize(v.len() as u64) + v)
}

/// The encoding of an optional record: nothing when the value is absent.
pub open spec fn opt_tlv_record(t: u64, v: Option<Seq<u8>>) -> Seq<u8> {
    match v {
        Some(v) => tlv_record(t, v),
        None => Seq::empty(),
    }
}

/// A stream ends where its bytes end.
pub proof fn lemma_read_tlv_stream_end(schema: TlvSchema, last: Option<u64>, acc: KnownRecords)
    ensures
        read_tlv_stream(schema, Seq::empty(), last, acc) == Ok::<KnownRecords, DecodeError>(acc),
{
}

/// A known record, of a type above the last one, reads back as its value.
#[verifier::rlimit(60)]
pub proof fn lemma_read_tlv_record_of(
    schema: TlvSchema,
    t: u64,
    v: Seq<u8>,
    rest: Seq<u8>,
    last: Option<u64>,
    acc: KnownRecords,
)
    requires
        schema_field(schema, t) matches Some(kind) && value_fits(kind, v),
        last matches Some(l) ==> l < t,
    ensures
        read_tlv_stream(schema, tlv_record(t, v) + rest, last, acc) == read_tlv_stream(
            schema,
            rest,
            Some(t),
            acc.with(t, v),
        ),
{
    let s = tlv_record(t, v) + rest;
    let len = v.len() as u64;
    let kind = schema_field(schema, t)->Some_0;
    assert(s =~= bigsize(t) + (bigsize(len) + (v + rest)));
    lemma_read_bigsize_of(t, bigsize(len) + (v + rest));
    lemma_read_bigsize_of(len, v + rest);
    lemma_read_value_of(kind, v, rest);
    assert(s.len() > 0) by {
        assert(bigsize(t).len() > 0);
    }
}

/// A value that fits its kind reads back from the front of what follows it.
pub proof fn lemma_read_value_of(kind: TlvValue, v: Seq<u8>, rest: Seq<u8>)
    requires
        value_fits(kind, v),
    ensures
        read_value(kind, v.len() as u64, v + rest) == Ok::<(Seq<u8>, Seq<u8>), DecodeError>((v, rest)),
{
    assert((v + rest).take(v.len() as int) =~= v);
    assert((v + rest).skip(v.len() as int) =~= rest);
}


/// An empty stream reads as no record.
pub proof fn lemma_read_tlvs_none_known()
    ensures
        read_tlvs(TlvSchema::NoneKnown, Seq::empty()) == Ok::<KnownRecords, DecodeError>(
            KnownRecords::empty(),
        ),
{
}

/// The stream of a channel-opening message reads back as its two optional records.
#[verifier::rlimit(50)]
pub proof fn lemma_read_tlvs_channel_opening(a: Option<Seq<u8>>, b: Option<Seq<u8>>)
    requires
        a matches Some(x) ==> x.len() <= u64::MAX,
        b matches Some(x) ==> x.len() <= u64::MAX,
    ensures
        read_tlvs(TlvSchema::ChannelOpening, opt_tlv_record(0, a) + opt_tlv_record(1, b)) == Ok::<
            KnownRecords,
            DecodeError,
        >(KnownRecords { r0: a, r1: b, r2: None, r3: None }),
{
    let schema = TlvSchema::ChannelOpening;
    let tail = opt_tlv_record(1, b);
    let mut last: Option<u64> = None;
    let mut acc = KnownRecords::empty();
    if let Some(x) = a {
        lemma_read_tlv_record_of(schema, 0, x, tail, None, acc);
        last = Some(0);
        acc = acc.with(0, x);
    } else {
        assert(opt_tlv_record(0, a) + tail =~= tail);
    }
    // the stream now stands at `tail`, after `last`, with `acc` read
    assert(read_tlvs(schema, opt_tlv_record(0, a) + tail) == read_tlv_stream(schema, tail, last, acc));
    if let Some(y) = b {
        lemma_read_tlv_record_of(schema, 1, y, Seq::empty(), last, acc);
        assert(tlv_record(1, y) + Seq::<u8>::empty() =~= tail);
        lemma_read_tlv_stream_end(schema, Some(1), acc.with(1, y));
    }
}

/// The stream of a `closing_signed_eltoo` message reads back as its three optional records.
#[verifier::rlimit(50)]
pub proof fn lemma_read_tlvs_closing_signed(a: Option<Seq<u8>>, b: Option<Seq<u8>>, c: Option<Seq<u8>>)
    requires
        a matches Some(x) ==> value_fits(TlvValue::FeeRange, x),
        b matches Some(x) ==> value_fits(TlvValue::Nonce, x),
        c matches Some(x) ==> value_fits(TlvValue::PartialSig, x),
    ensures
        read_tlvs(
            TlvSchema::ClosingSigned,
            opt_tlv_record(0, a) + (opt_tlv_record(2, b) + opt_tlv_record(3, c)),
        ) == Ok::<KnownRecords, DecodeError>(KnownRecords { r0: a, r1: None, r2: b, r3: c }),
{
    let schema = TlvSchema::ClosingSigned;
    let tail2 = opt_tlv_record(2, b) + opt_tlv_record(3, c);
    let tail3 = opt_tlv_record(3, c);
    let mut last: Option<u64> = None;
    let mut acc = KnownRecords::empty();
    if let Some(x) = a {
        lemma_read_tlv_record_of(schema, 0, x, tail2, None, acc);
        last = Some(0);
        acc = acc.with(0, x);
    } else {
        assert(opt_tlv_record(0, a) + tail2 =~= tail2);
    }
    assert(read_tlvs(schema, opt_tlv_record(0, a) + tail2) == read_tlv_stream(schema, tail2, last, acc));
    let ghost acc2 = acc;
    let ghost last2 = last;
    if let Some(y) = b {
        lemma_read_tlv_record_of(schema, 2, y, tail3, last, acc);
        last = Some(2);
        acc = acc.with(2, y);
    } else {
        assert(opt_tlv_record(2, b) + tail3 =~= tail3);
    }
    assert(read_tlv_stream(schema, tail2, last2, acc2) == read_tlv_stream(schema, tail3, last, acc));
    if let Some(z) = c {
        lemma_read_tlv_record_of(schema, 3, z, Seq::empty(), last, acc);
        assert(tlv_record(3, z) + Seq::<u8>::empty() =~= tail3);
        lemma_read_tlv_stream_end(schema, Some(3), acc.with(3, z));
    }
}


/// Whether the value of the record of type `t`, if there is one, is a value of a type that
/// the message knows and fits its kind.
pub open spec fn record_fits(schema: TlvSchema, t: u64, v: Option<Seq<u8>>) -> bool {
    v matches Some(x) ==> (schema_field(schema, t) matches Some(kind) && value_fits(kind, x))
}

/// Whether all the values of the known records fit their kinds.
pub open spec fn records_fit(schema: TlvSchema, k: KnownRecords) -> bool {
    &&& record_fits(schema, 0, k.r0)
    &&& record_fits(schema, 1, k.r1)
    &&& record_fits(schema, 2, k.r2)
    &&& record_fits(schema, 3, k.r3)
}

/// The values that a stream yields fit their kinds.
pub proof fn lemma_read_tlv_stream_fits(schema: TlvSchema, s: Seq<u8>, last: Option<u64>, acc: KnownRecords)
    requires
        records_fit(schema, acc),
    ensures
        read_tlv_stream(schema, s, last, acc) matches Ok(k) ==> records_fit(schema, k),
    decreases s.len(),
{
    if s.len() > 0 {
        lemma_read_bigsize_shrinks(s);
        if let Ok((t, r)) = read_bigsize(s) {
            lemma_read_bigsize_shrinks(r);
            if let Ok((len, r2)) = read_bigsize(r) {
                match schema_field(schema, t) {
                    None => {
                        if t % 2 != 0 && r2.len() >= len {
                            lemma_read_tlv_stream_fits(schema, r2.skip(len as int), Some(t), acc);
                        }
                    },
                    Some(kind) => {
                        if let Ok((v, r3)) = read_value(kind, len, r2) {
                            assert(value_fits(kind, v));
                            assert(records_fit(schema, acc.with(t, v)));
                            lemma_read_tlv_stream_fits(schema, r3, Some(t), acc.with(t, v));
                        }
                    },
                }
            }
        }
    }
}

// ---------------------------------------------------------------------------------------
// Executable
// ---------------------------------------------------------------------------------------

/// The values of the known records of a stream, by type.
pub struct TlvRecords {
    pub r0: Option<Vec<u8>>,
    pub r1: Option<Vec<u8>>,
    pub r2: Option<Vec<u8>>,
    pub r3: Option<Vec<u8>>,
}

/// The bytes of an optional byte vector.
pub open spec fn opt_bytes(o: Option<Vec<u8>>) -> Option<Seq<u8>> {
    match o {
        Some(v) => Some(v@),
        None => None,
    }
}

impl View for TlvRecords {
    type V = KnownRecords;

    open spec fn view(&self) -> KnownRecords {
        KnownRecords {
            r0: opt_bytes(self.r0),
            r1: opt_bytes(self.r1),
            r2: opt_bytes(self.r2),
            r3: opt_bytes(self.r3),
        }
    }
}

impl TlvRecords {
    fn new() -> (r: TlvRecords)
        ensures
            r@ == KnownRecords::empty(),
    {
        TlvRecords { r0: None, r1: None, r2: None, r3: None }
    }

    fn set(&mut self, t: u64, v: Vec<u8>)
        ensures
            final(self)@ == old(self)@.with(t, v@),
    {
        if t == 0 {
            self.r0 = Some(v);
        } else if t == 1 {
            self.r1 = Some(v);
        } else if t == 2 {
            self.r2 = Some(v);
        } else if t == 3 {
            self.r3 = Some(v);
        }
    }
}

/// Reads the value of a record whose length field says `len`, at `pos`.
fn get_value(kind: TlvValue, len: u64, buf: &[u8], pos: usize) -> (r: Result<(Vec<u8>, usize), DecodeError>)
    requires
        pos <= buf@.len(),
    ensures
        crate::ser::reads_as(r, read_value(kind, len, buf@.skip(pos as int)), buf@),
{
    let avail = buf.len() - pos;
    match kind {
        TlvValue::Raw => get_vec(buf, pos, len),
        TlvValue::FeeRange => {
            if len < 16 || avail < 16 {
                return Err(DecodeError::ShortRead);
            }
            if len > 16 {
                return if (avail as u64) < len {
                    Err(DecodeError::ShortRead)
                } else {
                    Err(DecodeError::InvalidValue)
                };
            }
            get_vec(buf, pos, 16)
        },
        TlvValue::Nonce => {
            if len < 66 || avail < 66 {
                return Err(DecodeError::ShortRead);
            }
            let (b, p) = get_array::<66>(buf, pos)?;
            if !public_nonce_from_byte_array_is_ok(&b) {
                return Err(DecodeError::InvalidValue);
            }
            if len > 66 {
                return if (avail as u64) < len {
                    Err(DecodeError::ShortRead)
                } else {
                    Err(DecodeError::InvalidValue)
                };
            }
            let mut v: Vec<u8> = Vec::new();
            put_bytes(&mut v, &b);
            Ok((v, p))
        },
        TlvValue::PartialSig => {
            if len < 32 || avail < 32 {
                return Err(DecodeError::ShortRead);
            }
            let (b, p) = get_array::<32>(buf, pos)?;
            if !partial_signature_from_byte_array_is_ok(&b) {
                return Err(DecodeError::InvalidValue);
            }
            if len > 32 {
                return if (avail as u64) < len {
                    Err(DecodeError::ShortRead)
                } else {
                    Err(DecodeError::InvalidValue)
                };
            }
            let mut v: Vec<u8> = Vec::new();
            put_bytes(&mut v, &b);
            Ok((v, p))
        },
    }
}

/// Reads the TLV stream that fills `buf` from `pos` to its end.
#[verifier::rlimit(50)]
pub fn get_tlv_stream(schema: TlvSchema, buf: &[u8], pos: usize) -> (r: Result<TlvRecords, DecodeError>)
    requires
        pos <= buf@.len(),
    ensures
        match read_tlvs(schema, buf@.skip(pos as int)) {
            Ok(k) => r matches Ok(x) && x@ == k,
            Err(e) => r == Err::<TlvRecords, DecodeError>(e),
        },
        r matches Ok(x) ==> records_fit(schema, x@),
{
    proof {
        lemma_read_tlv_stream_fits(schema, buf@.skip(pos as int), None, KnownRecords::empty());
    }
    let mut p = pos;
    let mut last: Option<u64> = None;
    let mut acc = TlvRecords::new();
    while p < buf.len()
        invariant
            p <= buf@.len(),
            read_tlv_stream(schema, buf@.skip(p as int), last, acc@) == read_tlvs(
                schema,
                buf@.skip(pos as int),
            ),
        decreases buf@.len() - p,
    {
        let (t, p1) = get_bigsize(buf, p)?;
        if let Some(l) = last {
            if t <= l {
                return Err(DecodeError::InvalidValue);
            }
        }
        let (len, p2) = get_bigsize(buf, p1)?;
        match schema.field(t) {
            None => {
                if t % 2 == 0 {
                    return Err(DecodeError::UnknownRequiredFeature);
                }
                if ((buf.len() - p2) as u64) < len {
                    return Err(DecodeError::ShortRead);
                }
                let ghost r2 = buf@.skip(p2 as int);
                assert(r2.skip(len as int) =~= buf@.skip(p2 + len));
                p = p2 + len as usize;
            },
            Some(kind) => {
                let (v, p3) = get_value(kind, len, buf, p2)?;
                acc.set(t, v);
                p = p3;
            },
        }
        last = Some(t);
    }
    assert(buf@.skip(p as int) =~= Seq::<u8>::empty());
    Ok(acc)
}

/// Appends one record.
pub fn put_tlv_record(w: &mut Vec<u8>, t: u64, v: &[u8])
    ensures
        final(w)@ == old(w)@ + tlv_record(t, v@),
{
    let ghost w0 = w@;
    put_bigsize(w, t);
    put_bigsize(w, v.len() as u64);
    put_bytes(w, v);
    assert(w@ =~= w0 + tlv_record(t, v@));
}

} // verus!
