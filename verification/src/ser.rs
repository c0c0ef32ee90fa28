//! Primitive wire encodings: big-endian integers, fixed-length byte strings and the
//! `BigSize` variable-length integer of the Lightning wire protocol.
//!
//! Every decoder works on a buffer and a position in it. Its specification is a spec
//! function on the unread rest of the buffer that yields the value read and the rest
//! after it (`Ok((value, rest))`) or the error that reading runs into.
use vstd::prelude::*;

verus! {

/// Why a byte string could not be decoded as a message.
#[derive(Clone, Copy, Debug, PartialEq, Eq, Structural)]
pub enum DecodeError {
    /// The buffer ended in the middle of a field or a record.
    ShortRead,
    /// A field holds a value that it may not hold: a point that is not on the curve, a
    /// `BigSize` that is not minimally encoded, TLV records out of order, or a record whose
    /// value is longer than its field.
    InvalidValue,
    /// A TLV record of an even type that the message does not know.
    UnknownRequiredFeature,
}

// ---------------------------------------------------------------------------------------
// Big-endian integers
// ---------------------------------------------------------------------------------------

/// The two big-endian bytes of `x`.
pub open spec fn be16(x: u16) -> Seq<u8> {
    seq![(x / 0x100) as u8, (x % 0x100) as u8]
}

/// The four big-endian bytes of `x`.
pub open spec fn be32(x: u32) -> Seq<u8> {
    be16((x / 0x1_0000) as u16) + be16((x % 0x1_0000) as u16)
}

/// The eight big-endian bytes of `x`.
pub open spec fn be64(x: u64) -> Seq<u8> {
    be32((x / 0x1_0000_0000) as u32) + be32((x % 0x1_0000_0000) as u32)
}

/// The number whose big-endian encoding is the first two bytes of `s`.
pub open spec fn u16_from_be(s: Seq<u8>) -> u16 {
    (s[0] * 0x100 + s[1]) as u16
}

/// The number whose big-endian encoding is the first four bytes of `s`.
pub open spec fn u32_from_be(s: Seq<u8>) -> u32 {
    (u16_from_be(s) * 0x1_0000 + u16_from_be(s.skip(2))) as u32
}

/// The number whose big-endian encoding is the first eight bytes of `s`.
pub open spec fn u64_from_be(s: Seq<u8>) -> u64 {
    (u32_from_be(s) * 0x1_0000_0000 + u32_from_be(s.skip(4))) as u64
}

pub proof fn lemma_be16(x: u16)
    ensures
        be16(x).len() == 2,
        u16_from_be(be16(x)) == x,
{
}

pub proof fn lemma_be32(x: u32)
    ensures
        be32(x).len() == 4,
        u32_from_be(be32(x)) == x,
{
    let hi = (x / 0x1_0000) as u16;
    let lo = (x % 0x1_0000) as u16;
    lemma_be16(hi);
    lemma_be16(lo);
    assert(be32(x).skip(2) =~= be16(lo));
    assert(u16_from_be(be32(x)) == u16_from_be(be16(hi)));
}

pub proof fn lemma_be64(x: u64)
    ensures
        be64(x).len() == 8,
        u64_from_be(be64(x)) == x,
{
    let hi = (x / 0x1_0000_0000) as u32;
    let lo = (x % 0x1_0000_0000) as u32;
    lemma_be32(hi);
    lemma_be32(lo);
    assert(be64(x).skip(4) =~= be32(lo));
    assert(be64(x).skip(2) =~= be32(hi).skip(2) + be32(lo));
    assert(u32_from_be(be64(x)) == u32_from_be(be32(hi)));
}

/// The first two bytes of `s` decide `u16_from_be(s)`.
pub proof fn lemma_u16_prefix(s: Seq<u8>, t: Seq<u8>)
    requires
        s.len() >= 2,
        t.len() >= 2,
        s.take(2) == t.take(2),
    ensures
        u16_from_be(s) == u16_from_be(t),
{
    assert(s[0] == s.take(2)[0] && s[1] == s.take(2)[1]);
    assert(t[0] == t.take(2)[0] && t[1] == t.take(2)[1]);
}

/// The first four bytes of `s` decide `u32_from_be(s)`.
pub proof fn lemma_u32_prefix(s: Seq<u8>, t: Seq<u8>)
    requires
        s.len() >= 4,
        t.len() >= 4,
        s.take(4) == t.take(4),
    ensures
        u32_from_be(s) == u32_from_be(t),
{
    assert(s.take(2) =~= s.take(4).take(2));
    assert(t.take(2) =~= t.take(4).take(2));
    lemma_u16_prefix(s, t);
    assert(s.skip(2).take(2) =~= s.take(4).skip(2));
    assert(t.skip(2).take(2) =~= t.take(4).skip(2));
    lemma_u16_prefix(s.skip(2), t.skip(2));
}

/// The first eight bytes of `s` decide `u64_from_be(s)`.
pub proof fn lemma_u64_prefix(s: Seq<u8>, t: Seq<u8>)
    requires
        s.len() >= 8,
        t.len() >= 8,
        s.take(8) == t.take(8),
    ensures
        u64_from_be(s) == u64_from_be(t),
{
    assert(s.take(4) =~= s.take(8).take(4));
    assert(t.take(4) =~= t.take(8).take(4));
    lemma_u32_prefix(s, t);
    assert(s.skip(4).take(4) =~= s.take(8).skip(4));
    assert(t.skip(4).take(4) =~= t.take(8).skip(4));
    lemma_u32_prefix(s.skip(4), t.skip(4));
}

// ---------------------------------------------------------------------------------------
// Reading: specifications
// ---------------------------------------------------------------------------------------

/// Reads `n` bytes off the front of `s`.
pub open spec fn read_bytes(s: Seq<u8>, n: nat) -> Result<(Seq<u8>, Seq<u8>), DecodeError> {
    if s.len() < n {
        Err(DecodeError::ShortRead)
    } else {
        Ok((s.take(n as int), s.skip(n as int)))
    }
}

/// Reads one byte off the front of `s`.
pub open spec fn read_u8(s: Seq<u8>) -> Result<(u8, Seq<u8>), DecodeError> {
    if s.len() < 1 {
        Err(DecodeError::ShortRead)
    } else {
        Ok((s[0], s.skip(1)))
    }
}

/// Reads a big-endian `u16` off the front of `s`.
pub open spec fn read_u16(s: Seq<u8>) -> Result<(u16, Seq<u8>), DecodeError> {
    if s.len() < 2 {
        Err(DecodeError::ShortRead)
    } else {
        Ok((u16_from_be(s), s.skip(2)))
    }
}

/// Reads a big-endian `u32` off the front of `s`.
pub open spec fn read_u32(s: Seq<u8>) -> Result<(u32, Seq<u8>), DecodeError> {
    if s.len() < 4 {
        Err(DecodeError::ShortRead)
    } else {
        Ok((u32_from_be(s), s.skip(4)))
    }
}

/// Reads a big-endian `u64` off the front of `s`.
pub open spec fn read_u64(s: Seq<u8>) -> Result<(u64, Seq<u8>), DecodeError> {
    if s.len() < 8 {
        Err(DecodeError::ShortRead)
    } else {
        Ok((u64_from_be(s), s.skip(8)))
    }
}

/// How an executable read of a `T` at `pos` in `buf` relates to the specification `s` of
/// reading it from the rest of `buf`: the same value or the same error, and on success the
/// new position is where the rest begins.
pub open spec fn reads_as<T: View>(
    r: Result<(T, usize), DecodeError>,
    s: Result<(T::V, Seq<u8>), DecodeError>,
    buf: Seq<u8>,
) -> bool {
    match s {
        Ok((v, rest)) => match r {
            Ok((x, p)) => x@ == v && p <= buf.len() && rest == buf.skip(p as int),
            Err(_) => false,
        },
        Err(e) => match r {
            Ok(_) => false,
            Err(e2) => e2 == e,
        },
    }
}


/// How an executable decoding relates to its specification: the same value, by view, or
/// the same error.
pub open spec fn decodes_as<T: View>(r: Result<T, DecodeError>, s: Result<T::V, DecodeError>) -> bool {
    match s {
        Ok(v) => match r {
            Ok(x) => x@ == v,
            Err(_) => false,
        },
        Err(e) => match r {
            Ok(_) => false,
            Err(e2) => e2 == e,
        },
    }
}

// ---------------------------------------------------------------------------------------
// Reading: executable
// ---------------------------------------------------------------------------------------

/// Reads the byte at `pos`.
pub fn get_u8(buf: &[u8], pos: usize) -> (r: Result<(u8, usize), DecodeError>)
    requires
        pos <= buf@.len(),
    ensures
        reads_as(r, read_u8(buf@.skip(pos as int)), buf@),
{
    if buf.len() - pos < 1 {
        return Err(DecodeError::ShortRead);
    }
    let b = buf[pos];
    assert(buf@.skip(pos as int).skip(1) =~= buf@.skip(pos + 1));
    Ok((b, pos + 1))
}

/// Reads a big-endian `u16` at `pos`.
pub fn get_u16(buf: &[u8], pos: usize) -> (r: Result<(u16, usize), DecodeError>)
    requires
        pos <= buf@.len(),
    ensures
        reads_as(r, read_u16(buf@.skip(pos as int)), buf@),
{
    if buf.len() - pos < 2 {
        return Err(DecodeError::ShortRead);
    }
    let x: u16 = (buf[pos] as u16) * 0x100 + (buf[pos + 1] as u16);
    assert(buf@.skip(pos as int).skip(2) =~= buf@.skip(pos + 2));
    Ok((x, pos + 2))
}

/// Reads a big-endian `u32` at `pos`.
pub fn get_u32(buf: &[u8], pos: usize) -> (r: Result<(u32, usize), DecodeError>)
    requires
        pos <= buf@.len(),
    ensures
        reads_as(r, read_u32(buf@.skip(pos as int)), buf@),
{
    if buf.len() - pos < 4 {
        return Err(DecodeError::ShortRead);
    }
    let hi = get_u16(buf, pos);
    let lo = get_u16(buf, pos + 2);
    match (hi, lo) {
        (Ok((h, _)), Ok((l, _))) => {
            let x: u32 = (h as u32) * 0x1_0000 + (l as u32);
            assert(buf@.skip(pos as int).skip(2) =~= buf@.skip(pos + 2));
            assert(buf@.skip(pos as int).skip(4) =~= buf@.skip(pos + 4));
            Ok((x, pos + 4))
        },
        _ => Err(DecodeError::ShortRead),
    }
}

/// Reads a big-endian `u64` at `pos`.
pub fn get_u64(buf: &[u8], pos: usize) -> (r: Result<(u64, usize), DecodeError>)
    requires
        pos <= buf@.len(),
    ensures
        reads_as(r, read_u64(buf@.skip(pos as int)), buf@),
{
    if buf.len() - pos < 8 {
        return Err(DecodeError::ShortRead);
    }
    let hi = get_u32(buf, pos);
    let lo = get_u32(buf, pos + 4);
    match (hi, lo) {
        (Ok((h, _)), Ok((l, _))) => {
            let x: u64 = (h as u64) * 0x1_0000_0000 + (l as u64);
            assert(buf@.skip(pos as int).skip(4) =~= buf@.skip(pos + 4));
            assert(buf@.skip(pos as int).skip(8) =~= buf@.skip(pos + 8));
            Ok((x, pos + 8))
        },
        _ => Err(DecodeError::ShortRead),
    }
}

/// Copies the `N` bytes at `pos` into an array.
pub fn get_array<const N: usize>(buf: &[u8], pos: usize) -> (r: Result<([u8; N], usize), DecodeError>)
    requires
        pos <= buf@.len(),
    ensures
        reads_as(r, read_bytes(buf@.skip(pos as int), N as nat), buf@),
{
    if buf.len() - pos < N {
        return Err(DecodeError::ShortRead);
    }
    let mut a = [0u8; N];
    let mut i: usize = 0;
    while i < N
        invariant
            i <= N,
            pos + N <= buf.len(),
            forall|j: int| 0 <= j < i ==> a@[j] == buf@[pos + j],
        decreases N - i,
    {
        a[i] = buf[pos + i];
        i = i + 1;
    }
    assert(a@ =~= buf@.skip(pos as int).take(N as int));
    assert(buf@.skip(pos as int).skip(N as int) =~= buf@.skip(pos + N));
    Ok((a, pos + N))
}

/// Copies the `n` bytes at `pos` into a vector.
pub fn get_vec(buf: &[u8], pos: usize, n: u64) -> (r: Result<(Vec<u8>, usize), DecodeError>)
    requires
        pos <= buf@.len(),
    ensures
        reads_as(r, read_bytes(buf@.skip(pos as int), n as nat), buf@),
{
    if ((buf.len() - pos) as u64) < n {
        return Err(DecodeError::ShortRead);
    }
    let n = n as usize;
    let mut v: Vec<u8> = Vec::new();
    let mut i: usize = 0;
    while i < n
        invariant
            i <= n,
            pos + n <= buf.len(),
            v@.len() == i,
            forall|j: int| 0 <= j < i ==> v@[j] == buf@[pos + j],
        decreases n - i,
    {
        v.push(buf[pos + i]);
        i = i + 1;
    }
    assert(v@ =~= buf@.skip(pos as int).take(n as int));
    assert(buf@.skip(pos as int).skip(n as int) =~= buf@.skip(pos + n));
    Ok((v, pos + n))
}

// ---------------------------------------------------------------------------------------
// Writing
// ---------------------------------------------------------------------------------------

/// Appends one byte.
pub fn put_u8(w: &mut Vec<u8>, x: u8)
    ensures
        final(w)@ == old(w)@ + seq![x],
{
    w.push(x);
    assert(final(w)@ =~= old(w)@ + seq![x]) by {
        assert(w@ =~= old(w)@ + seq![x]);
    }
}

/// Appends the big-endian bytes of a `u16`.
pub fn put_u16(w: &mut Vec<u8>, x: u16)
    ensures
        final(w)@ == old(w)@ + be16(x),
{
    w.push((x / 0x100) as u8);
    w.push((x % 0x100) as u8);
    assert(w@ =~= old(w)@ + be16(x));
}

/// Appends the big-endian bytes of a `u32`.
pub fn put_u32(w: &mut Vec<u8>, x: u32)
    ensures
        final(w)@ == old(w)@ + be32(x),
{
    let ghost w0 = w@;
    put_u16(w, (x / 0x1_0000) as u16);
    put_u16(w, (x % 0x1_0000) as u16);
    assert(w@ =~= w0 + be32(x));
}

/// Appends the big-endian bytes of a `u64`.
pub fn put_u64(w: &mut Vec<u8>, x: u64)
    ensures
        final(w)@ == old(w)@ + be64(x),
{
    let ghost w0 = w@;
    put_u32(w, (x / 0x1_0000_0000) as u32);
    put_u32(w, (x % 0x1_0000_0000) as u32);
    assert(w@ =~= w0 + be64(x));
}

/// Appends a byte string as it is.
pub fn put_bytes(w: &mut Vec<u8>, bytes: &[u8])
    ensures
        final(w)@ == old(w)@ + bytes@,
{
    let ghost w0 = w@;
    let mut i: usize = 0;
    while i < bytes.len()
        invariant
            i <= bytes@.len(),
            w@ == w0 + bytes@.take(i as int),
        decreases bytes@.len() - i,
    {
        w.push(bytes[i]);
        i = i + 1;
        assert(w@ =~= w0 + bytes@.take(i as int));
    }
    assert(bytes@.take(i as int) =~= bytes@);
}


// ---------------------------------------------------------------------------------------
// Reading what was written
// ---------------------------------------------------------------------------------------

pub proof fn lemma_read_u16_of(x: u16, rest: Seq<u8>)
    ensures
        read_u16(be16(x) + rest) == Ok::<(u16, Seq<u8>), DecodeError>((x, rest)),
{
    lemma_be16(x);
    let s = be16(x) + rest;
    assert(s.take(2) =~= be16(x).take(2));
    lemma_u16_prefix(s, be16(x));
    assert(s.skip(2) =~= rest);
}

pub proof fn lemma_read_u32_of(x: u32, rest: Seq<u8>)
    ensures
        read_u32(be32(x) + rest) == Ok::<(u32, Seq<u8>), DecodeError>((x, rest)),
{
    lemma_be32(x);
    let s = be32(x) + rest;
    assert(s.take(4) =~= be32(x).take(4));
    lemma_u32_prefix(s, be32(x));
    assert(s.skip(4) =~= rest);
}

pub proof fn lemma_read_u64_of(x: u64, rest: Seq<u8>)
    ensures
        read_u64(be64(x) + rest) == Ok::<(u64, Seq<u8>), DecodeError>((x, rest)),
{
    lemma_be64(x);
    let s = be64(x) + rest;
    assert(s.take(8) =~= be64(x).take(8));
    lemma_u64_prefix(s, be64(x));
    assert(s.skip(8) =~= rest);
}

pub proof fn lemma_read_u8_of(x: u8, rest: Seq<u8>)
    ensures
        read_u8(seq![x] + rest) == Ok::<(u8, Seq<u8>), DecodeError>((x, rest)),
{
    assert((seq![x] + rest).skip(1) =~= rest);
}

pub proof fn lemma_read_bytes_of(b: Seq<u8>, rest: Seq<u8>)
    ensures
        read_bytes(b + rest, b.len()) == Ok::<(Seq<u8>, Seq<u8>), DecodeError>((b, rest)),
{
    assert((b + rest).take(b.len() as int) =~= b);
    assert((b + rest).skip(b.len() as int) =~= rest);
}

// ---------------------------------------------------------------------------------------
// BigSize
// ---------------------------------------------------------------------------------------

/// The `BigSize` encoding of `x`: the shortest of one byte, `0xfd` and a `u16`, `0xfe` and a
/// `u32`, or `0xff` and a `u64` that holds it.
pub open spec fn bigsize(x: u64) -> Seq<u8> {
    if x < 0xfd {
        seq![x as u8]
    } else if x < 0x1_0000 {
        seq![0xfdu8] + be16(x as u16)
    } else if x < 0x1_0000_0000 {
        seq![0xfeu8] + be32(x as u32)
    } else {
        seq![0xffu8] + be64(x)
    }
}

/// Reads a `BigSize` off the front of `s`; one that is not in its shortest form is refused.
pub open spec fn read_bigsize(s: Seq<u8>) -> Result<(u64, Seq<u8>), DecodeError> {
    match read_u8(s) {
        Err(e) => Err(e),
        Ok((n, r)) => if n == 0xff {
            match read_u64(r) {
                Err(e) => Err(e),
                Ok((x, r2)) => if x < 0x1_0000_0000 {
                    Err(DecodeError::InvalidValue)
                } else {
                    Ok((x, r2))
                },
            }
        } else if n == 0xfe {
            match read_u32(r) {
                Err(e) => Err(e),
                Ok((x, r2)) => if x < 0x1_0000 {
                    Err(DecodeError::InvalidValue)
                } else {
                    Ok((x as u64, r2))
                },
            }
        } else if n == 0xfd {
            match read_u16(r) {
                Err(e) => Err(e),
                Ok((x, r2)) => if x < 0xfd {
                    Err(DecodeError::InvalidValue)
                } else {
                    Ok((x as u64, r2))
                },
            }
        } else {
            Ok((n as u64, r))
        },
    }
}

/// A `BigSize` reads back as the number it encodes.
pub proof fn lemma_read_bigsize_of(x: u64, rest: Seq<u8>)
    ensures
        read_bigsize(bigsize(x) + rest) == Ok::<(u64, Seq<u8>), DecodeError>((x, rest)),
{
    let s = bigsize(x) + rest;
    if x < 0xfd {
        lemma_read_u8_of(x as u8, rest);
    } else if x < 0x1_0000 {
        assert(s =~= seq![0xfdu8] + (be16(x as u16) + rest));
        lemma_read_u8_of(0xfdu8, be16(x as u16) + rest);
        lemma_read_u16_of(x as u16, rest);
    } else if x < 0x1_0000_0000 {
        assert(s =~= seq![0xfeu8] + (be32(x as u32) + rest));
        lemma_read_u8_of(0xfeu8, be32(x as u32) + rest);
        lemma_read_u32_of(x as u32, rest);
    } else {
        assert(s =~= seq![0xffu8] + (be64(x) + rest));
        lemma_read_u8_of(0xffu8, be64(x) + rest);
        lemma_read_u64_of(x, rest);
    }
}

/// What a read leaves over is a proper suffix of what it read from.
pub proof fn lemma_read_bigsize_shrinks(s: Seq<u8>)
    ensures
        read_bigsize(s) matches Ok((_, r)) ==> r.len() < s.len(),
{
}

/// Reads a `BigSize` at `pos`.
pub fn get_bigsize(buf: &[u8], pos: usize) -> (r: Result<(u64, usize), DecodeError>)
    requires
        pos <= buf@.len(),
    ensures
        reads_as(r, read_bigsize(buf@.skip(pos as int)), buf@),
{
    let (n, p) = get_u8(buf, pos)?;
    if n == 0xff {
        let (x, p2) = get_u64(buf, p)?;
        if x < 0x1_0000_0000 {
            Err(DecodeError::InvalidValue)
        } else {
            Ok((x, p2))
        }
    } else if n == 0xfe {
        let (x, p2) = get_u32(buf, p)?;
        if x < 0x1_0000 {
            Err(DecodeError::InvalidValue)
        } else {
            Ok((x as u64, p2))
        }
    } else if n == 0xfd {
        let (x, p2) = get_u16(buf, p)?;
        if x < 0xfd {
            Err(DecodeError::InvalidValue)
        } else {
            Ok((x as u64, p2))
        }
    } else {
        Ok((n as u64, p))
    }
}

/// Appends the `BigSize` encoding of `x`.
pub fn put_bigsize(w: &mut Vec<u8>, x: u64)
    ensures
        final(w)@ == old(w)@ + bigsize(x),
{
    let ghost w0 = w@;
    if x < 0xfd {
        put_u8(w, x as u8);
    } else if x < 0x1_0000 {
        put_u8(w, 0xfd);
        put_u16(w, x as u16);
        assert(w@ =~= w0 + bigsize(x));
    } else if x < 0x1_0000_0000 {
        put_u8(w, 0xfe);
        put_u32(w, x as u32);
        assert(w@ =~= w0 + bigsize(x));
    } else {
        put_u8(w, 0xff);
        put_u64(w, x);
        assert(w@ =~= w0 + bigsize(x));
    }
}

} // verus!
