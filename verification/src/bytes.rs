//! Primitive codec: fixed-width big-endian integers and length-prefixed
//! UTF-8 strings, read from and written to plain byte buffers.
//!
//! Every reader takes a buffer and a position and, on success, returns the
//! decoded value together with the position just past it.  Every writer
//! appends to a buffer.  All multi-byte integers are big-endian.

use vstd::prelude::*;
use vstd::utf8::{valid_utf8, decode_utf8, encode_utf8};

use crate::DecodeError;

verus! {

/// The base-256 value of a byte sequence read big-endian (first byte most
/// significant).
pub open spec fn be_val(s: Seq<u8>) -> nat
    decreases s.len(),
{
    if s.len() == 0 {
        0
    } else {
        (256 * be_val(s.drop_last()) + s.last()) as nat
    }
}

/// 256 raised to the power `n`: the number of distinct values of an
/// `n`-byte big-endian field.
pub open spec fn pow256(n: nat) -> nat
    decreases n,
{
    if n == 0 {
        1
    } else {
        256 * pow256((n - 1) as nat)
    }
}

/// An `n`-byte field holds values below `pow256(n)`.
pub proof fn lemma_be_val_bound(s: Seq<u8>)
    ensures
        be_val(s) < pow256(s.len()),
    decreases s.len(),
{
    if s.len() > 0 {
        lemma_be_val_bound(s.drop_last());
    }
}

/// The field sizes this codec uses, as concrete powers of 256.
pub proof fn lemma_pow256_vals()
    ensures
        pow256(1) == 0x100,
        pow256(2) == 0x10000,
        pow256(4) == 0x100000000,
        pow256(8) == 0x10000000000000000,
{
    reveal_with_fuel(pow256, 9);
}

pub proof fn lemma_be_val1(s: Seq<u8>)
    requires
        s.len() == 1,
    ensures
        be_val(s) == s[0],
{
    assert(be_val(s.drop_last()) == 0);
}

pub proof fn lemma_be_val2(s: Seq<u8>)
    requires
        s.len() == 2,
    ensures
        be_val(s) == 0x100 * (s[0] as nat) + s[1],
{
    lemma_be_val1(s.drop_last());
    assert(be_val(s) == 256 * be_val(s.drop_last()) + s.last());
}

pub proof fn lemma_be_val4(s: Seq<u8>)
    requires
        s.len() == 4,
    ensures
        be_val(s) == 0x1000000 * (s[0] as nat) + 0x10000 * (s[1] as nat) + 0x100 * (s[2] as nat)
            + s[3],
{
    let s3 = s.drop_last();
    lemma_be_val2(s3.drop_last());
    assert(be_val(s3) == 256 * be_val(s3.drop_last()) + s3.last());
    assert(be_val(s) == 256 * be_val(s3) + s.last());
}

pub proof fn lemma_be_val8(s: Seq<u8>)
    requires
        s.len() == 8,
    ensures
        be_val(s) == 0x100000000000000 * (s[0] as nat) + 0x1000000000000 * (s[1] as nat)
            + 0x10000000000 * (s[2] as nat) + 0x100000000 * (s[3] as nat) + 0x1000000 * (
        s[4] as nat) + 0x10000 * (s[5] as nat) + 0x100 * (s[6] as nat) + s[7],
{
    let s7 = s.drop_last();
    let s6 = s7.drop_last();
    let s5 = s6.drop_last();
    lemma_be_val4(s5.drop_last());
    assert(be_val(s5) == 256 * be_val(s5.drop_last()) + s5.last());
    assert(be_val(s6) == 256 * be_val(s6.drop_last()) + s6.last());
    assert(be_val(s7) == 256 * be_val(s7.drop_last()) + s7.last());
    assert(be_val(s) == 256 * be_val(s.drop_last()) + s.last());
}

/// Relates an executable read result (positions as `usize`) to the
/// corresponding specification-level read result (positions as `int`).
pub open spec fn res_eq<T>(r: Result<(T, usize), DecodeError>, d: Result<(T, int), DecodeError>) -> bool {
    match (r, d) {
        (Ok((v, p)), Ok((dv, dp))) => v == dv && p as int == dp,
        (Err(e), Err(de)) => e == de,
        _ => false,
    }
}

pub open spec fn sp_read_u8(s: Seq<u8>, pos: int) -> Result<(u8, int), DecodeError> {
    if pos + 1 <= s.len() {
        Ok((s[pos], pos + 1))
    } else {
        Err(DecodeError::TruncatedInput)
    }
}

pub open spec fn sp_read_u16(s: Seq<u8>, pos: int) -> Result<(u16, int), DecodeError> {
    if pos + 2 <= s.len() {
        Ok((be_val(s.subrange(pos, pos + 2)) as u16, pos + 2))
    } else {
        Err(DecodeError::TruncatedInput)
    }
}

pub open spec fn sp_read_u32(s: Seq<u8>, pos: int) -> Result<(u32, int), DecodeError> {
    if pos + 4 <= s.len() {
        Ok((be_val(s.subrange(pos, pos + 4)) as u32, pos + 4))
    } else {
        Err(DecodeError::TruncatedInput)
    }
}

pub open spec fn sp_read_u64(s: Seq<u8>, pos: int) -> Result<(u64, int), DecodeError> {
    if pos + 8 <= s.len() {
        Ok((be_val(s.subrange(pos, pos + 8)) as u64, pos + 8))
    } else {
        Err(DecodeError::TruncatedInput)
    }
}

/// A signed 32-bit field is the two's-complement reading of the same four
/// big-endian bytes.
pub open spec fn sp_read_i32(s: Seq<u8>, pos: int) -> Result<(i32, int), DecodeError> {
    if pos + 4 <= s.len() {
        Ok(((be_val(s.subrange(pos, pos + 4)) as u32) as i32, pos + 4))
    } else {
        Err(DecodeError::TruncatedInput)
    }
}

pub fn read_u8(bytes: &Vec<u8>, pos: usize) -> (r: Result<(u8, usize), DecodeError>)
    ensures
        res_eq(r, sp_read_u8(bytes@, pos as int)),
{
    if pos < bytes.len() {
        Ok((bytes[pos], pos + 1))
    } else {
        Err(DecodeError::TruncatedInput)
    }
}

pub fn read_u16(bytes: &Vec<u8>, pos: usize) -> (r: Result<(u16, usize), DecodeError>)
    ensures
        res_eq(r, sp_read_u16(bytes@, pos as int)),
{
    if pos <= bytes.len() && bytes.len() - pos >= 2 {
        let b0 = bytes[pos];
        let b1 = bytes[pos + 1];
        let v: u16 = (b0 as u16) * 0x100 + (b1 as u16);
        proof {
            lemma_be_val2(bytes@.subrange(pos as int, pos as int + 2));
        }
        Ok((v, pos + 2))
    } else {
        Err(DecodeError::TruncatedInput)
    }
}

pub fn read_u32(bytes: &Vec<u8>, pos: usize) -> (r: Result<(u32, usize), DecodeError>)
    ensures
        res_eq(r, sp_read_u32(bytes@, pos as int)),
{
    if pos <= bytes.len() && bytes.len() - pos >= 4 {
        let b0 = bytes[pos];
        let b1 = bytes[pos + 1];
        let b2 = bytes[pos + 2];
        let b3 = bytes[pos + 3];
        let v: u32 = (b0 as u32) * 0x1000000 + (b1 as u32) * 0x10000 + (b2 as u32) * 0x100
            + (b3 as u32);
        proof {
            lemma_be_val4(bytes@.subrange(pos as int, pos as int + 4));
        }
        Ok((v, pos + 4))
    } else {
        Err(DecodeError::TruncatedInput)
    }
}

pub fn read_u64(bytes: &Vec<u8>, pos: usize) -> (r: Result<(u64, usize), DecodeError>)
    ensures
        res_eq(r, sp_read_u64(bytes@, pos as int)),
{
    if pos <= bytes.len() && bytes.len() - pos >= 8 {
        let b0 = bytes[pos];
        let b1 = bytes[pos + 1];
        let b2 = bytes[pos + 2];
        let b3 = bytes[pos + 3];
        let b4 = bytes[pos + 4];
        let b5 = bytes[pos + 5];
        let b6 = bytes[pos + 6];
        let b7 = bytes[pos + 7];
        let v: u64 = (b0 as u64) * 0x100000000000000 + (b1 as u64) * 0x1000000000000
            + (b2 as u64) * 0x10000000000 + (b3 as u64) * 0x100000000 + (b4 as u64) * 0x1000000
            + (b5 as u64) * 0x10000 + (b6 as u64) * 0x100 + (b7 as u64);
        proof {
            lemma_be_val8(bytes@.subrange(pos as int, pos as int + 8));
        }
        Ok((v, pos + 8))
    } else {
        Err(DecodeError::TruncatedInput)
    }
}

pub fn read_i32(bytes: &Vec<u8>, pos: usize) -> (r: Result<(i32, usize), DecodeError>)
    ensures
        res_eq(r, sp_read_i32(bytes@, pos as int)),
{
    match read_u32(bytes, pos) {
        Ok((v, p)) => Ok((v as i32, p)),
        Err(e) => Err(e),
    }
}

pub fn write_u8(out: &mut Vec<u8>, v: u8)
    ensures
        final(out)@ == old(out)@.push(v),
{
    out.push(v);
}

pub fn write_u16(out: &mut Vec<u8>, v: u16)
    ensures
        final(out)@.len() == old(out)@.len() + 2,
        final(out)@.subrange(0, old(out)@.len() as int) == old(out)@,
        forall|j: int| 0 <= j < old(out)@.len() ==> final(out)@[j] == old(out)@[j],
        be_val(final(out)@.subrange(old(out)@.len() as int, final(out)@.len() as int)) == v,
{
    let b0: u8 = (v >> 8) as u8;
    let b1: u8 = v as u8;
    out.push(b0);
    out.push(b1);
    proof {
        assert((b0 as u32) * 0x100 + (b1 as u32) == v as u32) by (bit_vector)
            requires
                b0 == (v >> 8) as u8,
                b1 == v as u8,
        ;
        let app = out@.subrange(old(out)@.len() as int, out@.len() as int);
        assert(app =~= seq![b0, b1]);
        lemma_be_val2(app);
        assert(out@.subrange(0, old(out)@.len() as int) =~= old(out)@);
        assert(forall|j: int| 0 <= j < old(out)@.len() ==> out@[j] == old(out)@[j]);
    }
}

pub fn write_u32(out: &mut Vec<u8>, v: u32)
    ensures
        final(out)@.len() == old(out)@.len() + 4int,
        final(out)@.subrange(0, old(out)@.len() as int) == old(out)@,
        forall|j: int| 0 <= j < old(out)@.len() ==> final(out)@[j] == old(out)@[j],
        be_val(final(out)@.subrange(old(out)@.len() as int, final(out)@.len() as int)) == v,
{
    let b0: u8 = (v >> 24) as u8;
    let b1: u8 = (v >> 16) as u8;
    let b2: u8 = (v >> 8) as u8;
    let b3: u8 = v as u8;
    out.push(b0);
    out.push(b1);
    out.push(b2);
    out.push(b3);
    proof {
        assert((b0 as u64) * 0x1000000 + (b1 as u64) * 0x10000 + (b2 as u64) * 0x100 + (b3 as u64)
            == v as u64) by (bit_vector)
            requires
                b0 == (v >> 24) as u8,
                b1 == (v >> 16) as u8,
                b2 == (v >> 8) as u8,
                b3 == v as u8,
        ;
        let app = out@.subrange(old(out)@.len() as int, out@.len() as int);
        assert(app =~= seq![b0, b1, b2, b3]);
        lemma_be_val4(app);
        assert(out@.subrange(0, old(out)@.len() as int) =~= old(out)@);
        assert(forall|j: int| 0 <= j < old(out)@.len() ==> out@[j] == old(out)@[j]);
    }
}

pub fn write_u64(out: &mut Vec<u8>, v: u64)
    ensures
        final(out)@.len() == old(out)@.len() + 8,
        final(out)@.subrange(0, old(out)@.len() as int) == old(out)@,
        forall|j: int| 0 <= j < old(out)@.len() ==> final(out)@[j] == old(out)@[j],
        be_val(final(out)@.subrange(old(out)@.len() as int, final(out)@.len() as int)) == v,
{
    let b0: u8 = (v >> 56) as u8;
    let b1: u8 = (v >> 48) as u8;
    let b2: u8 = (v >> 40) as u8;
    let b3: u8 = (v >> 32) as u8;
    let b4: u8 = (v >> 24) as u8;
    let b5: u8 = (v >> 16) as u8;
    let b6: u8 = (v >> 8) as u8;
    let b7: u8 = v as u8;
    out.push(b0);
    out.push(b1);
    out.push(b2);
    out.push(b3);
    out.push(b4);
    out.push(b5);
    out.push(b6);
    out.push(b7);
    proof {
        assert((b0 as u128) * 0x100000000000000 + (b1 as u128) * 0x1000000000000 + (b2 as u128)
            * 0x10000000000 + (b3 as u128) * 0x100000000 + (b4 as u128) * 0x1000000 + (b5 as u128)
            * 0x10000 + (b6 as u128) * 0x100 + (b7 as u128) == v as u128) by (bit_vector)
            requires
                b0 == (v >> 56) as u8,
                b1 == (v >> 48) as u8,
                b2 == (v >> 40) as u8,
                b3 == (v >> 32) as u8,
                b4 == (v >> 24) as u8,
                b5 == (v >> 16) as u8,
                b6 == (v >> 8) as u8,
                b7 == v as u8,
        ;
        let app = out@.subrange(old(out)@.len() as int, out@.len() as int);
        assert(app =~= seq![b0, b1, b2, b3, b4, b5, b6, b7]);
        lemma_be_val8(app);
        assert(out@.subrange(0, old(out)@.len() as int) =~= old(out)@);
        assert(forall|j: int| 0 <= j < old(out)@.len() ==> out@[j] == old(out)@[j]);
    }
}

pub fn write_i32(out: &mut Vec<u8>, v: i32)
    ensures
        final(out)@.len() == old(out)@.len() + 4int,
        final(out)@.subrange(0, old(out)@.len() as int) == old(out)@,
        forall|j: int| 0 <= j < old(out)@.len() ==> final(out)@[j] == old(out)@[j],
        be_val(final(out)@.subrange(old(out)@.len() as int, final(out)@.len() as int)) == v
            as u32,
{
    write_u32(out, v as u32);
}

/// A length-prefixed string: a signed 32-bit byte length followed by exactly
/// that many UTF-8 bytes, no terminator.  A negative length is rejected, a
/// length past the end of the buffer is a truncation, and bytes that are not
/// valid UTF-8 are an encoding error.
pub open spec fn sp_read_string(s: Seq<u8>, pos: int) -> Result<(Seq<char>, int), DecodeError> {
    match sp_read_i32(s, pos) {
        Err(e) => Err(e),
        Ok((n, p)) => if n < 0 {
            Err(DecodeError::LengthMismatch)
        } else if p + n > s.len() {
            Err(DecodeError::TruncatedInput)
        } else if !valid_utf8(s.subrange(p, p + n)) {
            Err(DecodeError::StringEncodingError)
        } else {
            Ok((decode_utf8(s.subrange(p, p + n)), p + n))
        },
    }
}

/// Relies on `String::from_utf8`: it succeeds exactly on valid UTF-8 input
/// and the resulting string's bytes are exactly the input bytes.
#[verifier::external_body]
fn string_from_utf8(bytes: Vec<u8>) -> (r: Option<String>)
    ensures
        r is Some <==> valid_utf8(bytes@),
        r is Some ==> encode_utf8(r->0@) == bytes@,
{
    match String::from_utf8(bytes) {
        Ok(s) => Some(s),
        Err(_) => None,
    }
}

pub fn read_string(bytes: &Vec<u8>, pos: usize) -> (r: Result<(String, usize), DecodeError>)
    ensures
        (match (r, sp_read_string(bytes@, pos as int)) {
            (Ok((v, p)), Ok((dv, dp))) => v@ == dv && p as int == dp,
            (Err(e), Err(de)) => e == de,
            _ => false,
        }),
{
    let (n, p) = match read_i32(bytes, pos) {
        Ok(x) => x,
        Err(e) => {
            return Err(e);
        },
    };
    if n < 0 {
        return Err(DecodeError::LengthMismatch);
    }
    let n: usize = n as usize;
    if !(p <= bytes.len() && bytes.len() - p >= n) {
        return Err(DecodeError::TruncatedInput);
    }
    let mut seg: Vec<u8> = Vec::new();
    let mut i: usize = 0;
    proof {
        assert(seg@ =~= bytes@.subrange(p as int, p as int));
    }
    while i < n
        invariant
            p + n <= bytes@.len(),
            bytes@.len() <= usize::MAX,
            i <= n,
            seg@ == bytes@.subrange(p as int, p as int + i as int),
        decreases n - i,
    {
        seg.push(bytes[p + i]);
        i = i + 1;
        proof {
            assert(seg@ =~= bytes@.subrange(p as int, p as int + i as int));
        }
    }
    match string_from_utf8(seg) {
        Some(st) => {
            proof {
                vstd::utf8::encode_utf8_decode_utf8(st@);
            }
            Ok((st, p + n))
        },
        None => Err(DecodeError::StringEncodingError),
    }
}

/// Appends the length-prefixed encoding of `s`: its UTF-8 byte length as a
/// signed 32-bit prefix, then the UTF-8 bytes themselves.
pub fn write_string(out: &mut Vec<u8>, s: &str)
    requires
        encode_utf8(s@).len() <= i32::MAX,
    ensures
        final(out)@.len() == old(out)@.len() + 4int + encode_utf8(s@).len(),
        final(out)@.subrange(0, old(out)@.len() as int) == old(out)@,
        forall|j: int| 0 <= j < old(out)@.len() ==> final(out)@[j] == old(out)@[j],
        be_val(final(out)@.subrange(old(out)@.len() as int, old(out)@.len() + 4int)) == encode_utf8(
            s@,
        ).len(),
        final(out)@.subrange(old(out)@.len() + 4int, final(out)@.len() as int) == encode_utf8(s@),
{
    let sb: &[u8] = s.as_bytes();
    let n: usize = sb.len();
    write_i32(out, n as i32);
    let ghost mid = out@;
    out.extend_from_slice(sb);
    proof {
        assert(out@.subrange(0, old(out)@.len() as int) =~= old(out)@);
        assert(forall|j: int| 0 <= j < old(out)@.len() ==> out@[j] == old(out)@[j]);
        assert(out@.subrange(old(out)@.len() as int, old(out)@.len() + 4int) =~= mid.subrange(
            old(out)@.len() as int,
            old(out)@.len() + 4int,
        ));
        assert(out@.subrange(old(out)@.len() + 4int, out@.len() as int) =~= encode_utf8(s@));
    }
}

} // verus!
