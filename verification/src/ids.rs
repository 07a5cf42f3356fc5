//! The identifier-width context and the variable-width identifier type.
//!
//! The target reports, once per connection, how many bytes each category of
//! opaque handle occupies on the wire.  Every later decode that touches an
//! identifier reads that many raw big-endian bytes and widens them into a
//! 64-bit value; any width outside {1, 2, 4, 8} is a decode error.

use vstd::prelude::*;

use crate::DecodeError;
use crate::bytes::{
    be_val, lemma_be_val_bound, lemma_pow256_vals, pow256, read_i32, read_u16, read_u32, read_u64,
    read_u8, res_eq, sp_read_i32, write_u16, write_u32, write_u64, write_u8,
};

verus! {

/// Whether `w` is a byte width the protocol supports for identifiers.
pub open spec fn valid_id_width(w: i32) -> bool {
    w == 1 || w == 2 || w == 4 || w == 8
}

/// An opaque handle (thread id, type id, and so on) whose on-wire byte
/// width is supplied at decode time by the identifier-width context.
#[derive(Debug, Clone, Copy, PartialEq, Eq, Structural)]
pub struct VariableLengthId {
    pub value: u64,
}

/// Reading an identifier: `w` raw big-endian bytes widened to 64 bits, with
/// any width outside {1, 2, 4, 8} rejected before the stream is touched.
pub open spec fn sp_read_vlid(s: Seq<u8>, pos: int, w: i32) -> Result<(u64, int), DecodeError> {
    if !valid_id_width(w) {
        Err(DecodeError::InvalidIdWidth(w))
    } else if pos + w <= s.len() {
        Ok((be_val(s.subrange(pos, pos + w)) as u64, pos + w))
    } else {
        Err(DecodeError::TruncatedInput)
    }
}

impl VariableLengthId {
    /// Decodes an identifier of `width` bytes, the single chokepoint through
    /// which every identifier-bearing field in every reply passes.
    pub fn decode(bytes: &Vec<u8>, pos: usize, width: i32) -> (r: Result<
        (VariableLengthId, usize),
        DecodeError,
    >)
        ensures
            (match (r, sp_read_vlid(bytes@, pos as int, width)) {
                (Ok((v, p)), Ok((dv, dp))) => v.value == dv && p as int == dp,
                (Err(e), Err(de)) => e == de,
                _ => false,
            }),
    {
        proof {
            lemma_pow256_vals();
            if pos + 1 <= bytes@.len() {
                lemma_be_val_bound(bytes@.subrange(pos as int, pos as int + 1));
            }
            if pos + 2 <= bytes@.len() {
                lemma_be_val_bound(bytes@.subrange(pos as int, pos as int + 2));
            }
            if pos + 4 <= bytes@.len() {
                lemma_be_val_bound(bytes@.subrange(pos as int, pos as int + 4));
            }
        }
        match width {
            1 => match read_u8(bytes, pos) {
                Ok((v, p)) => Ok((VariableLengthId { value: v as u64 }, p)),
                Err(e) => Err(e),
            },
            2 => match read_u16(bytes, pos) {
                Ok((v, p)) => Ok((VariableLengthId { value: v as u64 }, p)),
                Err(e) => Err(e),
            },
            4 => match read_u32(bytes, pos) {
                Ok((v, p)) => Ok((VariableLengthId { value: v as u64 }, p)),
                Err(e) => Err(e),
            },
            8 => match read_u64(bytes, pos) {
                Ok((v, p)) => Ok((VariableLengthId { value: v }, p)),
                Err(e) => Err(e),
            },
            _ => Err(DecodeError::InvalidIdWidth(width)),
        }
    }

    /// Appends the `width`-byte big-endian encoding of this identifier.
    /// Only values representable in `width` bytes can be encoded.
    pub fn encode(self, out: &mut Vec<u8>, width: i32)
        requires
            valid_id_width(width),
            self.value < pow256(width as nat),
        ensures
            final(out)@.len() == old(out)@.len() + width,
            final(out)@.subrange(0, old(out)@.len() as int) == old(out)@,
            be_val(final(out)@.subrange(old(out)@.len() as int, final(out)@.len() as int))
                == self.value,
    {
        proof {
            lemma_pow256_vals();
        }
        if width == 1 {
            write_u8(out, self.value as u8);
            proof {
                let app = out@.subrange(old(out)@.len() as int, out@.len() as int);
                assert(app =~= seq![(self.value as u8)]);
                crate::bytes::lemma_be_val1(app);
                assert(out@.subrange(0, old(out)@.len() as int) =~= old(out)@);
            }
        } else if width == 2 {
            write_u16(out, self.value as u16);
        } else if width == 4 {
            write_u32(out, self.value as u32);
        } else {
            write_u64(out, self.value);
        }
    }
}

/// Law: for every supported width and every value representable in that
/// width, decoding the bytes that `VariableLengthId::encode` produces (any
/// `width` bytes whose big-endian value is the identifier's value) yields
/// the original value again.
pub proof fn lemma_vlid_round_trip(s: Seq<u8>, width: i32, value: u64)
    requires
        valid_id_width(width),
        s.len() == width,
        be_val(s) == value,
    ensures
        sp_read_vlid(s, 0, width) == Ok::<(u64, int), DecodeError>((value, width as int)),
{
    assert(s.subrange(0, width as int) =~= s);
}

/// The decoded form of the fixed five-integer reply that reports the
/// identifier byte-widths in use on this connection.
#[derive(Debug, Clone, Copy, PartialEq, Eq, Structural)]
pub struct IdSizesReply {
    pub field_id_size: i32,
    pub method_id_size: i32,
    pub object_id_size: i32,
    pub reference_type_id_size: i32,
    pub frame_id_size: i32,
}

/// Reading the id-sizes reply payload: five signed 32-bit integers in fixed
/// order (field, method, object, reference-type, frame), no count prefix.
pub open spec fn sp_id_sizes(s: Seq<u8>, pos: int) -> Result<(IdSizesReply, int), DecodeError> {
    match sp_read_i32(s, pos) {
        Err(e) => Err(e),
        Ok((field_id_size, p1)) => match sp_read_i32(s, p1) {
            Err(e) => Err(e),
            Ok((method_id_size, p2)) => match sp_read_i32(s, p2) {
                Err(e) => Err(e),
                Ok((object_id_size, p3)) => match sp_read_i32(s, p3) {
                    Err(e) => Err(e),
                    Ok((reference_type_id_size, p4)) => match sp_read_i32(s, p4) {
                        Err(e) => Err(e),
                        Ok((frame_id_size, p5)) => Ok(
                            (
                                IdSizesReply {
                                    field_id_size,
                                    method_id_size,
                                    object_id_size,
                                    reference_type_id_size,
                                    frame_id_size,
                                },
                                p5,
                            ),
                        ),
                    },
                },
            },
        },
    }
}

impl IdSizesReply {
    /// Decodes the id-sizes reply payload.  This is the one reply decoder
    /// with no context dependency: it is the context's own origin.
    pub fn decode(bytes: &Vec<u8>, pos: usize) -> (r: Result<(IdSizesReply, usize), DecodeError>)
        ensures
            res_eq(r, sp_id_sizes(bytes@, pos as int)),
    {
        let (field_id_size, p1) = match read_i32(bytes, pos) {
            Ok(x) => x,
            Err(e) => {
                return Err(e);
            },
        };
        let (method_id_size, p2) = match read_i32(bytes, p1) {
            Ok(x) => x,
            Err(e) => {
                return Err(e);
            },
        };
        let (object_id_size, p3) = match read_i32(bytes, p2) {
            Ok(x) => x,
            Err(e) => {
                return Err(e);
            },
        };
        let (reference_type_id_size, p4) = match read_i32(bytes, p3) {
            Ok(x) => x,
            Err(e) => {
                return Err(e);
            },
        };
        let (frame_id_size, p5) = match read_i32(bytes, p4) {
            Ok(x) => x,
            Err(e) => {
                return Err(e);
            },
        };
        Ok(
            (
                IdSizesReply {
                    field_id_size,
                    method_id_size,
                    object_id_size,
                    reference_type_id_size,
                    frame_id_size,
                },
                p5,
            ),
        )
    }

    /// Validates the five reported widths into an identifier-width context,
    /// failing with `InvalidIdWidth` on the first width outside {1, 2, 4, 8}.
    pub fn to_context(&self) -> (r: Result<IdentifierWidthContext, DecodeError>)
        ensures
            (match r {
                Ok(ctx) => ctx == (IdentifierWidthContext {
                    field_id_size: self.field_id_size,
                    method_id_size: self.method_id_size,
                    object_id_size: self.object_id_size,
                    reference_type_id_size: self.reference_type_id_size,
                    frame_id_size: self.frame_id_size,
                }) && ctx.well_formed(),
                Err(e) => !(valid_id_width(self.field_id_size) && valid_id_width(
                    self.method_id_size,
                ) && valid_id_width(self.object_id_size) && valid_id_width(
                    self.reference_type_id_size,
                ) && valid_id_width(self.frame_id_size)) && (if !valid_id_width(
                    self.field_id_size,
                ) {
                    e == DecodeError::InvalidIdWidth(self.field_id_size)
                } else if !valid_id_width(self.method_id_size) {
                    e == DecodeError::InvalidIdWidth(self.method_id_size)
                } else if !valid_id_width(self.object_id_size) {
                    e == DecodeError::InvalidIdWidth(self.object_id_size)
                } else if !valid_id_width(self.reference_type_id_size) {
                    e == DecodeError::InvalidIdWidth(self.reference_type_id_size)
                } else {
                    e == DecodeError::InvalidIdWidth(self.frame_id_size)
                }),
            }),
            r is Ok <==> (valid_id_width(self.field_id_size) && valid_id_width(
                self.method_id_size,
            ) && valid_id_width(self.object_id_size) && valid_id_width(
                self.reference_type_id_size,
            ) && valid_id_width(self.frame_id_size)),
    {
        if !id_width_ok(self.field_id_size) {
            return Err(DecodeError::InvalidIdWidth(self.field_id_size));
        }
        if !id_width_ok(self.method_id_size) {
            return Err(DecodeError::InvalidIdWidth(self.method_id_size));
        }
        if !id_width_ok(self.object_id_size) {
            return Err(DecodeError::InvalidIdWidth(self.object_id_size));
        }
        if !id_width_ok(self.reference_type_id_size) {
            return Err(DecodeError::InvalidIdWidth(self.reference_type_id_size));
        }
        if !id_width_ok(self.frame_id_size) {
            return Err(DecodeError::InvalidIdWidth(self.frame_id_size));
        }
        Ok(
            IdentifierWidthContext {
                field_id_size: self.field_id_size,
                method_id_size: self.method_id_size,
                object_id_size: self.object_id_size,
                reference_type_id_size: self.reference_type_id_size,
                frame_id_size: self.frame_id_size,
            },
        )
    }
}

/// Whether `w` is a supported identifier width (executable form of
/// `valid_id_width`).
pub fn id_width_ok(w: i32) -> (r: bool)
    ensures
        r == valid_id_width(w),
{
    w == 1 || w == 2 || w == 4 || w == 8
}

/// The connection-scoped record of identifier byte-widths, established
/// exactly once from an id-sizes reply and immutable afterwards.  Every
/// width is one of {1, 2, 4, 8}.
#[derive(Debug, Clone, Copy, PartialEq, Eq, Structural)]
pub struct IdentifierWidthContext {
    pub field_id_size: i32,
    pub method_id_size: i32,
    pub object_id_size: i32,
    pub reference_type_id_size: i32,
    pub frame_id_size: i32,
}

impl IdentifierWidthContext {
    /// The invariant constructors establish: all five widths supported.
    pub open spec fn well_formed(self) -> bool {
        valid_id_width(self.field_id_size) && valid_id_width(self.method_id_size)
            && valid_id_width(self.object_id_size) && valid_id_width(self.reference_type_id_size)
            && valid_id_width(self.frame_id_size)
    }
}

} // verus!
