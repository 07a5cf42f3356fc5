//! Per-command reply payload decoders.
//!
//! Each decoder consumes a payload byte buffer together with the
//! identifier-width context negotiated for the connection, and either
//! fully decodes the reply or fails on the first offending field; a
//! partial record is never returned.  Repeated records are length-prefixed:
//! a count is read up front and exactly that many records follow.

use vstd::prelude::*;
use vstd::utf8::encode_utf8;

use crate::DecodeError;
use crate::bytes::{
    be_val, read_i32, read_u32, read_u8, res_eq, sp_read_i32, sp_read_string, sp_read_u32,
    sp_read_u8, read_string, write_string,
};
use crate::commands::{Command, ReplyPacketHeader};
use crate::ids::{IdSizesReply, IdentifierWidthContext, VariableLengthId, sp_id_sizes, sp_read_vlid};

verus! {

/// The kind of a referenced type: class, interface, or array.
#[derive(Debug, Clone, Copy, PartialEq, Eq, Structural)]
pub enum TypeTag {
    Class,
    Interface,
    Array,
}

/// The one-byte wire code of a type tag.
pub open spec fn type_tag_code(t: TypeTag) -> u8 {
    match t {
        TypeTag::Class => 1,
        TypeTag::Interface => 2,
        TypeTag::Array => 3,
    }
}

/// The type tag a one-byte wire code stands for, if any.
pub open spec fn type_tag_of(v: u8) -> Option<TypeTag> {
    if v == 1 {
        Some(TypeTag::Class)
    } else if v == 2 {
        Some(TypeTag::Interface)
    } else if v == 3 {
        Some(TypeTag::Array)
    } else {
        None
    }
}

impl TypeTag {
    /// The one-byte wire code of this tag.
    pub fn code(self) -> (r: u8)
        ensures
            r == type_tag_code(self),
    {
        match self {
            TypeTag::Class => 1,
            TypeTag::Interface => 2,
            TypeTag::Array => 3,
        }
    }
}

/// The status bitmask of a class: bit 1 verified, bit 2 prepared, bit 4
/// initialized, bit 8 error.
#[derive(Debug, Clone, Copy, PartialEq, Eq, Structural)]
pub struct ClassStatus {
    pub bits: u32,
}

/// Whether a status word uses only the four defined bits.
pub open spec fn valid_class_status(bits: u32) -> bool {
    bits <= 0xF
}

/// Reading a class-status word: a big-endian 32-bit flag set, rejected as
/// `InvalidEnumValue` when any undefined bit is set.
pub open spec fn sp_read_class_status(s: Seq<u8>, pos: int) -> Result<(ClassStatus, int), DecodeError> {
    match sp_read_u32(s, pos) {
        Err(e) => Err(e),
        Ok((bits, p)) => if valid_class_status(bits) {
            Ok((ClassStatus { bits }, p))
        } else {
            Err(DecodeError::InvalidEnumValue(bits))
        },
    }
}

/// Relates a decoded payload of type `T` (with the position just past it)
/// to the record sequence a specification decoder produced so far plus what
/// remains: the whole decode succeeds exactly when the remainder does, and
/// its records are the finished ones followed by the remaining ones.
pub open spec fn sp_append_step<T>(
    whole: Result<(Seq<T>, int), DecodeError>,
    done: Seq<T>,
    rest: Result<(Seq<T>, int), DecodeError>,
) -> bool {
    whole == (match rest {
        Ok((r, q)) => Ok::<(Seq<T>, int), DecodeError>((done + r, q)),
        Err(e) => Err::<(Seq<T>, int), DecodeError>(e),
    })
}

// ====== Version ======

/// A version reply: two length-prefixed strings, two signed 32-bit version
/// numbers, then two more length-prefixed strings.
#[derive(Debug)]
pub struct VersionReply {
    pub description: String,
    pub jdwp_major: i32,
    pub jdwp_minor: i32,
    pub vm_version: String,
    pub vm_name: String,
}

/// The mathematical content of a version reply.
pub struct VersionReplyModel {
    pub description: Seq<char>,
    pub jdwp_major: i32,
    pub jdwp_minor: i32,
    pub vm_version: Seq<char>,
    pub vm_name: Seq<char>,
}

impl VersionReply {
    pub open spec fn model(self) -> VersionReplyModel {
        VersionReplyModel {
            description: self.description@,
            jdwp_major: self.jdwp_major,
            jdwp_minor: self.jdwp_minor,
            vm_version: self.vm_version@,
            vm_name: self.vm_name@,
        }
    }

    /// Decodes a version reply payload.
    pub fn decode(bytes: &Vec<u8>, pos: usize) -> (r: Result<(VersionReply, usize), DecodeError>)
        ensures
            (match (r, sp_version(bytes@, pos as int)) {
                (Ok((v, p)), Ok((dv, dp))) => v.model() == dv && p as int == dp,
                (Err(e), Err(de)) => e == de,
                _ => false,
            }),
    {
        let (description, p1) = match read_string(bytes, pos) {
            Ok(x) => x,
            Err(e) => {
                return Err(e);
            },
        };
        let (jdwp_major, p2) = match read_i32(bytes, p1) {
            Ok(x) => x,
            Err(e) => {
                return Err(e);
            },
        };
        let (jdwp_minor, p3) = match read_i32(bytes, p2) {
            Ok(x) => x,
            Err(e) => {
                return Err(e);
            },
        };
        let (vm_version, p4) = match read_string(bytes, p3) {
            Ok(x) => x,
            Err(e) => {
                return Err(e);
            },
        };
        let (vm_name, p5) = match read_string(bytes, p4) {
            Ok(x) => x,
            Err(e) => {
                return Err(e);
            },
        };
        Ok((VersionReply { description, jdwp_major, jdwp_minor, vm_version, vm_name }, p5))
    }
}

/// Reading a version reply payload: description, major, minor, VM version,
/// VM name.
pub open spec fn sp_version(s: Seq<u8>, pos: int) -> Result<(VersionReplyModel, int), DecodeError> {
    match sp_read_string(s, pos) {
        Err(e) => Err(e),
        Ok((description, p1)) => match sp_read_i32(s, p1) {
            Err(e) => Err(e),
            Ok((jdwp_major, p2)) => match sp_read_i32(s, p2) {
                Err(e) => Err(e),
                Ok((jdwp_minor, p3)) => match sp_read_string(s, p3) {
                    Err(e) => Err(e),
                    Ok((vm_version, p4)) => match sp_read_string(s, p4) {
                        Err(e) => Err(e),
                        Ok((vm_name, p5)) => Ok(
                            (
                                VersionReplyModel {
                                    description,
                                    jdwp_major,
                                    jdwp_minor,
                                    vm_version,
                                    vm_name,
                                },
                                p5,
                            ),
                        ),
                    },
                },
            },
        },
    }
}

// ====== ClassesBySignature ======

/// The outgoing payload of the signature-lookup command: the queried
/// signature as a length-prefixed string.
#[derive(Debug)]
pub struct ClassesBySignatureOut<'a> {
    pub signature: &'a str,
}

impl<'a> ClassesBySignatureOut<'a> {
    /// Appends the length-prefixed encoding of the queried signature.
    pub fn encode(&self, out: &mut Vec<u8>)
        requires
            encode_utf8(self.signature@).len() <= i32::MAX,
        ensures
            final(out)@.len() == old(out)@.len() + 4 + encode_utf8(self.signature@).len(),
            final(out)@.subrange(0, old(out)@.len() as int) == old(out)@,
            be_val(final(out)@.subrange(old(out)@.len() as int, old(out)@.len() + 4int))
                == encode_utf8(self.signature@).len(),
            final(out)@.subrange(old(out)@.len() + 4int, final(out)@.len() as int) == encode_utf8(
                self.signature@,
            ),
    {
        write_string(out, self.signature);
    }
}

/// One class record of a signature-lookup reply: type tag, reference-type
/// identifier, status.  The signature itself is omitted on the wire because
/// the caller already supplied it.
#[derive(Debug, Clone, Copy, PartialEq, Eq, Structural)]
pub struct ClassesBySignatureReplyClass {
    pub ref_type_tag: TypeTag,
    pub type_id: VariableLengthId,
    pub status: ClassStatus,
}

/// Reading one signature-lookup class record.
pub open spec fn sp_cbs_record(s: Seq<u8>, pos: int, w: i32) -> Result<
    (ClassesBySignatureReplyClass, int),
    DecodeError,
> {
    match sp_read_u8(s, pos) {
        Err(e) => Err(e),
        Ok((t, p1)) => match type_tag_of(t) {
            None => Err(DecodeError::InvalidEnumValue(t as u32)),
            Some(ref_type_tag) => match sp_read_vlid(s, p1, w) {
                Err(e) => Err(e),
                Ok((v, p2)) => match sp_read_class_status(s, p2) {
                    Err(e) => Err(e),
                    Ok((status, p3)) => Ok(
                        (
                            ClassesBySignatureReplyClass {
                                ref_type_tag,
                                type_id: VariableLengthId { value: v },
                                status,
                            },
                            p3,
                        ),
                    ),
                },
            },
        },
    }
}

/// Reading `n` signature-lookup class records in order.
pub open spec fn sp_cbs_records(s: Seq<u8>, pos: int, w: i32, n: nat) -> Result<
    (Seq<ClassesBySignatureReplyClass>, int),
    DecodeError,
>
    decreases n,
{
    if n == 0 {
        Ok((seq![], pos))
    } else {
        match sp_cbs_record(s, pos, w) {
            Err(e) => Err(e),
            Ok((c, p)) => match sp_cbs_records(s, p, w, (n - 1) as nat) {
                Err(e) => Err(e),
                Ok((rest, q)) => Ok((seq![c] + rest, q)),
            },
        }
    }
}

/// Reading a signature-lookup reply payload: a signed 32-bit count, which
/// must be non-negative, then exactly that many class records.
pub open spec fn sp_classes_by_signature(s: Seq<u8>, pos: int, w: i32) -> Result<
    (Seq<ClassesBySignatureReplyClass>, int),
    DecodeError,
> {
    match sp_read_i32(s, pos) {
        Err(e) => Err(e),
        Ok((n, p)) => if n < 0 {
            Err(DecodeError::LengthMismatch)
        } else {
            sp_cbs_records(s, p, w, n as nat)
        },
    }
}

impl ClassesBySignatureReplyClass {
    /// Decodes one class record using the reference-type width from the
    /// context.
    pub fn decode(bytes: &Vec<u8>, pos: usize, sizes: &IdentifierWidthContext) -> (r: Result<
        (ClassesBySignatureReplyClass, usize),
        DecodeError,
    >)
        ensures
            res_eq(r, sp_cbs_record(bytes@, pos as int, sizes.reference_type_id_size)),
    {
        let (t, p1) = match read_u8(bytes, pos) {
            Ok(x) => x,
            Err(e) => {
                return Err(e);
            },
        };
        let ref_type_tag = if t == 1 {
            TypeTag::Class
        } else if t == 2 {
            TypeTag::Interface
        } else if t == 3 {
            TypeTag::Array
        } else {
            return Err(DecodeError::InvalidEnumValue(t as u32));
        };
        let (type_id, p2) = match VariableLengthId::decode(bytes, p1, sizes.reference_type_id_size) {
            Ok(x) => x,
            Err(e) => {
                return Err(e);
            },
        };
        let (bits, p3) = match read_u32(bytes, p2) {
            Ok(x) => x,
            Err(e) => {
                return Err(e);
            },
        };
        if !(bits <= 0xF) {
            return Err(DecodeError::InvalidEnumValue(bits));
        }
        Ok((ClassesBySignatureReplyClass { ref_type_tag, type_id, status: ClassStatus { bits } }, p3))
    }
}

/// A signature-lookup reply: every class matching the queried signature.
#[derive(Debug)]
pub struct ClassesBySignatureReply {
    pub classes: Vec<ClassesBySignatureReplyClass>,
}

impl ClassesBySignatureReply {
    /// Decodes a signature-lookup reply payload.
    #[verifier::loop_isolation(false)]
    pub fn decode(bytes: &Vec<u8>, pos: usize, sizes: &IdentifierWidthContext) -> (r: Result<
        (ClassesBySignatureReply, usize),
        DecodeError,
    >)
        ensures
            (match (r, sp_classes_by_signature(bytes@, pos as int, sizes.reference_type_id_size)) {
                (Ok((v, p)), Ok((dv, dp))) => v.classes@ == dv && p as int == dp,
                (Err(e), Err(de)) => e == de,
                _ => false,
            }),
    {
        let ghost w = sizes.reference_type_id_size;
        let (count, p0) = match read_i32(bytes, pos) {
            Ok(x) => x,
            Err(e) => {
                return Err(e);
            },
        };
        if count < 0 {
            return Err(DecodeError::LengthMismatch);
        }
        let mut classes: Vec<ClassesBySignatureReplyClass> = Vec::new();
        let mut cur: usize = p0;
        let mut i: i32 = 0;
        while i < count
            invariant
                0 <= i <= count,
                sp_append_step(
                    sp_cbs_records(bytes@, p0 as int, w, count as nat),
                    classes@,
                    sp_cbs_records(bytes@, cur as int, w, (count - i) as nat),
                ),
            decreases count - i,
        {
            let ghost pre = classes@;
            let ghost pre_cur = cur as int;
            let ghost k = (count - i) as nat;
            let (c, p2) = match ClassesBySignatureReplyClass::decode(bytes, cur, sizes) {
                Ok(x) => x,
                Err(e) => {
                    proof {
                        assert(sp_cbs_records(bytes@, pre_cur, w, k) == Err::<
                            (Seq<ClassesBySignatureReplyClass>, int),
                            DecodeError,
                        >(e));
                    }
                    return Err(e);
                },
            };
            classes.push(c);
            cur = p2;
            i = i + 1;
            proof {
                assert(sp_cbs_records(bytes@, pre_cur, w, k) == (match sp_cbs_records(
                    bytes@,
                    cur as int,
                    w,
                    (count - i) as nat,
                ) {
                    Ok((rest, q)) => Ok::<(Seq<ClassesBySignatureReplyClass>, int), DecodeError>(
                        (seq![c] + rest, q),
                    ),
                    Err(e) => Err::<(Seq<ClassesBySignatureReplyClass>, int), DecodeError>(e),
                }));
                if sp_cbs_records(bytes@, cur as int, w, (count - i) as nat) is Ok {
                    let (rest, q) = sp_cbs_records(bytes@, cur as int, w, (count - i) as nat)->Ok_0;
                    assert(pre + (seq![c] + rest) =~= classes@ + rest);
                }
            }
        }
        proof {
            assert(sp_cbs_records(bytes@, cur as int, w, 0) == Ok::<
                (Seq<ClassesBySignatureReplyClass>, int),
                DecodeError,
            >((seq![], cur as int)));
            assert(classes@ + seq![] =~= classes@);
        }
        Ok((ClassesBySignatureReply { classes }, cur))
    }
}

// ====== AllClasses ======

/// One class record of an all-classes reply: type tag, reference-type
/// identifier, signature string, status.
#[derive(Debug)]
pub struct AllClassesReplyClass {
    pub ref_type_tag: TypeTag,
    pub type_id: VariableLengthId,
    pub signature: String,
    pub status: ClassStatus,
}

/// The mathematical content of an all-classes class record.
pub struct AllClassesReplyClassModel {
    pub ref_type_tag: TypeTag,
    pub type_id: VariableLengthId,
    pub signature: Seq<char>,
    pub status: ClassStatus,
}

impl AllClassesReplyClass {
    pub open spec fn model(self) -> AllClassesReplyClassModel {
        AllClassesReplyClassModel {
            ref_type_tag: self.ref_type_tag,
            type_id: self.type_id,
            signature: self.signature@,
            status: self.status,
        }
    }

    /// Decodes one class record using the reference-type width from the
    /// context.
    pub fn decode(bytes: &Vec<u8>, pos: usize, sizes: &IdentifierWidthContext) -> (r: Result<
        (AllClassesReplyClass, usize),
        DecodeError,
    >)
        ensures
            (match (r, sp_ac_record(bytes@, pos as int, sizes.reference_type_id_size)) {
                (Ok((v, p)), Ok((dv, dp))) => v.model() == dv && p as int == dp,
                (Err(e), Err(de)) => e == de,
                _ => false,
            }),
    {
        let (t, p1) = match read_u8(bytes, pos) {
            Ok(x) => x,
            Err(e) => {
                return Err(e);
            },
        };
        let ref_type_tag = if t == 1 {
            TypeTag::Class
        } else if t == 2 {
            TypeTag::Interface
        } else if t == 3 {
            TypeTag::Array
        } else {
            return Err(DecodeError::InvalidEnumValue(t as u32));
        };
        let (type_id, p2) = match VariableLengthId::decode(bytes, p1, sizes.reference_type_id_size) {
            Ok(x) => x,
            Err(e) => {
                return Err(e);
            },
        };
        let (signature, p3) = match read_string(bytes, p2) {
            Ok(x) => x,
            Err(e) => {
                return Err(e);
            },
        };
        let (bits, p4) = match read_u32(bytes, p3) {
            Ok(x) => x,
            Err(e) => {
                return Err(e);
            },
        };
        if !(bits <= 0xF) {
            return Err(DecodeError::InvalidEnumValue(bits));
        }
        Ok(
            (
                AllClassesReplyClass { ref_type_tag, type_id, signature, status: ClassStatus { bits } },
                p4,
            ),
        )
    }
}

/// Reading one all-classes class record.
pub open spec fn sp_ac_record(s: Seq<u8>, pos: int, w: i32) -> Result<
    (AllClassesReplyClassModel, int),
    DecodeError,
> {
    match sp_read_u8(s, pos) {
        Err(e) => Err(e),
        Ok((t, p1)) => match type_tag_of(t) {
            None => Err(DecodeError::InvalidEnumValue(t as u32)),
            Some(ref_type_tag) => match sp_read_vlid(s, p1, w) {
                Err(e) => Err(e),
                Ok((v, p2)) => match sp_read_string(s, p2) {
                    Err(e) => Err(e),
                    Ok((signature, p3)) => match sp_read_class_status(s, p3) {
                        Err(e) => Err(e),
                        Ok((status, p4)) => Ok(
                            (
                                AllClassesReplyClassModel {
                                    ref_type_tag,
                                    type_id: VariableLengthId { value: v },
                                    signature,
                                    status,
                                },
                                p4,
                            ),
                        ),
                    },
                },
            },
        },
    }
}

/// Reading `n` all-classes class records in order.
pub open spec fn sp_ac_records(s: Seq<u8>, pos: int, w: i32, n: nat) -> Result<
    (Seq<AllClassesReplyClassModel>, int),
    DecodeError,
>
    decreases n,
{
    if n == 0 {
        Ok((seq![], pos))
    } else {
        match sp_ac_record(s, pos, w) {
            Err(e) => Err(e),
            Ok((c, p)) => match sp_ac_records(s, p, w, (n - 1) as nat) {
                Err(e) => Err(e),
                Ok((rest, q)) => Ok((seq![c] + rest, q)),
            },
        }
    }
}

/// Reading an all-classes reply payload: a signed 32-bit count, which must
/// be non-negative, then exactly that many class records.
pub open spec fn sp_all_classes(s: Seq<u8>, pos: int, w: i32) -> Result<
    (Seq<AllClassesReplyClassModel>, int),
    DecodeError,
> {
    match sp_read_i32(s, pos) {
        Err(e) => Err(e),
        Ok((n, p)) => if n < 0 {
            Err(DecodeError::LengthMismatch)
        } else {
            sp_ac_records(s, p, w, n as nat)
        },
    }
}

/// An all-classes reply: every class currently loaded in the target.
#[derive(Debug)]
pub struct AllClassesReply {
    pub classes: Vec<AllClassesReplyClass>,
}

impl AllClassesReply {
    /// The mathematical content of this reply: its records in order.
    pub open spec fn model(self) -> Seq<AllClassesReplyClassModel> {
        self.classes@.map_values(|c: AllClassesReplyClass| c.model())
    }

    /// Decodes an all-classes reply payload.
    #[verifier::loop_isolation(false)]
    pub fn decode(bytes: &Vec<u8>, pos: usize, sizes: &IdentifierWidthContext) -> (r: Result<
        (AllClassesReply, usize),
        DecodeError,
    >)
        ensures
            (match (r, sp_all_classes(bytes@, pos as int, sizes.reference_type_id_size)) {
                (Ok((v, p)), Ok((dv, dp))) => v.model() == dv && p as int == dp,
                (Err(e), Err(de)) => e == de,
                _ => false,
            }),
    {
        let ghost w = sizes.reference_type_id_size;
        let (count, p0) = match read_i32(bytes, pos) {
            Ok(x) => x,
            Err(e) => {
                return Err(e);
            },
        };
        if count < 0 {
            return Err(DecodeError::LengthMismatch);
        }
        let mut classes: Vec<AllClassesReplyClass> = Vec::new();
        let mut cur: usize = p0;
        let mut i: i32 = 0;
        while i < count
            invariant
                0 <= i <= count,
                sp_append_step(
                    sp_ac_records(bytes@, p0 as int, w, count as nat),
                    classes@.map_values(|c: AllClassesReplyClass| c.model()),
                    sp_ac_records(bytes@, cur as int, w, (count - i) as nat),
                ),
            decreases count - i,
        {
            let ghost pre = classes@.map_values(|c: AllClassesReplyClass| c.model());
            let ghost pre_cur = cur as int;
            let ghost k = (count - i) as nat;
            let (c, p2) = match AllClassesReplyClass::decode(bytes, cur, sizes) {
                Ok(x) => x,
                Err(e) => {
                    proof {
                        assert(sp_ac_records(bytes@, pre_cur, w, k) == Err::<
                            (Seq<AllClassesReplyClassModel>, int),
                            DecodeError,
                        >(e));
                    }
                    return Err(e);
                },
            };
            classes.push(c);
            cur = p2;
            i = i + 1;
            proof {
                assert(sp_ac_records(bytes@, pre_cur, w, k) == (match sp_ac_records(
                    bytes@,
                    cur as int,
                    w,
                    (count - i) as nat,
                ) {
                    Ok((rest, q)) => Ok::<(Seq<AllClassesReplyClassModel>, int), DecodeError>(
                        (seq![c.model()] + rest, q),
                    ),
                    Err(e) => Err::<(Seq<AllClassesReplyClassModel>, int), DecodeError>(e),
                }));
                assert(classes@.map_values(|cl: AllClassesReplyClass| cl.model()) =~= pre.push(
                    c.model(),
                ));
                if sp_ac_records(bytes@, cur as int, w, (count - i) as nat) is Ok {
                    let (rest, q) = sp_ac_records(bytes@, cur as int, w, (count - i) as nat)->Ok_0;
                    assert(pre + (seq![c.model()] + rest) =~= pre.push(c.model()) + rest);
                }
            }
        }
        proof {
            assert(sp_ac_records(bytes@, cur as int, w, 0) == Ok::<
                (Seq<AllClassesReplyClassModel>, int),
                DecodeError,
            >((seq![], cur as int)));
            assert(classes@.map_values(|c: AllClassesReplyClass| c.model()) + seq![]
                =~= classes@.map_values(|c: AllClassesReplyClass| c.model()));
        }
        Ok((AllClassesReply { classes }, cur))
    }
}

// ====== AllThreads ======

/// One record of an all-threads reply: a thread identifier.
#[derive(Debug, Clone, Copy, PartialEq, Eq, Structural)]
pub struct AllThreadsReplyThread {
    pub thread_id: VariableLengthId,
}

impl AllThreadsReplyThread {
    /// Decodes one thread record using the object width from the context.
    pub fn decode(bytes: &Vec<u8>, pos: usize, sizes: &IdentifierWidthContext) -> (r: Result<
        (AllThreadsReplyThread, usize),
        DecodeError,
    >)
        ensures
            (match (r, sp_read_vlid(bytes@, pos as int, sizes.object_id_size)) {
                (Ok((v, p)), Ok((dv, dp))) => v.thread_id.value == dv && p as int == dp,
                (Err(e), Err(de)) => e == de,
                _ => false,
            }),
    {
        match VariableLengthId::decode(bytes, pos, sizes.object_id_size) {
            Ok((thread_id, p)) => Ok((AllThreadsReplyThread { thread_id }, p)),
            Err(e) => Err(e),
        }
    }
}

/// Reading `n` thread records in order, each an identifier of the object
/// width.
pub open spec fn sp_thread_records(s: Seq<u8>, pos: int, w: i32, n: nat) -> Result<
    (Seq<AllThreadsReplyThread>, int),
    DecodeError,
>
    decreases n,
{
    if n == 0 {
        Ok((seq![], pos))
    } else {
        match sp_read_vlid(s, pos, w) {
            Err(e) => Err(e),
            Ok((v, p)) => match sp_thread_records(s, p, w, (n - 1) as nat) {
                Err(e) => Err(e),
                Ok((rest, q)) => Ok(
                    (seq![AllThreadsReplyThread { thread_id: VariableLengthId { value: v } }] + rest, q),
                ),
            },
        }
    }
}

/// Reading an all-threads reply payload: an unsigned 32-bit count, then
/// exactly that many thread identifiers of the object width.
pub open spec fn sp_all_threads(s: Seq<u8>, pos: int, w: i32) -> Result<
    (Seq<AllThreadsReplyThread>, int),
    DecodeError,
> {
    match sp_read_u32(s, pos) {
        Err(e) => Err(e),
        Ok((n, p)) => sp_thread_records(s, p, w, n as nat),
    }
}

/// An all-threads reply: every thread currently running in the target.
#[derive(Debug)]
pub struct AllThreadsReply {
    pub threads: Vec<AllThreadsReplyThread>,
}

impl AllThreadsReply {
    /// Decodes an all-threads reply payload.
    #[verifier::loop_isolation(false)]
    pub fn decode(bytes: &Vec<u8>, pos: usize, sizes: &IdentifierWidthContext) -> (r: Result<
        (AllThreadsReply, usize),
        DecodeError,
    >)
        ensures
            (match (r, sp_all_threads(bytes@, pos as int, sizes.object_id_size)) {
                (Ok((v, p)), Ok((dv, dp))) => v.threads@ == dv && p as int == dp,
                (Err(e), Err(de)) => e == de,
                _ => false,
            }),
    {
        let ghost w = sizes.object_id_size;
        let (count, p0) = match read_u32(bytes, pos) {
            Ok(x) => x,
            Err(e) => {
                return Err(e);
            },
        };
        let mut threads: Vec<AllThreadsReplyThread> = Vec::new();
        let mut cur: usize = p0;
        let mut i: u32 = 0;
        while i < count
            invariant
                i <= count,
                sp_append_step(
                    sp_thread_records(bytes@, p0 as int, w, count as nat),
                    threads@,
                    sp_thread_records(bytes@, cur as int, w, (count - i) as nat),
                ),
            decreases count - i,
        {
            let ghost pre = threads@;
            let ghost pre_cur = cur as int;
            let ghost k = (count - i) as nat;
            let (t, p2) = match AllThreadsReplyThread::decode(bytes, cur, sizes) {
                Ok(x) => x,
                Err(e) => {
                    proof {
                        assert(sp_thread_records(bytes@, pre_cur, w, k) == Err::<
                            (Seq<AllThreadsReplyThread>, int),
                            DecodeError,
                        >(e));
                    }
                    return Err(e);
                },
            };
            threads.push(t);
            cur = p2;
            i = i + 1;
            proof {
                assert(sp_thread_records(bytes@, pre_cur, w, k) == (match sp_thread_records(
                    bytes@,
                    cur as int,
                    w,
                    (count - i) as nat,
                ) {
                    Ok((rest, q)) => Ok::<(Seq<AllThreadsReplyThread>, int), DecodeError>(
                        (seq![t] + rest, q),
                    ),
                    Err(e) => Err::<(Seq<AllThreadsReplyThread>, int), DecodeError>(e),
                }));
                if sp_thread_records(bytes@, cur as int, w, (count - i) as nat) is Ok {
                    let (rest, q) = sp_thread_records(bytes@, cur as int, w, (count - i) as nat)->Ok_0;
                    assert(pre + (seq![t] + rest) =~= threads@ + rest);
                }
            }
        }
        proof {
            assert(sp_thread_records(bytes@, cur as int, w, 0) == Ok::<
                (Seq<AllThreadsReplyThread>, int),
                DecodeError,
            >((seq![], cur as int)));
            assert(threads@ + seq![] =~= threads@);
        }
        Ok((AllThreadsReply { threads }, cur))
    }
}

// ====== TopLevelThreadGroups ======

/// One record of a top-level thread-groups reply: a thread-group
/// identifier.
#[derive(Debug, Clone, Copy, PartialEq, Eq, Structural)]
pub struct TopLevelThreadGroupsReplyThreadGroup {
    pub thread_group_id: VariableLengthId,
}

impl TopLevelThreadGroupsReplyThreadGroup {
    /// Decodes one thread-group record using the object width from the
    /// context.
    pub fn decode(bytes: &Vec<u8>, pos: usize, sizes: &IdentifierWidthContext) -> (r: Result<
        (TopLevelThreadGroupsReplyThreadGroup, usize),
        DecodeError,
    >)
        ensures
            (match (r, sp_read_vlid(bytes@, pos as int, sizes.object_id_size)) {
                (Ok((v, p)), Ok((dv, dp))) => v.thread_group_id.value == dv && p as int == dp,
                (Err(e), Err(de)) => e == de,
                _ => false,
            }),
    {
        match VariableLengthId::decode(bytes, pos, sizes.object_id_size) {
            Ok((thread_group_id, p)) => Ok(
                (TopLevelThreadGroupsReplyThreadGroup { thread_group_id }, p),
            ),
            Err(e) => Err(e),
        }
    }
}

/// Reading `n` thread-group records in order, each an identifier of the
/// object width.
pub open spec fn sp_thread_group_records(s: Seq<u8>, pos: int, w: i32, n: nat) -> Result<
    (Seq<TopLevelThreadGroupsReplyThreadGroup>, int),
    DecodeError,
>
    decreases n,
{
    if n == 0 {
        Ok((seq![], pos))
    } else {
        match sp_read_vlid(s, pos, w) {
            Err(e) => Err(e),
            Ok((v, p)) => match sp_thread_group_records(s, p, w, (n - 1) as nat) {
                Err(e) => Err(e),
                Ok((rest, q)) => Ok(
                    (
                        seq![
                            TopLevelThreadGroupsReplyThreadGroup {
                                thread_group_id: VariableLengthId { value: v },
                            },
                        ] + rest,
                        q,
                    ),
                ),
            },
        }
    }
}

/// Reading a top-level thread-groups reply payload: an unsigned 32-bit
/// count, then exactly that many thread-group identifiers.
pub open spec fn sp_top_level_thread_groups(s: Seq<u8>, pos: int, w: i32) -> Result<
    (Seq<TopLevelThreadGroupsReplyThreadGroup>, int),
    DecodeError,
> {
    match sp_read_u32(s, pos) {
        Err(e) => Err(e),
        Ok((n, p)) => sp_thread_group_records(s, p, w, n as nat),
    }
}

/// A top-level thread-groups reply: the thread groups not contained in any
/// other group.
#[derive(Debug)]
pub struct TopLevelThreadGroupsReply {
    pub threads_groups: Vec<TopLevelThreadGroupsReplyThreadGroup>,
}

impl TopLevelThreadGroupsReply {
    /// Decodes a top-level thread-groups reply payload.
    #[verifier::loop_isolation(false)]
    pub fn decode(bytes: &Vec<u8>, pos: usize, sizes: &IdentifierWidthContext) -> (r: Result<
        (TopLevelThreadGroupsReply, usize),
        DecodeError,
    >)
        ensures
            (match (r, sp_top_level_thread_groups(bytes@, pos as int, sizes.object_id_size)) {
                (Ok((v, p)), Ok((dv, dp))) => v.threads_groups@ == dv && p as int == dp,
                (Err(e), Err(de)) => e == de,
                _ => false,
            }),
    {
        let ghost w = sizes.object_id_size;
        let (count, p0) = match read_u32(bytes, pos) {
            Ok(x) => x,
            Err(e) => {
                return Err(e);
            },
        };
        let mut threads_groups: Vec<TopLevelThreadGroupsReplyThreadGroup> = Vec::new();
        let mut cur: usize = p0;
        let mut i: u32 = 0;
        while i < count
            invariant
                i <= count,
                sp_append_step(
                    sp_thread_group_records(bytes@, p0 as int, w, count as nat),
                    threads_groups@,
                    sp_thread_group_records(bytes@, cur as int, w, (count - i) as nat),
                ),
            decreases count - i,
        {
            let ghost pre = threads_groups@;
            let ghost pre_cur = cur as int;
            let ghost k = (count - i) as nat;
            let (t, p2) = match TopLevelThreadGroupsReplyThreadGroup::decode(bytes, cur, sizes) {
                Ok(x) => x,
                Err(e) => {
                    proof {
                        assert(sp_thread_group_records(bytes@, pre_cur, w, k) == Err::<
                            (Seq<TopLevelThreadGroupsReplyThreadGroup>, int),
                            DecodeError,
                        >(e));
                    }
                    return Err(e);
                },
            };
            threads_groups.push(t);
            cur = p2;
            i = i + 1;
            proof {
                assert(sp_thread_group_records(bytes@, pre_cur, w, k) == (
                match sp_thread_group_records(bytes@, cur as int, w, (count - i) as nat) {
                    Ok((rest, q)) => Ok::<
                        (Seq<TopLevelThreadGroupsReplyThreadGroup>, int),
                        DecodeError,
                    >((seq![t] + rest, q)),
                    Err(e) => Err::<(Seq<TopLevelThreadGroupsReplyThreadGroup>, int), DecodeError>(
                        e,
                    ),
                }));
                if sp_thread_group_records(bytes@, cur as int, w, (count - i) as nat) is Ok {
                    let (rest, q) = sp_thread_group_records(bytes@, cur as int, w, (count - i) as nat)->Ok_0;
                    assert(pre + (seq![t] + rest) =~= threads_groups@ + rest);
                }
            }
        }
        proof {
            assert(sp_thread_group_records(bytes@, cur as int, w, 0) == Ok::<
                (Seq<TopLevelThreadGroupsReplyThreadGroup>, int),
                DecodeError,
            >((seq![], cur as int)));
            assert(threads_groups@ + seq![] =~= threads_groups@);
        }
        Ok((TopLevelThreadGroupsReply { threads_groups }, cur))
    }
}

// ====== Dispatch ======

/// A fully decoded reply payload, tagged by the command that produced it.
#[derive(Debug)]
pub enum ReplyPayload {
    Version(VersionReply),
    ClassesBySignature(ClassesBySignatureReply),
    AllClasses(AllClassesReply),
    AllThreads(AllThreadsReply),
    TopLevelThreadGroups(TopLevelThreadGroupsReply),
    IdSizes(IdSizesReply),
    /// The reply to a command that carries no payload.
    Empty,
}

/// A decode that must consume the whole payload: a success that leaves
/// bytes unread is a framing error.
pub open spec fn sp_complete<T>(d: Result<(T, int), DecodeError>, len: int) -> Result<
    T,
    DecodeError,
> {
    match d {
        Err(e) => Err(e),
        Ok((v, end)) => if end == len {
            Ok(v)
        } else {
            Err(DecodeError::LengthMismatch)
        },
    }
}

/// Decodes the payload of a reply, dispatched by the command the reply
/// answers (the correlation layer selects it; the codec never needs to know
/// more).  A nonzero error code in the header short-circuits the decode:
/// the payload is never interpreted after it.  The header's length field
/// must equal 11 bytes of header plus the payload actually present, and
/// every decoder must consume the payload exactly.
pub fn decode_reply_payload(
    header: &ReplyPacketHeader,
    command: Command,
    payload: &Vec<u8>,
    sizes: &IdentifierWidthContext,
) -> (r: Result<ReplyPayload, DecodeError>)
    ensures
        header.error_code != 0 ==> r == Err::<ReplyPayload, DecodeError>(
            DecodeError::ReplyError(header.error_code),
        ),
        header.error_code == 0 && header.length != 11 + payload@.len() ==> r == Err::<
            ReplyPayload,
            DecodeError,
        >(DecodeError::LengthMismatch),
        header.error_code == 0 && header.length == 11 + payload@.len() ==> (match command {
            Command::VirtualMachineVersion => (match (
                r,
                sp_complete(sp_version(payload@, 0), payload@.len() as int),
            ) {
                (Ok(ReplyPayload::Version(v)), Ok(m)) => v.model() == m,
                (Err(e), Err(de)) => e == de,
                _ => false,
            }),
            Command::VirtualMachineClassesBySignature => (match (
                r,
                sp_complete(
                    sp_classes_by_signature(payload@, 0, sizes.reference_type_id_size),
                    payload@.len() as int,
                ),
            ) {
                (Ok(ReplyPayload::ClassesBySignature(v)), Ok(m)) => v.classes@ == m,
                (Err(e), Err(de)) => e == de,
                _ => false,
            }),
            Command::VirtualMachineAllClasses => (match (
                r,
                sp_complete(
                    sp_all_classes(payload@, 0, sizes.reference_type_id_size),
                    payload@.len() as int,
                ),
            ) {
                (Ok(ReplyPayload::AllClasses(v)), Ok(m)) => v.model() == m,
                (Err(e), Err(de)) => e == de,
                _ => false,
            }),
            Command::VirtualMachineAllThreads => (match (
                r,
                sp_complete(
                    sp_all_threads(payload@, 0, sizes.object_id_size),
                    payload@.len() as int,
                ),
            ) {
                (Ok(ReplyPayload::AllThreads(v)), Ok(m)) => v.threads@ == m,
                (Err(e), Err(de)) => e == de,
                _ => false,
            }),
            Command::VirtualMachineTopLevelThreadGroups => (match (
                r,
                sp_complete(
                    sp_top_level_thread_groups(payload@, 0, sizes.object_id_size),
                    payload@.len() as int,
                ),
            ) {
                (Ok(ReplyPayload::TopLevelThreadGroups(v)), Ok(m)) => v.threads_groups@ == m,
                (Err(e), Err(de)) => e == de,
                _ => false,
            }),
            Command::VirtualMachineIDSizes => (match (
                r,
                sp_complete(sp_id_sizes(payload@, 0), payload@.len() as int),
            ) {
                (Ok(ReplyPayload::IdSizes(v)), Ok(m)) => v == m,
                (Err(e), Err(de)) => e == de,
                _ => false,
            }),
            _ => (match r {
                Ok(ReplyPayload::Empty) => payload@.len() == 0,
                Err(e) => payload@.len() != 0 && e == DecodeError::LengthMismatch,
                _ => false,
            }),
        }),
{
    if header.error_code != 0 {
        return Err(DecodeError::ReplyError(header.error_code));
    }
    let pl: u64 = payload.len() as u64;
    if pl > 0xFFFFFFF4 || (header.length as u64) != 11 + pl {
        return Err(DecodeError::LengthMismatch);
    }
    match command {
        Command::VirtualMachineVersion => {
            let (v, end) = match VersionReply::decode(payload, 0) {
                Ok(x) => x,
                Err(e) => {
                    return Err(e);
                },
            };
            if end != payload.len() {
                return Err(DecodeError::LengthMismatch);
            }
            Ok(ReplyPayload::Version(v))
        },
        Command::VirtualMachineClassesBySignature => {
            let (v, end) = match ClassesBySignatureReply::decode(payload, 0, sizes) {
                Ok(x) => x,
                Err(e) => {
                    return Err(e);
                },
            };
            if end != payload.len() {
                return Err(DecodeError::LengthMismatch);
            }
            Ok(ReplyPayload::ClassesBySignature(v))
        },
        Command::VirtualMachineAllClasses => {
            let (v, end) = match AllClassesReply::decode(payload, 0, sizes) {
                Ok(x) => x,
                Err(e) => {
                    return Err(e);
                },
            };
            if end != payload.len() {
                return Err(DecodeError::LengthMismatch);
            }
            Ok(ReplyPayload::AllClasses(v))
        },
        Command::VirtualMachineAllThreads => {
            let (v, end) = match AllThreadsReply::decode(payload, 0, sizes) {
                Ok(x) => x,
                Err(e) => {
                    return Err(e);
                },
            };
            if end != payload.len() {
                return Err(DecodeError::LengthMismatch);
            }
            Ok(ReplyPayload::AllThreads(v))
        },
        Command::VirtualMachineTopLevelThreadGroups => {
            let (v, end) = match TopLevelThreadGroupsReply::decode(payload, 0, sizes) {
                Ok(x) => x,
                Err(e) => {
                    return Err(e);
                },
            };
            if end != payload.len() {
                return Err(DecodeError::LengthMismatch);
            }
            Ok(ReplyPayload::TopLevelThreadGroups(v))
        },
        Command::VirtualMachineIDSizes => {
            let (v, end) = match IdSizesReply::decode(payload, 0) {
                Ok(x) => x,
                Err(e) => {
                    return Err(e);
                },
            };
            if end != payload.len() {
                return Err(DecodeError::LengthMismatch);
            }
            Ok(ReplyPayload::IdSizes(v))
        },
        _ => {
            if payload.len() != 0 {
                return Err(DecodeError::LengthMismatch);
            }
            Ok(ReplyPayload::Empty)
        },
    }
}

} // verus!
