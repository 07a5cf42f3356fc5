//! The opcode registry and the packet header codec.
//!
//! A command is sent on the wire as a single big-endian two-byte integer:
//! the high byte is the command-set number and the low byte the command
//! number within that set.  The registry covers the VM-level introspection
//! command set; decoding rejects every value outside the defined set.
//!
//! Both packet headers occupy a fixed 11 bytes: length, correlation id,
//! flags, and either the opcode (commands) or an error code (replies).

use vstd::prelude::*;

use crate::DecodeError;
use crate::bytes::{
    be_val, lemma_pow256_vals, lemma_be_val_bound, read_u16, read_u32, read_u8, res_eq,
    sp_read_u16, sp_read_u32, sp_read_u8, write_u16, write_u32, write_u8,
};

verus! {

/// A command defined by the protocol, one per (command-set, command) pair.
#[derive(Debug, Clone, Copy, PartialEq, Eq, Structural)]
pub enum Command {
    VirtualMachineVersion,
    VirtualMachineClassesBySignature,
    VirtualMachineAllClasses,
    VirtualMachineAllThreads,
    VirtualMachineTopLevelThreadGroups,
    VirtualMachineDispose,
    VirtualMachineIDSizes,
    VirtualMachineSuspend,
    VirtualMachineResume,
}

/// The two-byte wire code of a command: high byte 1 for the VM command set,
/// low byte the command number within the set.
pub open spec fn command_code(c: Command) -> u16 {
    match c {
        Command::VirtualMachineVersion => 0x0101,
        Command::VirtualMachineClassesBySignature => 0x0102,
        Command::VirtualMachineAllClasses => 0x0103,
        Command::VirtualMachineAllThreads => 0x0104,
        Command::VirtualMachineTopLevelThreadGroups => 0x0105,
        Command::VirtualMachineDispose => 0x0106,
        Command::VirtualMachineIDSizes => 0x0107,
        Command::VirtualMachineSuspend => 0x0108,
        Command::VirtualMachineResume => 0x0109,
    }
}

/// The command a two-byte wire code stands for, if any.
pub open spec fn command_of_code(v: u16) -> Option<Command> {
    if v == 0x0101 {
        Some(Command::VirtualMachineVersion)
    } else if v == 0x0102 {
        Some(Command::VirtualMachineClassesBySignature)
    } else if v == 0x0103 {
        Some(Command::VirtualMachineAllClasses)
    } else if v == 0x0104 {
        Some(Command::VirtualMachineAllThreads)
    } else if v == 0x0105 {
        Some(Command::VirtualMachineTopLevelThreadGroups)
    } else if v == 0x0106 {
        Some(Command::VirtualMachineDispose)
    } else if v == 0x0107 {
        Some(Command::VirtualMachineIDSizes)
    } else if v == 0x0108 {
        Some(Command::VirtualMachineSuspend)
    } else if v == 0x0109 {
        Some(Command::VirtualMachineResume)
    } else {
        None
    }
}

/// Reading a command: a big-endian two-byte code, rejected as
/// `UnknownOpcode` when it is outside the defined set.
pub open spec fn sp_command(s: Seq<u8>, pos: int) -> Result<(Command, int), DecodeError> {
    match sp_read_u16(s, pos) {
        Err(e) => Err(e),
        Ok((v, p)) => match command_of_code(v) {
            Some(c) => Ok((c, p)),
            None => Err(DecodeError::UnknownOpcode(v)),
        },
    }
}

impl Command {
    /// The two-byte wire code of this command.
    pub fn code(self) -> (r: u16)
        ensures
            r == command_code(self),
    {
        match self {
            Command::VirtualMachineVersion => 0x0101,
            Command::VirtualMachineClassesBySignature => 0x0102,
            Command::VirtualMachineAllClasses => 0x0103,
            Command::VirtualMachineAllThreads => 0x0104,
            Command::VirtualMachineTopLevelThreadGroups => 0x0105,
            Command::VirtualMachineDispose => 0x0106,
            Command::VirtualMachineIDSizes => 0x0107,
            Command::VirtualMachineSuspend => 0x0108,
            Command::VirtualMachineResume => 0x0109,
        }
    }

    /// The command a two-byte code stands for, or `UnknownOpcode` for every
    /// value outside the defined set.
    pub fn from_code(v: u16) -> (r: Result<Command, DecodeError>)
        ensures
            command_of_code(v) is Some ==> r == Ok::<Command, DecodeError>(command_of_code(v)->0),
            command_of_code(v) is None ==> r == Err::<Command, DecodeError>(
                DecodeError::UnknownOpcode(v),
            ),
    {
        if v == 0x0101 {
            Ok(Command::VirtualMachineVersion)
        } else if v == 0x0102 {
            Ok(Command::VirtualMachineClassesBySignature)
        } else if v == 0x0103 {
            Ok(Command::VirtualMachineAllClasses)
        } else if v == 0x0104 {
            Ok(Command::VirtualMachineAllThreads)
        } else if v == 0x0105 {
            Ok(Command::VirtualMachineTopLevelThreadGroups)
        } else if v == 0x0106 {
            Ok(Command::VirtualMachineDispose)
        } else if v == 0x0107 {
            Ok(Command::VirtualMachineIDSizes)
        } else if v == 0x0108 {
            Ok(Command::VirtualMachineSuspend)
        } else if v == 0x0109 {
            Ok(Command::VirtualMachineResume)
        } else {
            Err(DecodeError::UnknownOpcode(v))
        }
    }

    /// Decodes a command from its two-byte big-endian wire code.
    pub fn decode(bytes: &Vec<u8>, pos: usize) -> (r: Result<(Command, usize), DecodeError>)
        ensures
            res_eq(r, sp_command(bytes@, pos as int)),
    {
        match read_u16(bytes, pos) {
            Err(e) => Err(e),
            Ok((v, p)) => match Command::from_code(v) {
                Ok(c) => Ok((c, p)),
                Err(e) => Err(e),
            },
        }
    }

    /// Appends the two-byte big-endian wire code of this command.
    pub fn encode(self, out: &mut Vec<u8>)
        ensures
            final(out)@.len() == old(out)@.len() + 2,
            final(out)@.subrange(0, old(out)@.len() as int) == old(out)@,
            be_val(final(out)@.subrange(old(out)@.len() as int, final(out)@.len() as int))
                == command_code(self),
    {
        let c = self.code();
        write_u16(out, c);
    }
}

/// Law: the opcode registry is a bidirectional mapping — encoding any
/// defined command and decoding the resulting code yields that command
/// again.  (Rejection of undefined codes is part of the contract of
/// `Command::from_code`.)
pub proof fn lemma_command_round_trip(c: Command)
    ensures
        command_of_code(command_code(c)) == Some(c),
{
}

/// The header of an outgoing command packet.  `length` counts the whole
/// packet, header included; bit 0x80 of `flags` is reserved to mark replies
/// and is always clear on a command.
#[derive(Debug, Clone, Copy, PartialEq, Eq, Structural)]
pub struct CommandPacketHeader {
    pub length: u32,
    pub id: u32,
    pub flags: u8,
    pub command: Command,
}

/// The header of an incoming reply packet: the same 11-byte layout as a
/// command header, but the final two bytes carry an error code in place of
/// the opcode.
#[derive(Debug, Clone, Copy, PartialEq, Eq, Structural)]
pub struct ReplyPacketHeader {
    pub length: u32,
    pub id: u32,
    pub flags: u8,
    pub error_code: u16,
}

/// Reading a command packet header: length, id, flags, opcode.
pub open spec fn sp_cmd_header(s: Seq<u8>, pos: int) -> Result<
    (CommandPacketHeader, int),
    DecodeError,
> {
    match sp_read_u32(s, pos) {
        Err(e) => Err(e),
        Ok((length, p1)) => match sp_read_u32(s, p1) {
            Err(e) => Err(e),
            Ok((id, p2)) => match sp_read_u8(s, p2) {
                Err(e) => Err(e),
                Ok((flags, p3)) => match sp_command(s, p3) {
                    Err(e) => Err(e),
                    Ok((command, p4)) => Ok(
                        (CommandPacketHeader { length, id, flags, command }, p4),
                    ),
                },
            },
        },
    }
}

/// Reading a reply packet header: length, id, flags, error code.
pub open spec fn sp_reply_header(s: Seq<u8>, pos: int) -> Result<
    (ReplyPacketHeader, int),
    DecodeError,
> {
    match sp_read_u32(s, pos) {
        Err(e) => Err(e),
        Ok((length, p1)) => match sp_read_u32(s, p1) {
            Err(e) => Err(e),
            Ok((id, p2)) => match sp_read_u8(s, p2) {
                Err(e) => Err(e),
                Ok((flags, p3)) => match sp_read_u16(s, p3) {
                    Err(e) => Err(e),
                    Ok((error_code, p4)) => Ok(
                        (ReplyPacketHeader { length, id, flags, error_code }, p4),
                    ),
                },
            },
        },
    }
}

impl CommandPacketHeader {
    /// The on-wire size of a packet header in bytes.
    pub fn get_length() -> (r: usize)
        ensures
            r == 11,
    {
        4 + 4 + 1 + 2
    }

    /// Encodes this header into its fixed 11-byte wire form.
    pub fn encode(&self) -> (r: Vec<u8>)
        ensures
            r@.len() == 11,
            be_val(r@.subrange(0, 4)) == self.length,
            be_val(r@.subrange(4, 8)) == self.id,
            r@[8] == self.flags,
            be_val(r@.subrange(9, 11)) == command_code(self.command),
    {
        let mut out: Vec<u8> = Vec::new();
        write_u32(&mut out, self.length);
        let ghost v1 = out@;
        write_u32(&mut out, self.id);
        let ghost v2 = out@;
        write_u8(&mut out, self.flags);
        let c = self.command.code();
        write_u16(&mut out, c);
        proof {
            assert(out@.subrange(0, 4) =~= v1.subrange(0, 4));
            assert(out@.subrange(4, 8) =~= v2.subrange(4, 8));
            assert(v1.subrange(0, 4) =~= v1);
        }
        out
    }

    /// Decodes an 11-byte command packet header, failing with
    /// `TruncatedInput` when fewer than 11 bytes are available and with
    /// `UnknownOpcode` when the final two bytes name no defined command.
    pub fn decode(bytes: &Vec<u8>, pos: usize) -> (r: Result<
        (CommandPacketHeader, usize),
        DecodeError,
    >)
        ensures
            res_eq(r, sp_cmd_header(bytes@, pos as int)),
    {
        let (length, p1) = match read_u32(bytes, pos) {
            Ok(x) => x,
            Err(e) => {
                return Err(e);
            },
        };
        let (id, p2) = match read_u32(bytes, p1) {
            Ok(x) => x,
            Err(e) => {
                return Err(e);
            },
        };
        let (flags, p3) = match read_u8(bytes, p2) {
            Ok(x) => x,
            Err(e) => {
                return Err(e);
            },
        };
        let (command, p4) = match Command::decode(bytes, p3) {
            Ok(x) => x,
            Err(e) => {
                return Err(e);
            },
        };
        Ok((CommandPacketHeader { length, id, flags, command }, p4))
    }
}

/// Builds and encodes the header for a command packet whose payload holds
/// `payload_length` bytes; the length field counts the 11 header bytes plus
/// the payload.
pub fn encode_command_header(id: u32, flags: u8, command: Command, payload_length: u32) -> (r: Vec<
    u8,
>)
    requires
        flags & 0x80 == 0,
        payload_length <= u32::MAX - 11,
    ensures
        r@.len() == 11,
        be_val(r@.subrange(0, 4)) == 11 + payload_length,
        be_val(r@.subrange(4, 8)) == id,
        r@[8] == flags,
        be_val(r@.subrange(9, 11)) == command_code(command),
{
    let header = CommandPacketHeader { length: 11 + payload_length, id, flags, command };
    header.encode()
}

impl ReplyPacketHeader {
    /// A placeholder header: zero length, an id no live request uses, no
    /// flags, and a zero (success) error code.
    pub fn default() -> (r: Self)
        ensures
            r == (ReplyPacketHeader { length: 0, id: 0xFFFFFFFF, flags: 0, error_code: 0 }),
    {
        ReplyPacketHeader { length: 0, id: 0xFFFFFFFF, flags: 0, error_code: 0 }
    }

    /// The on-wire size of a packet header in bytes.
    pub fn get_length() -> (r: usize)
        ensures
            r == 11,
    {
        4 + 4 + 1 + 2
    }

    /// Whether this reply reports success; a nonzero error code means the
    /// payload that would normally follow is absent or undefined.
    pub fn is_success(&self) -> (r: bool)
        ensures
            r == (self.error_code == 0),
    {
        self.error_code == 0
    }

    /// Encodes this header into its fixed 11-byte wire form.
    pub fn encode(&self) -> (r: Vec<u8>)
        ensures
            r@.len() == 11,
            be_val(r@.subrange(0, 4)) == self.length,
            be_val(r@.subrange(4, 8)) == self.id,
            r@[8] == self.flags,
            be_val(r@.subrange(9, 11)) == self.error_code,
    {
        let mut out: Vec<u8> = Vec::new();
        write_u32(&mut out, self.length);
        let ghost v1 = out@;
        write_u32(&mut out, self.id);
        let ghost v2 = out@;
        write_u8(&mut out, self.flags);
        write_u16(&mut out, self.error_code);
        proof {
            assert(out@.subrange(0, 4) =~= v1.subrange(0, 4));
            assert(out@.subrange(4, 8) =~= v2.subrange(4, 8));
            assert(v1.subrange(0, 4) =~= v1);
        }
        out
    }

    /// Decodes an 11-byte reply packet header, failing with
    /// `TruncatedInput` when fewer than 11 bytes are available.
    pub fn decode(bytes: &Vec<u8>, pos: usize) -> (r: Result<
        (ReplyPacketHeader, usize),
        DecodeError,
    >)
        ensures
            res_eq(r, sp_reply_header(bytes@, pos as int)),
    {
        let (length, p1) = match read_u32(bytes, pos) {
            Ok(x) => x,
            Err(e) => {
                return Err(e);
            },
        };
        let (id, p2) = match read_u32(bytes, p1) {
            Ok(x) => x,
            Err(e) => {
                return Err(e);
            },
        };
        let (flags, p3) = match read_u8(bytes, p2) {
            Ok(x) => x,
            Err(e) => {
                return Err(e);
            },
        };
        let (error_code, p4) = match read_u16(bytes, p3) {
            Ok(x) => x,
            Err(e) => {
                return Err(e);
            },
        };
        Ok((ReplyPacketHeader { length, id, flags, error_code }, p4))
    }
}

/// Law: an encoded command header decodes back to the same header.  The
/// premises are exactly what `CommandPacketHeader::encode` guarantees of its
/// output, so composing the two gives the round trip for every header.
pub proof fn lemma_command_header_round_trip(h: CommandPacketHeader, s: Seq<u8>)
    requires
        s.len() == 11,
        be_val(s.subrange(0, 4)) == h.length,
        be_val(s.subrange(4, 8)) == h.id,
        s[8] == h.flags,
        be_val(s.subrange(9, 11)) == command_code(h.command),
    ensures
        sp_cmd_header(s, 0) == Ok::<(CommandPacketHeader, int), DecodeError>((h, 11)),
{
    lemma_pow256_vals();
    lemma_be_val_bound(s.subrange(0, 4));
    lemma_be_val_bound(s.subrange(4, 8));
    lemma_be_val_bound(s.subrange(9, 11));
    lemma_command_round_trip(h.command);
}

/// Law: an encoded reply header decodes back to the same header, under the
/// premises that `ReplyPacketHeader::encode` guarantees of its output.
pub proof fn lemma_reply_header_round_trip(h: ReplyPacketHeader, s: Seq<u8>)
    requires
        s.len() == 11,
        be_val(s.subrange(0, 4)) == h.length,
        be_val(s.subrange(4, 8)) == h.id,
        s[8] == h.flags,
        be_val(s.subrange(9, 11)) == h.error_code,
    ensures
        sp_reply_header(s, 0) == Ok::<(ReplyPacketHeader, int), DecodeError>((h, 11)),
{
    lemma_pow256_vals();
    lemma_be_val_bound(s.subrange(0, 4));
    lemma_be_val_bound(s.subrange(4, 8));
    lemma_be_val_bound(s.subrange(9, 11));
}

} // verus!
