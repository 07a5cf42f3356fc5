//! Client-side codec for a request/reply debugger wire protocol.
//!
//! A controller sends fixed-format command packets to a running virtual
//! machine and receives reply packets whose payload layout depends both on
//! the command that was issued and on a handful of identifier byte-widths
//! negotiated once per connection.  This crate provides the packet framing
//! and payload codec: big-endian primitives, the opcode registry, the
//! runtime-parameterized variable-width identifier type, the packet header
//! codec, and the per-command reply decoders.

pub mod bytes;
pub mod commands;
pub mod ids;
pub mod replies;

use vstd::prelude::*;

verus! {

/// Every way a decode operation in this crate can fail.
///
/// All failures are local, recoverable errors reported to the immediate
/// caller; a multi-record decode aborts on the first offending field and
/// never returns a partial record.
#[derive(Debug, Clone, Copy, PartialEq, Eq, Structural)]
pub enum DecodeError {
    /// Fewer bytes were available than the wire format requires.
    TruncatedInput,
    /// A two-byte opcode outside the registry of defined commands.
    UnknownOpcode(u16),
    /// A type-tag or class-status value outside its defined set.
    InvalidEnumValue(u32),
    /// An identifier width outside {1, 2, 4, 8}.
    InvalidIdWidth(i32),
    /// A length-prefixed string whose bytes are not valid UTF-8.
    StringEncodingError,
    /// A length or count field that disagrees with the data actually present.
    LengthMismatch,
    /// A nonzero error code in a reply header; the payload must not be
    /// interpreted further.
    ReplyError(u16),
}

} // verus!
