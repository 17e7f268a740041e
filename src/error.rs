use vstd::prelude::*;

verus! {

/// Largest number of bytes kept after a failure, for diagnosis.
pub const DUMP_WINDOW: usize = 256;

/// Why decoding stopped. Every one of these ends the decode session.
#[derive(Clone, Copy, Debug, PartialEq, Eq, Structural)]
pub enum ErrorKind {
    /// A read asked for more bytes than remain.
    UnexpectedEof,
    /// A packet declares a body longer than what remains of the stream.
    TruncatedPacket,
    /// A command tag outside the known opcode table.
    UnknownOpcode { tag: u8 },
    /// A second-level tag of the extension temp entity that is not known.
    UnknownSubOpcode { tag: u8 },
    /// A temp-entity type byte that is not known.
    UnknownTempEntityType { tag: u8 },
    /// No terminator before the end of the data.
    MalformedString,
    /// The first line of the input is not the expected header.
    UnexpectedHeader,
}

/// A fatal decode failure: what went wrong, where, and the bytes that follow.
#[derive(Clone, Debug)]
pub struct DecodeError {
    pub kind: ErrorKind,
    /// Offset of the cursor in the buffer being read when decoding failed.
    pub offset: usize,
    /// The bytes at and after `offset`, at most `DUMP_WINDOW` of them.
    pub context: Vec<u8>,
}

/// The diagnostic window of `s` that starts at `off`.
pub open spec fn dump_window(s: Seq<u8>, off: int) -> Seq<u8> {
    if off + DUMP_WINDOW <= s.len() {
        s.subrange(off, off + DUMP_WINDOW)
    } else {
        s.subrange(off, s.len() as int)
    }
}

/// A decoding step in the model: the value and the offset after it, or the
/// failure and the offset where it happened.
pub type Step<T> = Result<(T, int), (ErrorKind, int)>;

/// `e` is the failure `f` reported while reading `s`.
pub open spec fn is_error(e: DecodeError, s: Seq<u8>, f: (ErrorKind, int)) -> bool {
    &&& e.kind == f.0
    &&& e.offset == f.1
    &&& e.context@ == dump_window(s, f.1)
}

/// The text that `nu_pretty_hex::pretty_hex` makes of some bytes.
pub uninterp spec fn pretty_hex_of(b: Seq<u8>) -> Seq<char>;

/// Relies on nu_pretty_hex::pretty_hex: a hexdump that depends on the bytes alone,
/// and is empty for no bytes.
#[verifier::external_body]
fn pretty_hex(b: &Vec<u8>) -> (r: String)
    ensures
        r@ == pretty_hex_of(b@),
        b@.len() == 0 ==> r@.len() == 0,
{
    nu_pretty_hex::pretty_hex(b)
}

impl DecodeError {
    /// The context bytes as a multi-line hexdump.
    pub fn hex_dump(&self) -> (r: String)
        ensures
            r@ == pretty_hex_of(self.context@),
            self.context@.len() == 0 ==> r@.len() == 0,
    {
        pretty_hex(&self.context)
    }
}

} // verus!
