use vstd::prelude::*;

use crate::command::{follows_command, next_command, spec_command, Command};
use crate::cursor::{fits, follows, spec_terminated, spec_u32, ByteCursor};
use crate::error::{is_error, DecodeError, ErrorKind, Step};
use crate::vector::{read_vector, spec_vector, Vector};

verus! {

/// The high bit of the framing word: the packet went from client to server.
pub const CLIENT_TO_SERVER: u32 = 0x8000_0000;
/// Bytes before a packet's body: the framing word and three floats.
pub const FRAME_HEADER_LEN: usize = 16;
/// The byte that ends the header line.
pub const NEWLINE: u8 = 10;

#[derive(Clone, Copy, Debug, PartialEq, Eq, Structural)]
pub enum Direction {
    ClientToServer,
    ServerToClient,
}

/// A packet: its direction, view angles, and a cursor over its body.
pub struct Packet {
    pub direction: Direction,
    pub view_angles: Vector,
    pub body: ByteCursor,
}

/// A packet as a value: the body is its bytes.
pub struct PacketModel {
    pub direction: Direction,
    pub view_angles: Vector,
    pub body: Seq<u8>,
}

/// The direction that a framing word states.
pub open spec fn direction_of(word: u32) -> Direction {
    if word >= CLIENT_TO_SERVER {
        Direction::ClientToServer
    } else {
        Direction::ServerToClient
    }
}

/// The body length that a framing word states: its low 31 bits.
pub open spec fn body_len_of(word: u32) -> int {
    word as int % (CLIENT_TO_SERVER as int)
}

/// The next packet of the stream `s` from `p`: `None` when nothing remains.
pub open spec fn spec_packet(s: Seq<u8>, p: int) -> Step<Option<PacketModel>> {
    if p >= s.len() {
        Ok((None, p))
    } else {
        match spec_u32(s, p) {
            Err(f) => Err(f),
            Ok((word, p1)) => match spec_vector(s, p1) {
                Err(f) => Err(f),
                Ok((view_angles, p2)) => {
                    let n = body_len_of(word);
                    if !fits(s, p2, n) {
                        Err((ErrorKind::TruncatedPacket, p2))
                    } else {
                        Ok(
                            (
                                Some(
                                    PacketModel {
                                        direction: direction_of(word),
                                        view_angles,
                                        body: s.subrange(p2, p2 + n),
                                    },
                                ),
                                p2 + n,
                            ),
                        )
                    }
                },
            },
        }
    }
}

/// The header line `-1`.
pub open spec fn expected_header() -> Seq<u8> {
    seq![45u8, 49u8]
}

/// The header: the first line, which must read `-1`.
pub open spec fn spec_header(s: Seq<u8>, p: int) -> Step<Seq<u8>> {
    match spec_terminated(s, p, NEWLINE) {
        Err(f) => Err(f),
        Ok((line, q)) => if line == expected_header() {
            Ok((line, q))
        } else {
            Err((ErrorKind::UnexpectedHeader, q))
        },
    }
}

/// `r` is the packet step `st` of the stream `s`.
pub open spec fn follows_packet(
    r: Result<Option<Packet>, DecodeError>,
    s: Seq<u8>,
    st: Step<Option<PacketModel>>,
    after: int,
) -> bool {
    match st {
        Ok((v, e)) => r is Ok && after == e && match (r->Ok_0, v) {
            (None, None) => true,
            (Some(pk), Some(m)) => pk.direction == m.direction && pk.view_angles == m.view_angles
                && pk.body.bytes() == m.body && pk.body.pos() == 0,
            _ => false,
        },
        Err(f) => r is Err && is_error(r->Err_0, s, f),
    }
}

impl Packet {
    /// The next command of the body; `Ok(None)` at its end.
    pub fn read_command(&mut self) -> (r: Result<Option<Command>, DecodeError>)
        ensures
            final(self).direction == old(self).direction,
            final(self).view_angles == old(self).view_angles,
            final(self).body.bytes() == old(self).body.bytes(),
            follows_command(
                r,
                old(self).body.bytes(),
                spec_command(old(self).body.bytes(), old(self).body.pos()),
                final(self).body.pos(),
            ),
    {
        next_command(&mut self.body)
    }
}

/// Reads a demo stream: its header, then its packets in order.
pub struct Parser {
    buf: ByteCursor,
}

impl Parser {
    /// The whole input.
    pub closed spec fn input(&self) -> Seq<u8> {
        self.buf.bytes()
    }

    /// How much of the input has been read.
    pub closed spec fn pos(&self) -> int {
        self.buf.pos()
    }

    pub fn new(buf: Vec<u8>) -> (r: Parser)
        ensures
            r.input() == buf@,
            r.pos() == 0,
    {
        Parser { buf: ByteCursor::new(buf) }
    }

    pub fn remaining(&self) -> (r: usize)
        ensures
            r == self.input().len() - self.pos(),
            0 <= self.pos() <= self.input().len(),
    {
        self.buf.remaining()
    }

    /// Reads the header line; it must be `-1`.
    pub fn parse_header(&mut self) -> (r: Result<Vec<u8>, DecodeError>)
        ensures
            final(self).input() == old(self).input(),
            follows(r, old(self).input(), spec_header(old(self).input(), old(self).pos()), final(self).pos()),
    {
        let line = self.buf.read_terminated(NEWLINE)?;
        if line.len() == 2 && line[0] == 45u8 && line[1] == 49u8 {
            proof {
                assert(line@ =~= expected_header());
            }
            Ok(line)
        } else {
            Err(self.buf.fail(ErrorKind::UnexpectedHeader))
        }
    }

    /// Reads the next packet; `Ok(None)` when the input is exhausted.
    pub fn parse_packet(&mut self) -> (r: Result<Option<Packet>, DecodeError>)
        ensures
            final(self).input() == old(self).input(),
            follows_packet(r, old(self).input(), spec_packet(old(self).input(), old(self).pos()), final(self).pos()),
    {
        if self.buf.remaining() == 0 {
            return Ok(None);
        }
        let word = self.buf.read_u32_le()?;
        let view_angles = read_vector(&mut self.buf)?;
        let direction = if word >= CLIENT_TO_SERVER {
            Direction::ClientToServer
        } else {
            Direction::ServerToClient
        };
        let len = (word % CLIENT_TO_SERVER) as usize;
        if self.buf.remaining() < len {
            return Err(self.buf.fail(ErrorKind::TruncatedPacket));
        }
        let body = self.buf.take_fixed(len);
        Ok(Some(Packet { direction, view_angles, body: ByteCursor::new(body) }))
    }
}

/// Every packet takes its framing word, its three floats and its body, which is the
/// slice of the input right after them; the next packet starts where it ends.
pub proof fn lemma_packet_frame(s: Seq<u8>, p: int)
    requires
        0 <= p <= s.len(),
    ensures
        match spec_packet(s, p) {
            Ok((Some(m), e)) => e == p + FRAME_HEADER_LEN + m.body.len() && e <= s.len() && m.body
                == s.subrange(p + FRAME_HEADER_LEN, e),
            Ok((None, e)) => e == p && p == s.len(),
            Err(_) => true,
        },
{
}

/// All packets from `p` to the end of the input, if every one of them decodes.
pub open spec fn spec_packets(s: Seq<u8>, p: int) -> Option<Seq<PacketModel>>
    decreases s.len() - p,
{
    match spec_packet(s, p) {
        Ok((None, _)) => Some(seq![]),
        Ok((Some(m), e)) => if e <= p || e > s.len() {
            None
        } else {
            match spec_packets(s, e) {
                Some(rest) => Some(seq![m] + rest),
                None => None,
            }
        },
        Err(_) => None,
    }
}

/// The bytes that a run of packets takes, headers included.
pub open spec fn framed_len(pks: Seq<PacketModel>) -> int
    decreases pks.len(),
{
    if pks.len() == 0 {
        0
    } else {
        FRAME_HEADER_LEN + pks[0].body.len() + framed_len(pks.drop_first())
    }
}

/// Reading packets until none is left partitions the input: the frames together
/// take exactly the bytes that remained.
pub proof fn lemma_packets_partition(s: Seq<u8>, p: int)
    requires
        0 <= p <= s.len(),
        spec_packets(s, p) is Some,
    ensures
        framed_len(spec_packets(s, p)->Some_0) == s.len() - p,
    decreases s.len() - p,
{
    lemma_packet_frame(s, p);
    match spec_packet(s, p) {
        Ok((Some(m), e)) => {
            lemma_packets_partition(s, e);
            let rest = spec_packets(s, e)->Some_0;
            assert((seq![m] + rest).drop_first() =~= rest);
        },
        _ => {},
    }
}

} // verus!
