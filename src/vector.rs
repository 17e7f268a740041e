use vstd::prelude::*;

use crate::cursor::{fits, follows, le32, ByteCursor};
use crate::error::{DecodeError, ErrorKind, Step};

verus! {

/// Three 32-bit floats, each kept as its raw IEEE-754 bit pattern.
#[derive(Clone, Copy, Debug, PartialEq, Eq, Structural)]
pub struct Vector {
    pub x: u32,
    pub y: u32,
    pub z: u32,
}

impl View for Vector {
    type V = Vector;

    open spec fn view(&self) -> Vector {
        *self
    }
}

/// Three little-endian floats at `p`; all twelve bytes must remain.
pub open spec fn spec_vector(s: Seq<u8>, p: int) -> Step<Vector> {
    if fits(s, p, 12) {
        Ok((Vector { x: le32(s, p), y: le32(s, p + 4), z: le32(s, p + 8) }, p + 12))
    } else {
        Err((ErrorKind::UnexpectedEof, p))
    }
}

pub fn read_vector(from: &mut ByteCursor) -> (r: Result<Vector, DecodeError>)
    ensures
        final(from).bytes() == old(from).bytes(),
        follows(r, old(from).bytes(), spec_vector(old(from).bytes(), old(from).pos()), final(from).pos()),
{
    if from.remaining() < 12 {
        return Err(from.fail(ErrorKind::UnexpectedEof));
    }
    let x = from.take_u32();
    let y = from.take_u32();
    let z = from.take_u32();
    Ok(Vector { x, y, z })
}

} // verus!
