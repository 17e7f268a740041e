use vstd::prelude::*;

use crate::cursor::{follows, fits, le16, spec_u8, ByteCursor};
use crate::error::{DecodeError, ErrorKind, Step};

verus! {

/// More mask bits follow in a second byte.
pub const MOREBITS: u32 = 0x1;
pub const ORIGIN1: u32 = 0x2;
pub const ORIGIN2: u32 = 0x4;
pub const ORIGIN3: u32 = 0x8;
pub const ANGLE2: u32 = 0x10;
pub const STEP: u32 = 0x20;
pub const FRAME: u32 = 0x40;
pub const SIGNAL: u32 = 0x80;
pub const ANGLE1: u32 = 0x100;
pub const ANGLE3: u32 = 0x200;
pub const MODEL: u32 = 0x400;
pub const COLORMAP: u32 = 0x800;
pub const SKIN: u32 = 0x1000;
pub const EFFECTS: u32 = 0x2000;
/// The entity number takes two bytes rather than one.
pub const LONGENTITY: u32 = 0x4000;
/// More mask bits follow in a third byte.
pub const EXTEND1: u32 = 0x8000;
pub const DELTA: u32 = 0x1_0000;
pub const ALPHA: u32 = 0x2_0000;
pub const SCALE: u32 = 0x4_0000;
pub const EFFECTS2: u32 = 0x8_0000;
pub const GLOWSIZE: u32 = 0x10_0000;
pub const GLOWCOLOR: u32 = 0x20_0000;
pub const COLORMOD: u32 = 0x40_0000;
/// More mask bits follow in a fourth byte.
pub const EXTEND2: u32 = 0x80_0000;
pub const GLOWTRAIL: u32 = 0x100_0000;
pub const VIEWMODEL: u32 = 0x200_0000;
pub const FRAME2: u32 = 0x400_0000;
pub const MODEL2: u32 = 0x800_0000;
pub const EXTERIORMODEL: u32 = 0x1000_0000;

/// One entity update. A field that is `None` was not sent: it is unchanged.
/// Origins are the raw bits of 32-bit floats; angles are compressed 16-bit values.
#[derive(Clone, Copy, Debug, PartialEq, Eq, Structural)]
pub struct Entity {
    /// The full field-presence mask.
    pub bits: u32,
    /// The entity number.
    pub number: u16,
    pub model_index: Option<u8>,
    pub frame: Option<u8>,
    pub colormap: Option<u8>,
    pub skin: Option<u8>,
    pub effects: Option<u8>,
    pub origin: Option<u32>,
    pub angle: Option<u16>,
    pub origin2: Option<u32>,
    pub angle2: Option<u16>,
    pub origin3: Option<u32>,
    pub angle3: Option<u16>,
    pub alpha: Option<u8>,
    pub scale: Option<u8>,
    pub effects2: Option<u8>,
    pub glowsize: Option<u8>,
    pub glowcolor: Option<u8>,
    pub colormod: Option<u8>,
    pub frame2: Option<u8>,
    pub model2: Option<u8>,
}

impl View for Entity {
    type V = Entity;

    open spec fn view(&self) -> Entity {
        *self
    }
}

/// Whether `mask` has any of the bits of `b` set.
#[verifier::opaque]
pub open spec fn bit(mask: u32, b: u32) -> bool {
    mask & b != 0
}

fn test_bit(mask: u32, b: u32) -> (r: bool)
    ensures
        r == bit(mask, b),
{
    proof {
        reveal(bit);
    }
    mask & b != 0
}

/// The bytes a field of width `n` takes under `mask`: `n` if its bit is set, else none.
#[verifier::opaque]
pub open spec fn width(mask: u32, b: u32, n: int) -> int {
    if bit(mask, b) { n } else { 0 }
}

/// The full mask, built from the first byte's low bits and the extension bytes
/// that the chain of MOREBITS, EXTEND1 and EXTEND2 calls for.
pub open spec fn spec_mask(s: Seq<u8>, p: int, first: u32) -> Step<u32> {
    if !bit(first, MOREBITS) {
        Ok((first, p))
    } else if !fits(s, p, 1) {
        Err((ErrorKind::UnexpectedEof, p))
    } else {
        let m1 = first | ((s[p] as u32) << 8u32);
        if !bit(m1, EXTEND1) {
            Ok((m1, p + 1))
        } else if !fits(s, p + 1, 1) {
            Err((ErrorKind::UnexpectedEof, p + 1))
        } else {
            let m2 = m1 | ((s[p + 1] as u32) << 16u32);
            if !bit(m2, EXTEND2) {
                Ok((m2, p + 2))
            } else if !fits(s, p + 2, 1) {
                Err((ErrorKind::UnexpectedEof, p + 2))
            } else {
                Ok((m2 | ((s[p + 2] as u32) << 24u32), p + 3))
            }
        }
    }
}

/// The number of bytes the optional fields take under `mask`: the sum of the
/// widths of those whose bit is set.
pub open spec fn fields_len(mask: u32) -> int {
    width(mask, MODEL, 1) + width(mask, FRAME, 1) + width(mask, COLORMAP, 1) + width(mask, SKIN, 1)
        + width(mask, EFFECTS, 1) + width(mask, ORIGIN1, 4) + width(mask, ANGLE1, 2) + width(
        mask,
        ORIGIN2,
        4,
    ) + width(mask, ANGLE2, 2) + width(mask, ORIGIN3, 4) + width(mask, ANGLE3, 2) + width(
        mask,
        ALPHA,
        1,
    ) + width(mask, SCALE, 1) + width(mask, EFFECTS2, 1) + width(mask, GLOWSIZE, 1) + width(
        mask,
        GLOWCOLOR,
        1,
    ) + width(mask, COLORMOD, 1) + width(mask, FRAME2, 1) + width(mask, MODEL2, 1)
}

pub open spec fn opt_u8(s: Seq<u8>, p: int, present: bool) -> Option<u8> {
    if present { Some(s[p]) } else { None }
}

pub open spec fn opt_u16(s: Seq<u8>, p: int, present: bool) -> Option<u16> {
    if present { Some(le16(s, p)) } else { None }
}

pub open spec fn opt_u32(s: Seq<u8>, p: int, present: bool) -> Option<u32> {
    if present { Some(crate::cursor::le32(s, p)) } else { None }
}

/// The optional fields read at `p` in their fixed order, each only if its bit is set.
pub open spec fn spec_fields(s: Seq<u8>, p: int, mask: u32, number: u16) -> Entity {
    let p1 = p + width(mask, MODEL, 1);
    let p2 = p1 + width(mask, FRAME, 1);
    let p3 = p2 + width(mask, COLORMAP, 1);
    let p4 = p3 + width(mask, SKIN, 1);
    let p5 = p4 + width(mask, EFFECTS, 1);
    let p6 = p5 + width(mask, ORIGIN1, 4);
    let p7 = p6 + width(mask, ANGLE1, 2);
    let p8 = p7 + width(mask, ORIGIN2, 4);
    let p9 = p8 + width(mask, ANGLE2, 2);
    let p10 = p9 + width(mask, ORIGIN3, 4);
    let p11 = p10 + width(mask, ANGLE3, 2);
    let p12 = p11 + width(mask, ALPHA, 1);
    let p13 = p12 + width(mask, SCALE, 1);
    let p14 = p13 + width(mask, EFFECTS2, 1);
    let p15 = p14 + width(mask, GLOWSIZE, 1);
    let p16 = p15 + width(mask, GLOWCOLOR, 1);
    let p17 = p16 + width(mask, COLORMOD, 1);
    let p18 = p17 + width(mask, FRAME2, 1);
    Entity {
        bits: mask,
        number,
        model_index: opt_u8(s, p, bit(mask, MODEL)),
        frame: opt_u8(s, p1, bit(mask, FRAME)),
        colormap: opt_u8(s, p2, bit(mask, COLORMAP)),
        skin: opt_u8(s, p3, bit(mask, SKIN)),
        effects: opt_u8(s, p4, bit(mask, EFFECTS)),
        origin: opt_u32(s, p5, bit(mask, ORIGIN1)),
        angle: opt_u16(s, p6, bit(mask, ANGLE1)),
        origin2: opt_u32(s, p7, bit(mask, ORIGIN2)),
        angle2: opt_u16(s, p8, bit(mask, ANGLE2)),
        origin3: opt_u32(s, p9, bit(mask, ORIGIN3)),
        angle3: opt_u16(s, p10, bit(mask, ANGLE3)),
        alpha: opt_u8(s, p11, bit(mask, ALPHA)),
        scale: opt_u8(s, p12, bit(mask, SCALE)),
        effects2: opt_u8(s, p13, bit(mask, EFFECTS2)),
        glowsize: opt_u8(s, p14, bit(mask, GLOWSIZE)),
        glowcolor: opt_u8(s, p15, bit(mask, GLOWCOLOR)),
        colormod: opt_u8(s, p16, bit(mask, COLORMOD)),
        frame2: opt_u8(s, p17, bit(mask, FRAME2)),
        model2: opt_u8(s, p18, bit(mask, MODEL2)),
    }
}

/// The width of the entity number under `mask`.
pub open spec fn number_len(mask: u32) -> int {
    if bit(mask, LONGENTITY) { 2 } else { 1 }
}

/// An entity update whose first mask bits are `first`, read from `p` on (just past
/// the tag byte). When any field does not fit in what remains, decoding fails at the
/// first field.
pub open spec fn spec_entity(s: Seq<u8>, p: int, first: u32) -> Step<Entity> {
    match spec_mask(s, p, first) {
        Err(f) => Err(f),
        Ok((m, q)) => {
            if !fits(s, q, number_len(m)) {
                Err((ErrorKind::UnexpectedEof, q))
            } else {
                let number = if bit(m, LONGENTITY) { le16(s, q) } else { s[q] as u16 };
                let r = q + number_len(m);
                if !fits(s, r, fields_len(m)) {
                    Err((ErrorKind::UnexpectedEof, r))
                } else {
                    Ok((spec_fields(s, r, m, number), r + fields_len(m)))
                }
            }
        },
    }
}

fn field_u8(from: &mut ByteCursor, mask: u32, b: u32) -> (r: Option<u8>)
    requires
        fits(old(from).bytes(), old(from).pos(), width(mask, b, 1)),
    ensures
        final(from).bytes() == old(from).bytes(),
        final(from).pos() == old(from).pos() + width(mask, b, 1),
        r == opt_u8(old(from).bytes(), old(from).pos(), bit(mask, b)),
{
    proof {
        reveal(width);
    }
    if test_bit(mask, b) {
        Some(from.take_u8())
    } else {
        None
    }
}

fn field_u16(from: &mut ByteCursor, mask: u32, b: u32) -> (r: Option<u16>)
    requires
        fits(old(from).bytes(), old(from).pos(), width(mask, b, 2)),
    ensures
        final(from).bytes() == old(from).bytes(),
        final(from).pos() == old(from).pos() + width(mask, b, 2),
        r == opt_u16(old(from).bytes(), old(from).pos(), bit(mask, b)),
{
    proof {
        reveal(width);
    }
    if test_bit(mask, b) {
        Some(from.take_u16())
    } else {
        None
    }
}

fn field_u32(from: &mut ByteCursor, mask: u32, b: u32) -> (r: Option<u32>)
    requires
        fits(old(from).bytes(), old(from).pos(), width(mask, b, 4)),
    ensures
        final(from).bytes() == old(from).bytes(),
        final(from).pos() == old(from).pos() + width(mask, b, 4),
        r == opt_u32(old(from).bytes(), old(from).pos(), bit(mask, b)),
{
    proof {
        reveal(width);
    }
    if test_bit(mask, b) {
        Some(from.take_u32())
    } else {
        None
    }
}

fn field_width(mask: u32, b: u32, n: usize) -> (r: usize)
    ensures
        r == width(mask, b, n as int),
        r <= n,
{
    proof {
        reveal(width);
    }
    if test_bit(mask, b) {
        n
    } else {
        0
    }
}

/// The number of bytes the optional fields take under `mask`.
pub fn fields_byte_len(mask: u32) -> (r: usize)
    ensures
        r == fields_len(mask),
{
    field_width(mask, MODEL, 1) + field_width(mask, FRAME, 1) + field_width(mask, COLORMAP, 1)
        + field_width(mask, SKIN, 1) + field_width(mask, EFFECTS, 1) + field_width(mask, ORIGIN1, 4)
        + field_width(mask, ANGLE1, 2) + field_width(mask, ORIGIN2, 4) + field_width(mask, ANGLE2, 2)
        + field_width(mask, ORIGIN3, 4) + field_width(mask, ANGLE3, 2) + field_width(mask, ALPHA, 1)
        + field_width(mask, SCALE, 1) + field_width(mask, EFFECTS2, 1) + field_width(mask, GLOWSIZE, 1)
        + field_width(mask, GLOWCOLOR, 1) + field_width(mask, COLORMOD, 1) + field_width(mask, FRAME2, 1)
        + field_width(mask, MODEL2, 1)
}

/// Reads the mask extension bytes that `first` calls for.
fn read_mask(first: u32, from: &mut ByteCursor) -> (r: Result<u32, DecodeError>)
    ensures
        final(from).bytes() == old(from).bytes(),
        follows(r, old(from).bytes(), spec_mask(old(from).bytes(), old(from).pos(), first), final(from).pos()),
{
    proof {
        reveal(bit);
    }
    let mut mask = first;
    if mask & MOREBITS != 0 {
        let b1 = from.read_u8()?;
        mask = mask | ((b1 as u32) << 8u32);
        if mask & EXTEND1 != 0 {
            let b2 = from.read_u8()?;
            mask = mask | ((b2 as u32) << 16u32);
            if mask & EXTEND2 != 0 {
                let b3 = from.read_u8()?;
                mask = mask | ((b3 as u32) << 24u32);
            }
        }
    }
    Ok(mask)
}

/// No field takes a negative number of bytes.
proof fn lemma_widths_nonneg(mask: u32)
    ensures
        0 <= width(mask, MODEL, 1),
        0 <= width(mask, FRAME, 1),
        0 <= width(mask, COLORMAP, 1),
        0 <= width(mask, SKIN, 1),
        0 <= width(mask, EFFECTS, 1),
        0 <= width(mask, ORIGIN1, 4),
        0 <= width(mask, ANGLE1, 2),
        0 <= width(mask, ORIGIN2, 4),
        0 <= width(mask, ANGLE2, 2),
        0 <= width(mask, ORIGIN3, 4),
        0 <= width(mask, ANGLE3, 2),
        0 <= width(mask, ALPHA, 1),
        0 <= width(mask, SCALE, 1),
        0 <= width(mask, EFFECTS2, 1),
        0 <= width(mask, GLOWSIZE, 1),
        0 <= width(mask, GLOWCOLOR, 1),
        0 <= width(mask, COLORMOD, 1),
        0 <= width(mask, FRAME2, 1),
        0 <= width(mask, MODEL2, 1),
{
    reveal(width);
}

/// Reads the optional fields that `mask` calls for.
#[verifier::rlimit(40)]
fn read_fields(mask: u32, number: u16, from: &mut ByteCursor) -> (r: Entity)
    requires
        fits(old(from).bytes(), old(from).pos(), fields_len(mask)),
    ensures
        final(from).bytes() == old(from).bytes(),
        final(from).pos() == old(from).pos() + fields_len(mask),
        r == spec_fields(old(from).bytes(), old(from).pos(), mask, number),
{
    proof {
        lemma_widths_nonneg(mask);
    }
    let model_index = field_u8(from, mask, MODEL);
    let frame = field_u8(from, mask, FRAME);
    let colormap = field_u8(from, mask, COLORMAP);
    let skin = field_u8(from, mask, SKIN);
    let effects = field_u8(from, mask, EFFECTS);
    let origin = field_u32(from, mask, ORIGIN1);
    let angle = field_u16(from, mask, ANGLE1);
    let origin2 = field_u32(from, mask, ORIGIN2);
    let angle2 = field_u16(from, mask, ANGLE2);
    let origin3 = field_u32(from, mask, ORIGIN3);
    let angle3 = field_u16(from, mask, ANGLE3);
    let alpha = field_u8(from, mask, ALPHA);
    let scale = field_u8(from, mask, SCALE);
    let effects2 = field_u8(from, mask, EFFECTS2);
    let glowsize = field_u8(from, mask, GLOWSIZE);
    let glowcolor = field_u8(from, mask, GLOWCOLOR);
    let colormod = field_u8(from, mask, COLORMOD);
    let frame2 = field_u8(from, mask, FRAME2);
    let model2 = field_u8(from, mask, MODEL2);
    Entity {
        bits: mask,
        number,
        model_index,
        frame,
        colormap,
        skin,
        effects,
        origin,
        angle,
        origin2,
        angle2,
        origin3,
        angle3,
        alpha,
        scale,
        effects2,
        glowsize,
        glowcolor,
        colormod,
        frame2,
        model2,
    }
}

impl Entity {
    /// Decodes one entity update. `bits` holds the first mask bits (the low seven
    /// bits of the tag byte); `from` stands just past the tag byte.
    pub fn parse(bits: u32, from: &mut ByteCursor) -> (r: Result<Entity, DecodeError>)
        ensures
            final(from).bytes() == old(from).bytes(),
            follows(r, old(from).bytes(), spec_entity(old(from).bytes(), old(from).pos(), bits), final(from).pos()),
    {
        let mask = read_mask(bits, from)?;
        let number = if test_bit(mask, LONGENTITY) {
            from.read_u16_le()?
        } else {
            from.read_u8()? as u16
        };
        if from.remaining() < fields_byte_len(mask) {
            return Err(from.fail(ErrorKind::UnexpectedEof));
        }
        Ok(read_fields(mask, number, from))
    }
}

/// After the mask, an entity update takes its number and then exactly the sum of
/// the widths of the fields whose bits are set.
pub proof fn lemma_entity_len(s: Seq<u8>, p: int, first: u32)
    ensures
        match (spec_mask(s, p, first), spec_entity(s, p, first)) {
            (Ok((m, q)), Ok((e, end))) => e.bits == m && end == q + number_len(m) + fields_len(m),
            _ => true,
        },
{
}

/// The bytes of `s1` and `s2` agree from `lo` up to `hi`.
pub open spec fn agree(s1: Seq<u8>, s2: Seq<u8>, lo: int, hi: int) -> bool {
    forall|k: int| lo <= k < hi ==> s1[k] == s2[k]
}

proof fn lemma_field_agrees(s1: Seq<u8>, s2: Seq<u8>, p: int, m: u32, b: u32, n: int, lo: int, hi: int)
    requires
        agree(s1, s2, lo, hi),
        lo <= p,
        p + width(m, b, n) <= hi,
        n == 1 || n == 2 || n == 4,
    ensures
        width(m, b, n) >= 0,
        n == 1 ==> opt_u8(s1, p, bit(m, b)) == opt_u8(s2, p, bit(m, b)),
        n == 2 ==> opt_u16(s1, p, bit(m, b)) == opt_u16(s2, p, bit(m, b)),
        n == 4 ==> opt_u32(s1, p, bit(m, b)) == opt_u32(s2, p, bit(m, b)),
{
    reveal(width);
    if bit(m, b) {
        assert(s1[p] == s2[p]);
        if n >= 2 {
            assert(s1[p + 1] == s2[p + 1]);
        }
        if n == 4 {
            assert(s1[p + 2] == s2[p + 2]);
            assert(s1[p + 3] == s2[p + 3]);
        }
    }
}

proof fn lemma_fields_replay(s1: Seq<u8>, s2: Seq<u8>, r: int, m: u32, number: u16)
    requires
        0 <= r,
        agree(s1, s2, r, r + fields_len(m)),
    ensures
        spec_fields(s2, r, m, number) == spec_fields(s1, r, m, number),
{
    let end = r + fields_len(m);
    lemma_widths_nonneg(m);
    lemma_field_agrees(s1, s2, r, m, MODEL, 1, r, end);
    let ghost q1 = r + width(m, MODEL, 1);
    lemma_field_agrees(s1, s2, q1, m, FRAME, 1, r, end);
    let ghost q2 = q1 + width(m, FRAME, 1);
    lemma_field_agrees(s1, s2, q2, m, COLORMAP, 1, r, end);
    let ghost q3 = q2 + width(m, COLORMAP, 1);
    lemma_field_agrees(s1, s2, q3, m, SKIN, 1, r, end);
    let ghost q4 = q3 + width(m, SKIN, 1);
    lemma_field_agrees(s1, s2, q4, m, EFFECTS, 1, r, end);
    let ghost q5 = q4 + width(m, EFFECTS, 1);
    lemma_field_agrees(s1, s2, q5, m, ORIGIN1, 4, r, end);
    let ghost q6 = q5 + width(m, ORIGIN1, 4);
    lemma_field_agrees(s1, s2, q6, m, ANGLE1, 2, r, end);
    let ghost q7 = q6 + width(m, ANGLE1, 2);
    lemma_field_agrees(s1, s2, q7, m, ORIGIN2, 4, r, end);
    let ghost q8 = q7 + width(m, ORIGIN2, 4);
    lemma_field_agrees(s1, s2, q8, m, ANGLE2, 2, r, end);
    let ghost q9 = q8 + width(m, ANGLE2, 2);
    lemma_field_agrees(s1, s2, q9, m, ORIGIN3, 4, r, end);
    let ghost q10 = q9 + width(m, ORIGIN3, 4);
    lemma_field_agrees(s1, s2, q10, m, ANGLE3, 2, r, end);
    let ghost q11 = q10 + width(m, ANGLE3, 2);
    lemma_field_agrees(s1, s2, q11, m, ALPHA, 1, r, end);
    let ghost q12 = q11 + width(m, ALPHA, 1);
    lemma_field_agrees(s1, s2, q12, m, SCALE, 1, r, end);
    let ghost q13 = q12 + width(m, SCALE, 1);
    lemma_field_agrees(s1, s2, q13, m, EFFECTS2, 1, r, end);
    let ghost q14 = q13 + width(m, EFFECTS2, 1);
    lemma_field_agrees(s1, s2, q14, m, GLOWSIZE, 1, r, end);
    let ghost q15 = q14 + width(m, GLOWSIZE, 1);
    lemma_field_agrees(s1, s2, q15, m, GLOWCOLOR, 1, r, end);
    let ghost q16 = q15 + width(m, GLOWCOLOR, 1);
    lemma_field_agrees(s1, s2, q16, m, COLORMOD, 1, r, end);
    let ghost q17 = q16 + width(m, COLORMOD, 1);
    lemma_field_agrees(s1, s2, q17, m, FRAME2, 1, r, end);
    let ghost q18 = q17 + width(m, FRAME2, 1);
    lemma_field_agrees(s1, s2, q18, m, MODEL2, 1, r, end);
    let ghost q19 = q18 + width(m, MODEL2, 1);
}

/// An entity update depends on the bytes it consumes alone: replayed against the
/// same bytes, it decodes to the same values.
pub proof fn lemma_entity_replay(s1: Seq<u8>, s2: Seq<u8>, p: int, first: u32)
    requires
        0 <= p,
        spec_entity(s1, p, first) is Ok,
        p <= spec_entity(s1, p, first)->Ok_0.1 <= s2.len(),
        s1.subrange(p, spec_entity(s1, p, first)->Ok_0.1) == s2.subrange(p, spec_entity(s1, p, first)->Ok_0.1),
    ensures
        spec_entity(s2, p, first) == spec_entity(s1, p, first),
{
    let end = spec_entity(s1, p, first)->Ok_0.1;
    assert forall|k: int| p <= k < end implies s1[k] == s2[k] by {
        assert(s1.subrange(p, end)[k - p] == s2.subrange(p, end)[k - p]);
    }
    let (m, q) = spec_mask(s1, p, first)->Ok_0;
    assert(fields_len(m) >= 0) by {
        reveal(width);
    }
    assert(spec_mask(s2, p, first) == spec_mask(s1, p, first));
    let r = q + number_len(m);
    lemma_fields_replay(s1, s2, r, m, if bit(m, LONGENTITY) { le16(s1, q) } else { s1[q] as u16 });
}

} // verus!
