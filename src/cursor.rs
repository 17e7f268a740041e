use vstd::prelude::*;

use crate::error::{dump_window, is_error, DecodeError, ErrorKind, Step, DUMP_WINDOW};

verus! {

/// Little-endian value of the two bytes of `s` at `i`.
pub open spec fn le16(s: Seq<u8>, i: int) -> u16 {
    (s[i] as int + 256 * s[i + 1]) as u16
}

/// Little-endian value of the three bytes of `s` at `i`.
pub open spec fn le24(s: Seq<u8>, i: int) -> u32 {
    (s[i] as int + 256 * s[i + 1] + 65536 * s[i + 2]) as u32
}

/// Little-endian value of the four bytes of `s` at `i`.
pub open spec fn le32(s: Seq<u8>, i: int) -> u32 {
    (s[i] as int + 256 * s[i + 1] + 65536 * s[i + 2] + 16777216 * s[i + 3]) as u32
}

/// Whether `n` bytes remain in `s` from `p` on.
pub open spec fn fits(s: Seq<u8>, p: int, n: int) -> bool {
    p + n <= s.len()
}

pub open spec fn spec_u8(s: Seq<u8>, p: int) -> Step<u8> {
    if fits(s, p, 1) {
        Ok((s[p], p + 1))
    } else {
        Err((ErrorKind::UnexpectedEof, p))
    }
}

pub open spec fn spec_u16(s: Seq<u8>, p: int) -> Step<u16> {
    if fits(s, p, 2) {
        Ok((le16(s, p), p + 2))
    } else {
        Err((ErrorKind::UnexpectedEof, p))
    }
}

pub open spec fn spec_u24(s: Seq<u8>, p: int) -> Step<u32> {
    if fits(s, p, 3) {
        Ok((le24(s, p), p + 3))
    } else {
        Err((ErrorKind::UnexpectedEof, p))
    }
}

pub open spec fn spec_u32(s: Seq<u8>, p: int) -> Step<u32> {
    if fits(s, p, 4) {
        Ok((le32(s, p), p + 4))
    } else {
        Err((ErrorKind::UnexpectedEof, p))
    }
}

pub open spec fn spec_fixed(s: Seq<u8>, p: int, n: int) -> Step<Seq<u8>> {
    if fits(s, p, n) {
        Ok((s.subrange(p, p + n), p + n))
    } else {
        Err((ErrorKind::UnexpectedEof, p))
    }
}

/// The first index at or after `p` that holds `t`, if any.
pub open spec fn find_byte(s: Seq<u8>, p: int, t: u8) -> Option<int>
    decreases s.len() - p,
{
    if p < 0 || p >= s.len() {
        None
    } else if s[p] == t {
        Some(p)
    } else {
        find_byte(s, p + 1, t)
    }
}

/// A string ended by `t`: the bytes strictly before the first `t`, and the
/// offset just past that `t`.
pub open spec fn spec_terminated(s: Seq<u8>, p: int, t: u8) -> Step<Seq<u8>> {
    match find_byte(s, p, t) {
        Some(j) => Ok((s.subrange(p, j), j + 1)),
        None => Err((ErrorKind::MalformedString, p)),
    }
}

/// A string ended by a zero byte.
pub open spec fn spec_zstring(s: Seq<u8>, p: int) -> Step<Seq<u8>> {
    spec_terminated(s, p, 0)
}

/// What `find_byte` returns lies in bounds, holds `t`, and no `t` comes before it.
pub proof fn lemma_find_byte(s: Seq<u8>, p: int, t: u8)
    requires
        0 <= p,
    ensures
        match find_byte(s, p, t) {
            Some(j) => p <= j < s.len() && s[j] == t && forall|k: int| p <= k < j ==> s[k] != t,
            None => forall|k: int| p <= k < s.len() ==> s[k] != t,
        },
    decreases s.len() - p,
{
    if p < s.len() && s[p] != t {
        lemma_find_byte(s, p + 1, t);
    }
}

/// A decoded step of a `T` matches the model step `st` on the bytes `s`;
/// `after` is the cursor position once the step is done.
pub open spec fn follows<T: View>(r: Result<T, DecodeError>, s: Seq<u8>, st: Step<T::V>, after: int) -> bool {
    match st {
        Ok((v, e)) => r is Ok && r->Ok_0@ == v && after == e,
        Err(f) => r is Err && is_error(r->Err_0, s, f),
    }
}

/// A forward-only, bounds-checked reader over an immutable byte buffer.
pub struct ByteCursor {
    data: Vec<u8>,
    pos: usize,
}

impl ByteCursor {
    #[verifier::type_invariant]
    spec fn inv(&self) -> bool {
        self.pos <= self.data.len()
    }

    /// The whole buffer.
    pub closed spec fn bytes(&self) -> Seq<u8> {
        self.data@
    }

    /// The read position.
    pub closed spec fn pos(&self) -> int {
        self.pos as int
    }

    pub fn new(data: Vec<u8>) -> (r: ByteCursor)
        ensures
            r.bytes() == data@,
            r.pos() == 0,
    {
        ByteCursor { data, pos: 0 }
    }

    pub fn remaining(&self) -> (r: usize)
        ensures
            r == self.bytes().len() - self.pos(),
            0 <= self.pos() <= self.bytes().len(),
    {
        proof {
            use_type_invariant(self);
        }
        self.data.len() - self.pos
    }

    pub fn position(&self) -> (r: usize)
        ensures
            r == self.pos(),
    {
        self.pos
    }

    /// The error `kind` at the current position, with the bytes that follow it.
    pub fn fail(&self, kind: ErrorKind) -> (e: DecodeError)
        ensures
            is_error(e, self.bytes(), (kind, self.pos())),
    {
        proof {
            use_type_invariant(self);
        }
        let end: usize = if self.data.len() - self.pos >= DUMP_WINDOW {
            self.pos + DUMP_WINDOW
        } else {
            self.data.len()
        };
        let mut context: Vec<u8> = Vec::new();
        let mut i: usize = self.pos;
        while i < end
            invariant
                self.pos <= i <= end <= self.data.len(),
                context@ == self.data@.subrange(self.pos as int, i as int),
            decreases end - i,
        {
            context.push(self.data[i]);
            i = i + 1;
            assert(context@ =~= self.data@.subrange(self.pos as int, i as int));
        }
        DecodeError { kind, offset: self.pos, context }
    }

    /// Moves to the end: nothing remains afterwards.
    pub fn skip_to_end(&mut self)
        ensures
            final(self).bytes() == old(self).bytes(),
            final(self).pos() == old(self).bytes().len(),
    {
        self.pos = self.data.len();
    }

    pub(crate) fn take_u8(&mut self) -> (r: u8)
        requires
            fits(old(self).bytes(), old(self).pos(), 1),
        ensures
            final(self).bytes() == old(self).bytes(),
            final(self).pos() == old(self).pos() + 1,
            r == old(self).bytes()[old(self).pos()],
    {
        let len = self.data.len();
        let b = self.data[self.pos];
        assert(self.pos < len);
        self.pos = self.pos + 1;
        b
    }

    pub(crate) fn take_u16(&mut self) -> (r: u16)
        requires
            fits(old(self).bytes(), old(self).pos(), 2),
        ensures
            final(self).bytes() == old(self).bytes(),
            final(self).pos() == old(self).pos() + 2,
            r == le16(old(self).bytes(), old(self).pos()),
    {
        let b0 = self.take_u8();
        let b1 = self.take_u8();
        b0 as u16 + (b1 as u16) * 256
    }

    pub(crate) fn take_u24(&mut self) -> (r: u32)
        requires
            fits(old(self).bytes(), old(self).pos(), 3),
        ensures
            final(self).bytes() == old(self).bytes(),
            final(self).pos() == old(self).pos() + 3,
            r == le24(old(self).bytes(), old(self).pos()),
    {
        let b0 = self.take_u8();
        let b1 = self.take_u8();
        let b2 = self.take_u8();
        b0 as u32 + (b1 as u32) * 256 + (b2 as u32) * 65536
    }

    pub(crate) fn take_u32(&mut self) -> (r: u32)
        requires
            fits(old(self).bytes(), old(self).pos(), 4),
        ensures
            final(self).bytes() == old(self).bytes(),
            final(self).pos() == old(self).pos() + 4,
            r == le32(old(self).bytes(), old(self).pos()),
    {
        let b0 = self.take_u8();
        let b1 = self.take_u8();
        let b2 = self.take_u8();
        let b3 = self.take_u8();
        b0 as u32 + (b1 as u32) * 256 + (b2 as u32) * 65536 + (b3 as u32) * 16777216
    }

    pub(crate) fn take_fixed(&mut self, n: usize) -> (r: Vec<u8>)
        requires
            fits(old(self).bytes(), old(self).pos(), n as int),
        ensures
            final(self).bytes() == old(self).bytes(),
            final(self).pos() == old(self).pos() + n,
            r@ == old(self).bytes().subrange(old(self).pos(), old(self).pos() + n),
    {
        let start = self.pos;
        let mut out: Vec<u8> = Vec::new();
        let len = self.data.len();
        let mut i: usize = 0;
        while i < n
            invariant
                0 <= i <= n,
                self.data@ == old(self).data@,
                self.pos == start + i,
                start + n <= self.data@.len() == len,
                out@ == self.data@.subrange(start as int, start + i),
            decreases n - i,
        {
            out.push(self.data[self.pos]);
            self.pos = self.pos + 1;
            i = i + 1;
            assert(out@ =~= self.data@.subrange(start as int, start + i));
        }
        out
    }

    pub fn read_u8(&mut self) -> (r: Result<u8, DecodeError>)
        ensures
            final(self).bytes() == old(self).bytes(),
            follows(r, old(self).bytes(), spec_u8(old(self).bytes(), old(self).pos()), final(self).pos()),
    {
        if self.remaining() < 1 {
            return Err(self.fail(ErrorKind::UnexpectedEof));
        }
        Ok(self.take_u8())
    }

    pub fn read_u16_le(&mut self) -> (r: Result<u16, DecodeError>)
        ensures
            final(self).bytes() == old(self).bytes(),
            follows(r, old(self).bytes(), spec_u16(old(self).bytes(), old(self).pos()), final(self).pos()),
    {
        if self.remaining() < 2 {
            return Err(self.fail(ErrorKind::UnexpectedEof));
        }
        Ok(self.take_u16())
    }

    /// An unsigned little-endian integer of three bytes.
    pub fn read_u24_le(&mut self) -> (r: Result<u32, DecodeError>)
        ensures
            final(self).bytes() == old(self).bytes(),
            follows(r, old(self).bytes(), spec_u24(old(self).bytes(), old(self).pos()), final(self).pos()),
    {
        if self.remaining() < 3 {
            return Err(self.fail(ErrorKind::UnexpectedEof));
        }
        Ok(self.take_u24())
    }

    pub fn read_u32_le(&mut self) -> (r: Result<u32, DecodeError>)
        ensures
            final(self).bytes() == old(self).bytes(),
            follows(r, old(self).bytes(), spec_u32(old(self).bytes(), old(self).pos()), final(self).pos()),
    {
        if self.remaining() < 4 {
            return Err(self.fail(ErrorKind::UnexpectedEof));
        }
        Ok(self.take_u32())
    }

    pub fn read_fixed(&mut self, n: usize) -> (r: Result<Vec<u8>, DecodeError>)
        ensures
            final(self).bytes() == old(self).bytes(),
            follows(r, old(self).bytes(), spec_fixed(old(self).bytes(), old(self).pos(), n as int), final(self).pos()),
    {
        if self.remaining() < n {
            return Err(self.fail(ErrorKind::UnexpectedEof));
        }
        Ok(self.take_fixed(n))
    }

    /// Reads through the next `t`; the result is the bytes strictly before it.
    pub fn read_terminated(&mut self, t: u8) -> (r: Result<Vec<u8>, DecodeError>)
        ensures
            final(self).bytes() == old(self).bytes(),
            follows(r, old(self).bytes(), spec_terminated(old(self).bytes(), old(self).pos(), t), final(self).pos()),
    {
        proof {
            use_type_invariant(&*self);
        }
        let start = self.pos;
        let mut out: Vec<u8> = Vec::new();
        let mut j: usize = start;
        while j < self.data.len() && self.data[j] != t
            invariant
                start <= j <= self.data@.len(),
                self.pos == start,
                out@ == self.data@.subrange(start as int, j as int),
                find_byte(self.data@, start as int, t) == find_byte(self.data@, j as int, t),
            decreases self.data@.len() - j,
        {
            out.push(self.data[j]);
            j = j + 1;
            assert(out@ =~= self.data@.subrange(start as int, j as int));
        }
        if j == self.data.len() {
            return Err(self.fail(ErrorKind::MalformedString));
        }
        self.pos = j + 1;
        Ok(out)
    }

    /// Reads a string ended by a zero byte.
    pub fn read_zstring(&mut self) -> (r: Result<Vec<u8>, DecodeError>)
        ensures
            final(self).bytes() == old(self).bytes(),
            follows(r, old(self).bytes(), spec_zstring(old(self).bytes(), old(self).pos()), final(self).pos()),
    {
        self.read_terminated(0)
    }
}

/// A zero-terminated string decodes to the bytes before its terminator, none of
/// which is zero, and the position afterwards is its start plus its length plus one.
pub proof fn lemma_zstring_round_trip(s: Seq<u8>, p: int)
    requires
        0 <= p,
    ensures
        match spec_zstring(s, p) {
            Ok((v, e)) => (forall|k: int| 0 <= k < v.len() ==> v[k] != 0) && e == p + v.len() + 1
                && e <= s.len() && s[e - 1] == 0 && v == s.subrange(p, e - 1),
            Err(_) => forall|k: int| p <= k < s.len() ==> s[k] != 0,
        },
{
    lemma_find_byte(s, p, 0);
}

} // verus!
