//! Little-endian primitives of the PMX binary format, as spec functions over a byte
//! sequence and a position, and the cursor that reads them.

use vstd::prelude::*;

use crate::error::{PmxError, PmxIoErrorKind, PmxResult};

verus! {

/// Outcome of reading a value at a position: the value and the position after it, or the error.
pub type PRes<T> = Result<(T, int), PmxError>;

/// The error reported when the input ends before a value is complete.
pub open spec fn eof_error() -> PmxError {
    PmxError::Io(PmxIoErrorKind::UnexpectedEof)
}

/// Sequencing of two reads: the second starts where the first ended.
pub open spec fn bind<A, B>(r: PRes<A>, f: spec_fn(A, int) -> PRes<B>) -> PRes<B> {
    match r {
        Ok((a, p)) => f(a, p),
        Err(e) => Err(e),
    }
}

/// A read that consumes nothing and yields `v`.
pub open spec fn done<A>(v: A, p: int) -> PRes<A> {
    Ok((v, p))
}

/// An executable result agrees with a spec read: same value and end position, or same error.
pub open spec fn step<T>(r: PmxResult<T>, sp: PRes<T>, end: int) -> bool {
    match sp {
        Ok((v, q)) => r == Ok::<T, PmxError>(v) && end == q,
        Err(e) => r == Err::<T, PmxError>(e),
    }
}

/// Like `step`, comparing the executable value through its view.
pub open spec fn step_view<T: View>(r: PmxResult<T>, sp: PRes<T::V>, end: int) -> bool {
    match sp {
        Ok((v, q)) => (r matches Ok(x) && x@ == v) && end == q,
        Err(e) => (r matches Err(x) && x == e),
    }
}

/// Like `step`, comparing a vector of results element by element through their views.
pub open spec fn step_seq<T: View>(r: PmxResult<Vec<T>>, sp: PRes<Seq<T::V>>, end: int) -> bool {
    match sp {
        Ok((v, q)) => (r matches Ok(x) && crate::format::model::seq_view(x@) == v) && end == q,
        Err(e) => (r matches Err(x) && x == e),
    }
}

/// Like `step`, comparing a vector of plain values by its view.
pub open spec fn step_vec<T>(r: PmxResult<Vec<T>>, sp: PRes<Seq<T>>, end: int) -> bool {
    match sp {
        Ok((v, q)) => (r matches Ok(x) && x@ == v) && end == q,
        Err(e) => (r matches Err(x) && x == e),
    }
}

/// A count followed by that many items.
pub open spec fn counted<T>(s: Seq<u8>, p: int, f: spec_fn(int) -> PRes<T>) -> PRes<Seq<T>> {
    bind(spec_len(s, p), |n: usize, q: int| repeat(n as nat, q, f))
}

pub open spec fn le_u16(b0: u8, b1: u8) -> u16 {
    (b0 + b1 * 256) as u16
}

pub open spec fn le_u32(b0: u8, b1: u8, b2: u8, b3: u8) -> u32 {
    (b0 + b1 * 256 + b2 * 65536 + b3 * 16777216) as u32
}

/// Two's-complement reading of a byte.
pub open spec fn as_i8(b: u8) -> i8 {
    if b < 128 { b as i8 } else { (b - 256) as i8 }
}

pub open spec fn as_i16(u: u16) -> i16 {
    if u < 32768 { u as i16 } else { (u - 65536) as i16 }
}

pub open spec fn as_i32(u: u32) -> i32 {
    if u < 0x8000_0000 { u as i32 } else { (u - 0x1_0000_0000int) as i32 }
}

pub open spec fn spec_u8(s: Seq<u8>, p: int) -> PRes<u8> {
    if 0 <= p && p + 1 <= s.len() {
        Ok((s[p], p + 1))
    } else {
        Err(eof_error())
    }
}

pub open spec fn spec_u16(s: Seq<u8>, p: int) -> PRes<u16> {
    if 0 <= p && p + 2 <= s.len() {
        Ok((le_u16(s[p], s[p + 1]), p + 2))
    } else {
        Err(eof_error())
    }
}

pub open spec fn spec_u32(s: Seq<u8>, p: int) -> PRes<u32> {
    if 0 <= p && p + 4 <= s.len() {
        Ok((le_u32(s[p], s[p + 1], s[p + 2], s[p + 3]), p + 4))
    } else {
        Err(eof_error())
    }
}

pub open spec fn spec_i8(s: Seq<u8>, p: int) -> PRes<i8> {
    bind(spec_u8(s, p), |b: u8, q: int| done(as_i8(b), q))
}

pub open spec fn spec_i16(s: Seq<u8>, p: int) -> PRes<i16> {
    bind(spec_u16(s, p), |u: u16, q: int| done(as_i16(u), q))
}

pub open spec fn spec_i32(s: Seq<u8>, p: int) -> PRes<i32> {
    bind(spec_u32(s, p), |u: u32, q: int| done(as_i32(u), q))
}

/// A 32-bit float, as its bit pattern.
pub open spec fn spec_f32(s: Seq<u8>, p: int) -> PRes<u32> {
    spec_u32(s, p)
}

pub open spec fn spec_vec2(s: Seq<u8>, p: int) -> PRes<[u32; 2]> {
    bind(spec_f32(s, p), |x: u32, p1: int|
    bind(spec_f32(s, p1), |y: u32, p2: int|
    done([x, y], p2)))
}

pub open spec fn spec_vec3(s: Seq<u8>, p: int) -> PRes<[u32; 3]> {
    bind(spec_f32(s, p), |x: u32, p1: int|
    bind(spec_f32(s, p1), |y: u32, p2: int|
    bind(spec_f32(s, p2), |z: u32, p3: int|
    done([x, y, z], p3))))
}

pub open spec fn spec_vec4(s: Seq<u8>, p: int) -> PRes<[u32; 4]> {
    bind(spec_f32(s, p), |x: u32, p1: int|
    bind(spec_f32(s, p1), |y: u32, p2: int|
    bind(spec_f32(s, p2), |z: u32, p3: int|
    bind(spec_f32(s, p3), |w: u32, p4: int|
    done([x, y, z, w], p4)))))
}

/// The next `n` bytes.
pub open spec fn spec_bytes(s: Seq<u8>, p: int, n: int) -> PRes<Seq<u8>> {
    if 0 <= p && 0 <= n && p + n <= s.len() {
        Ok((s.subrange(p, p + n), p + n))
    } else {
        Err(eof_error())
    }
}

pub open spec fn spec_magic(s: Seq<u8>, p: int) -> PRes<[u8; 4]> {
    if 0 <= p && p + 4 <= s.len() {
        Ok(([s[p], s[p + 1], s[p + 2], s[p + 3]], p + 4))
    } else {
        Err(eof_error())
    }
}

/// A length field: a signed 32-bit count that must not be negative.
pub open spec fn spec_len(s: Seq<u8>, p: int) -> PRes<usize> {
    bind(spec_i32(s, p), |v: i32, q: int|
        if v >= 0 {
            done(v as usize, q)
        } else {
            Err(PmxError::InvalidFormat("negative PMX length"))
        })
}

/// An index of the given width (1, 2 or 4 bytes), sign-extended to 32 bits.
pub open spec fn spec_index(size: u8, s: Seq<u8>, p: int) -> PRes<i32> {
    if size == 1 {
        bind(spec_i8(s, p), |v: i8, q: int| done(v as i32, q))
    } else if size == 2 {
        bind(spec_i16(s, p), |v: i16, q: int| done(v as i32, q))
    } else if size == 4 {
        spec_i32(s, p)
    } else {
        Err(PmxError::InvalidFormat("unsupported PMX index width"))
    }
}

/// A vertex index: an index of the given width that must not be negative.
pub open spec fn spec_vertex_index(size: u8, s: Seq<u8>, p: int) -> PRes<u32> {
    bind(spec_index(size, s, p), |v: i32, q: int|
        if v >= 0 {
            done(v as u32, q)
        } else {
            Err(PmxError::InvalidFormat("vertex index cannot be negative"))
        })
}

/// `n` items read one after the other, each by `f` from where the previous one ended.
pub open spec fn repeat<T>(n: nat, p: int, f: spec_fn(int) -> PRes<T>) -> PRes<Seq<T>>
    decreases n,
{
    if n == 0 {
        Ok((Seq::empty(), p))
    } else {
        match repeat((n - 1) as nat, p, f) {
            Ok((xs, q)) => match f(q) {
                Ok((x, r)) => Ok((xs.push(x), r)),
                Err(e) => Err(e),
            },
            Err(e) => Err(e),
        }
    }
}

/// Once a repetition fails, every longer repetition fails with the same error.
pub proof fn lemma_repeat_err<T>(i: nat, n: nat, p: int, f: spec_fn(int) -> PRes<T>, e: PmxError)
    requires
        i <= n,
        repeat(i, p, f) == Err::<(Seq<T>, int), PmxError>(e),
    ensures
        repeat(n, p, f) == Err::<(Seq<T>, int), PmxError>(e),
    decreases n - i,
{
    if i < n {
        lemma_repeat_err(i + 1, n, p, f, e);
    }
}

/// A repetition never ends before it starts.
pub proof fn lemma_repeat_forward<T>(n: nat, p: int, f: spec_fn(int) -> PRes<T>)
    requires
        forall|q: int| #[trigger] f(q) matches Ok((_, r)) ==> q <= r,
    ensures
        repeat(n, p, f) matches Ok((xs, q)) ==> p <= q && xs.len() == n,
    decreases n,
{
    if n > 0 {
        lemma_repeat_forward((n - 1) as nat, p, f);
    }
}

/// Cursor over the input bytes.
pub(crate) struct PmxParser<'a> {
    pub(crate) bytes: &'a [u8],
    pub(crate) pos: usize,
}

impl<'a> PmxParser<'a> {
    pub(crate) open spec fn wf(&self) -> bool {
        self.pos <= self.bytes@.len()
    }

    /// The cursor keeps its input and stays within it.
    pub(crate) open spec fn same_input(&self, other: &Self) -> bool {
        &&& self.bytes == other.bytes
        &&& other.wf()
    }

    pub(crate) fn new(bytes: &'a [u8]) -> (r: Self)
        ensures
            r.bytes == bytes,
            r.pos == 0,
            r.wf(),
    {
        PmxParser { bytes, pos: 0 }
    }

    fn eof<T>() -> (r: PmxResult<T>)
        ensures
            r == Err::<T, PmxError>(eof_error()),
    {
        Err(PmxError::Io(PmxIoErrorKind::UnexpectedEof))
    }

    pub(crate) fn read_u8(&mut self) -> (r: PmxResult<u8>)
        requires
            old(self).wf(),
        ensures
            old(self).same_input(final(self)),
            step(r, spec_u8(old(self).bytes@, old(self).pos as int), final(self).pos as int),
    {
        if self.bytes.len() - self.pos >= 1 {
            let b = self.bytes[self.pos];
            self.pos = self.pos + 1;
            Ok(b)
        } else {
            Self::eof()
        }
    }

    pub(crate) fn read_u16(&mut self) -> (r: PmxResult<u16>)
        requires
            old(self).wf(),
        ensures
            old(self).same_input(final(self)),
            step(r, spec_u16(old(self).bytes@, old(self).pos as int), final(self).pos as int),
    {
        if self.bytes.len() - self.pos >= 2 {
            let b0 = self.bytes[self.pos];
            let b1 = self.bytes[self.pos + 1];
            self.pos = self.pos + 2;
            Ok(b0 as u16 + (b1 as u16) * 256)
        } else {
            Self::eof()
        }
    }

    pub(crate) fn read_u32(&mut self) -> (r: PmxResult<u32>)
        requires
            old(self).wf(),
        ensures
            old(self).same_input(final(self)),
            step(r, spec_u32(old(self).bytes@, old(self).pos as int), final(self).pos as int),
    {
        if self.bytes.len() - self.pos >= 4 {
            let b0 = self.bytes[self.pos];
            let b1 = self.bytes[self.pos + 1];
            let b2 = self.bytes[self.pos + 2];
            let b3 = self.bytes[self.pos + 3];
            self.pos = self.pos + 4;
            Ok(b0 as u32 + (b1 as u32) * 256 + (b2 as u32) * 65536 + (b3 as u32) * 16777216)
        } else {
            Self::eof()
        }
    }

    pub(crate) fn read_i8(&mut self) -> (r: PmxResult<i8>)
        requires
            old(self).wf(),
        ensures
            old(self).same_input(final(self)),
            step(r, spec_i8(old(self).bytes@, old(self).pos as int), final(self).pos as int),
    {
        let b = self.read_u8()?;
        if b < 128 {
            Ok(b as i8)
        } else {
            Ok(((b - 128) as i8) - 64 - 64)
        }
    }

    pub(crate) fn read_i16(&mut self) -> (r: PmxResult<i16>)
        requires
            old(self).wf(),
        ensures
            old(self).same_input(final(self)),
            step(r, spec_i16(old(self).bytes@, old(self).pos as int), final(self).pos as int),
    {
        let u = self.read_u16()?;
        if u < 32768 {
            Ok(u as i16)
        } else {
            Ok(((u - 32768) as i16) - 16384 - 16384)
        }
    }

    pub(crate) fn read_i32(&mut self) -> (r: PmxResult<i32>)
        requires
            old(self).wf(),
        ensures
            old(self).same_input(final(self)),
            step(r, spec_i32(old(self).bytes@, old(self).pos as int), final(self).pos as int),
    {
        let u = self.read_u32()?;
        if u < 0x8000_0000 {
            Ok(u as i32)
        } else {
            Ok(((u - 0x8000_0000) as i32) - 0x4000_0000 - 0x4000_0000)
        }
    }

    /// A 32-bit float, returned as its bit pattern.
    pub(crate) fn read_f32(&mut self) -> (r: PmxResult<u32>)
        requires
            old(self).wf(),
        ensures
            old(self).same_input(final(self)),
            step(r, spec_f32(old(self).bytes@, old(self).pos as int), final(self).pos as int),
    {
        self.read_u32()
    }

    pub(crate) fn read_vec2(&mut self) -> (r: PmxResult<[u32; 2]>)
        requires
            old(self).wf(),
        ensures
            old(self).same_input(final(self)),
            step(r, spec_vec2(old(self).bytes@, old(self).pos as int), final(self).pos as int),
    {
        let x = self.read_f32()?;
        let y = self.read_f32()?;
        Ok([x, y])
    }

    pub(crate) fn read_vec3(&mut self) -> (r: PmxResult<[u32; 3]>)
        requires
            old(self).wf(),
        ensures
            old(self).same_input(final(self)),
            step(r, spec_vec3(old(self).bytes@, old(self).pos as int), final(self).pos as int),
    {
        let x = self.read_f32()?;
        let y = self.read_f32()?;
        let z = self.read_f32()?;
        Ok([x, y, z])
    }

    pub(crate) fn read_vec4(&mut self) -> (r: PmxResult<[u32; 4]>)
        requires
            old(self).wf(),
        ensures
            old(self).same_input(final(self)),
            step(r, spec_vec4(old(self).bytes@, old(self).pos as int), final(self).pos as int),
    {
        let x = self.read_f32()?;
        let y = self.read_f32()?;
        let z = self.read_f32()?;
        let w = self.read_f32()?;
        Ok([x, y, z, w])
    }

    pub(crate) fn read_array4(&mut self) -> (r: PmxResult<[u8; 4]>)
        requires
            old(self).wf(),
        ensures
            old(self).same_input(final(self)),
            step(r, spec_magic(old(self).bytes@, old(self).pos as int), final(self).pos as int),
    {
        if self.bytes.len() - self.pos >= 4 {
            let p = self.pos;
            let a = [self.bytes[p], self.bytes[p + 1], self.bytes[p + 2], self.bytes[p + 3]];
            self.pos = p + 4;
            Ok(a)
        } else {
            Self::eof()
        }
    }

    pub(crate) fn read_bytes(&mut self, len: usize) -> (r: PmxResult<Vec<u8>>)
        requires
            old(self).wf(),
        ensures
            old(self).same_input(final(self)),
            step_view(r, spec_bytes(old(self).bytes@, old(self).pos as int, len as int), final(self).pos as int),
    {
        if self.bytes.len() - self.pos >= len {
            let p = self.pos;
            let v = vstd::slice::slice_to_vec(&self.bytes[p..p + len]);
            self.pos = p + len;
            Ok(v)
        } else {
            Self::eof()
        }
    }

    /// Skips `len` bytes.
    pub(crate) fn skip(&mut self, len: usize) -> (r: PmxResult<()>)
        requires
            old(self).wf(),
        ensures
            old(self).same_input(final(self)),
            match spec_bytes(old(self).bytes@, old(self).pos as int, len as int) {
                Ok((_, q)) => r == Ok::<(), PmxError>(()) && final(self).pos == q,
                Err(e) => r == Err::<(), PmxError>(e),
            },
    {
        if self.bytes.len() - self.pos >= len {
            self.pos = self.pos + len;
            Ok(())
        } else {
            Self::eof()
        }
    }

    pub(crate) fn read_len(&mut self) -> (r: PmxResult<usize>)
        requires
            old(self).wf(),
        ensures
            old(self).same_input(final(self)),
            step(r, spec_len(old(self).bytes@, old(self).pos as int), final(self).pos as int),
    {
        let len = self.read_i32()?;
        if len >= 0 {
            Ok(len as usize)
        } else {
            Err(PmxError::InvalidFormat("negative PMX length"))
        }
    }

    pub(crate) fn read_index(&mut self, size: u8) -> (r: PmxResult<i32>)
        requires
            old(self).wf(),
        ensures
            old(self).same_input(final(self)),
            step(r, spec_index(size, old(self).bytes@, old(self).pos as int), final(self).pos as int),
    {
        if size == 1 {
            let v = self.read_i8()?;
            Ok(v as i32)
        } else if size == 2 {
            let v = self.read_i16()?;
            Ok(v as i32)
        } else if size == 4 {
            self.read_i32()
        } else {
            Err(PmxError::InvalidFormat("unsupported PMX index width"))
        }
    }

    pub(crate) fn read_vertex_index(&mut self, size: u8) -> (r: PmxResult<u32>)
        requires
            old(self).wf(),
        ensures
            old(self).same_input(final(self)),
            step(r, spec_vertex_index(size, old(self).bytes@, old(self).pos as int), final(self).pos as int),
    {
        let index = self.read_index(size)?;
        if index >= 0 {
            Ok(index as u32)
        } else {
            Err(PmxError::InvalidFormat("vertex index cannot be negative"))
        }
    }
}

} // verus!
