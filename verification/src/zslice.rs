//! Shared, sub-rangeable windows over reference-counted byte buffers.
//!
//! A [`ZSlice`] is a triple of a shared buffer, a start and an end, and stands
//! for the bytes of the buffer between the two. Taking a sub-slice or cloning
//! shares the buffer; no byte is copied. A slice also serves as a reader: to
//! read from it moves its start forward.
use crate::hex::{hex_list, hex_string};
use core::ops::{Index, Range, RangeFrom, RangeFull, RangeInclusive, RangeTo, RangeToInclusive};
use rand::rngs::ThreadRng;
use std::sync::Arc;
use vstd::prelude::*;
use vstd::slice::slice_subrange;

verus! {

/// Contiguous byte storage of a fixed length that a [`ZSlice`] can share.
///
/// An implementation says through [`bytes`](ZSliceBuffer::bytes) what it holds,
/// and its two accessors must agree with it.
pub trait ZSliceBuffer: Send + Sync {
    /// The bytes that this buffer holds.
    spec fn bytes(&self) -> Seq<u8>;

    /// Borrows the whole buffer.
    fn as_slice(&self) -> (s: &[u8])
        ensures
            s@ == self.bytes(),
    ;

    /// Borrows the whole buffer for writing. The bytes may change, their number
    /// may not.
    fn as_mut_slice(&mut self) -> (s: &mut [u8])
        ensures
            s@ == old(self).bytes(),
            final(self).bytes() == final(s)@,
    ;
}

impl ZSliceBuffer for Vec<u8> {
    open spec fn bytes(&self) -> Seq<u8> {
        self@
    }

    fn as_slice(&self) -> (s: &[u8]) {
        Vec::as_slice(self)
    }

    fn as_mut_slice(&mut self) -> (s: &mut [u8]) {
        Vec::as_mut_slice(self)
    }
}

impl ZSliceBuffer for Box<[u8]> {
    open spec fn bytes(&self) -> Seq<u8> {
        self@
    }

    fn as_slice(&self) -> (s: &[u8]) {
        &**self
    }

    fn as_mut_slice(&mut self) -> (s: &mut [u8]) {
        &mut **self
    }
}

impl<const N: usize> ZSliceBuffer for [u8; N] {
    open spec fn bytes(&self) -> Seq<u8> {
        self@
    }

    fn as_slice(&self) -> (s: &[u8]) {
        vstd::array::array_as_slice(self)
    }

    fn as_mut_slice(&mut self) -> (s: &mut [u8]) {
        self
    }
}

/// A clonable window over a shared, contiguous buffer of bytes.
pub struct ZSlice<B: ZSliceBuffer + ?Sized = dyn ZSliceBuffer> {
    buf: Arc<B>,
    start: usize,
    end: usize,
}

impl<B: ZSliceBuffer + ?Sized> ZSlice<B> {
    /// The handle on the buffer that the slice shares with its clones and
    /// sub-slices.
    pub closed spec fn shared(&self) -> Arc<B> {
        self.buf
    }

    /// All the bytes of the shared buffer, inside and outside the window.
    pub open spec fn buffer(&self) -> Seq<u8> {
        self.shared().bytes()
    }

    /// Where the window starts in the buffer. A read moves it forward.
    pub closed spec fn cursor(&self) -> nat {
        self.start as nat
    }

    /// Where the window ends in the buffer.
    pub closed spec fn limit(&self) -> nat {
        self.end as nat
    }

    /// The window lies inside the buffer. Every slice that this module hands
    /// out satisfies it.
    #[verifier::type_invariant]
    pub open spec fn wf(&self) -> bool {
        self.cursor() <= self.limit() <= self.buffer().len()
    }

    /// The bytes of the window.
    pub open spec fn view(&self) -> Seq<u8> {
        self.buffer().subrange(self.cursor() as int, self.limit() as int)
    }

    /// The slice over the whole of `buf`.
    pub closed spec fn whole(buf: Arc<B>) -> Self {
        ZSlice { buf, start: 0, end: buf.bytes().len() as usize }
    }

    /// The same window with its start put at `pos`, a position in the buffer.
    pub closed spec fn seek(self, pos: nat) -> Self {
        ZSlice { buf: self.buf, start: pos as usize, end: self.end }
    }

    /// The same window with its start moved forward by `n`.
    pub open spec fn advance(self, n: nat) -> Self {
        self.seek(self.cursor() + n)
    }

    /// `self` is `before` with its start put at `pos`: the same buffer and the
    /// same end.
    pub open spec fn is_at(self, before: Self, pos: nat) -> bool {
        &&& self == before.seek(pos)
        &&& self.shared() == before.shared()
        &&& self.limit() == before.limit()
        &&& self.cursor() == pos
    }

    /// `self` is `before` after `n` of its bytes were read.
    pub open spec fn is_after(self, before: Self, n: nat) -> bool {
        &&& self.is_at(before, before.cursor() + n)
        &&& self@ == before@.skip(n as int)
    }

    /// The window from `start` to `end`, both counted from the start of this
    /// one, over the same buffer.
    pub closed spec fn sub_slice(self, start: nat, end: nat) -> Self {
        ZSlice { buf: self.buf, start: (self.start + start) as usize, end: (self.start + end) as usize }
    }

    /// The slice over `buf` from `start` to `end`, or the buffer handed back
    /// when these are not bounds of a window inside it.
    pub fn make(buf: Arc<B>, start: usize, end: usize) -> (r: Result<ZSlice<B>, Arc<B>>)
        ensures
            r is Ok <==> start <= end <= buf.bytes().len(),
            r matches Ok(z) ==> {
                &&& z.shared() == buf
                &&& z.cursor() == start
                &&& z.limit() == end
                &&& z@ == buf.bytes().subrange(start as int, end as int)
            },
            r matches Err(b) ==> b == buf,
    {
        if start <= end && end <= buf.as_slice().len() {
            Ok(ZSlice { buf, start, end })
        } else {
            Err(buf)
        }
    }

    /// The shared buffer under the window.
    pub fn buf(&self) -> (b: &Arc<B>)
        ensures
            *b == self.shared(),
    {
        &self.buf
    }

    /// Where the window starts in the buffer.
    pub fn start(&self) -> (n: usize)
        ensures
            n == self.cursor(),
    {
        self.start
    }

    /// Where the window ends in the buffer.
    pub fn end(&self) -> (n: usize)
        ensures
            n == self.limit(),
    {
        self.end
    }

    /// The number of bytes in the window.
    pub fn len(&self) -> (n: usize)
        ensures
            n == self@.len(),
            n == self.limit() - self.cursor(),
    {
        proof {
            use_type_invariant(self);
        }
        self.end - self.start
    }

    /// Whether the window holds no byte.
    pub fn is_empty(&self) -> (b: bool)
        ensures
            b <==> self@.len() == 0,
    {
        self.len() == 0
    }

    /// Borrows the bytes of the window.
    pub fn as_slice(&self) -> (s: &[u8])
        ensures
            s@ == self@,
    {
        proof {
            use_type_invariant(self);
        }
        slice_subrange(self.buf.as_slice(), self.start, self.end)
    }

    /// The part of the window from `start` to `end`, both counted from the
    /// start of the window, over the same buffer; `None` when these are not
    /// bounds inside the window.
    pub fn new_sub_slice(&self, start: usize, end: usize) -> (r: Option<ZSlice<B>>)
        ensures
            r is Some <==> start <= end <= self@.len(),
            r matches Some(z) ==> {
                &&& z == self.sub_slice(start as nat, end as nat)
                &&& z.shared() == self.shared()
                &&& z.cursor() == self.cursor() + start
                &&& z.limit() == self.cursor() + end
                &&& z@ == self@.subrange(start as int, end as int)
            },
    {
        proof {
            use_type_invariant(self);
        }
        if start <= end && end <= self.len() {
            let z = ZSlice { buf: self.buf.clone(), start: self.start + start, end: self.start + end };
            assert(z@ =~= self@.subrange(start as int, end as int));
            Some(z)
        } else {
            None
        }
    }
}

impl<B: ZSliceBuffer + ?Sized> ZSlice<B> {
    /// The bytes of the window as text: two hex digits for each byte, in a
    /// list between square brackets.
    pub fn to_string(&self) -> (s: String)
        ensures
            s@ == hex_list(self@),
    {
        hex_string(self.as_slice())
    }
}

/// The random number generator of the `rand` crate that each thread has for
/// itself. Nothing is known of what it holds.
#[verifier::external_type_specification]
#[verifier::external_body]
pub struct ExThreadRng(ThreadRng);

/// The generator of the calling thread, by `rand::thread_rng`. Nothing is
/// claimed of it. The call panics where the system gives the generator no
/// seed.
#[verifier::external_body]
fn thread_rng() -> ThreadRng {
    rand::thread_rng()
}

/// The next byte of `rng`, by `rand::Rng::gen`. It may be any byte: nothing is
/// claimed of it.
#[verifier::external_body]
fn next_byte(rng: &mut ThreadRng) -> u8 {
    rand::Rng::gen(rng)
}

impl ZSlice<Vec<u8>> {
    /// A slice of `len` random bytes over a buffer of its own.
    pub fn rand(len: usize) -> (r: Self)
        ensures
            r@.len() == len,
            r.cursor() == 0,
            r.limit() == len,
            r.buffer() == r@,
    {
        let mut rng = thread_rng();
        let mut bytes: Vec<u8> = Vec::new();
        let mut i: usize = 0;
        while i < len
            invariant
                i <= len,
                bytes@.len() == i,
            decreases len - i,
        {
            bytes.push(next_byte(&mut rng));
            i += 1;
        }
        ZSlice::from(bytes)
    }
}

impl<B: ZSliceBuffer + ?Sized> Clone for ZSlice<B> {
    /// Another handle on the same buffer, with the same window.
    fn clone(&self) -> (r: Self)
        ensures
            r == *self,
    {
        proof {
            use_type_invariant(self);
        }
        ZSlice { buf: self.buf.clone(), start: self.start, end: self.end }
    }
}

/// Whether two byte slices hold the same bytes.
fn same_bytes(a: &[u8], b: &[u8]) -> (r: bool)
    ensures
        r <==> a@ == b@,
{
    if a.len() != b.len() {
        return false;
    }
    let mut i: usize = 0;
    while i < a.len()
        invariant
            i <= a@.len(),
            a@.len() == b@.len(),
            a@.take(i as int) == b@.take(i as int),
        decreases a@.len() - i,
    {
        if a[i] != b[i] {
            assert(a@[i as int] != b@[i as int]);
            return false;
        }
        assert(a@.take(i + 1) =~= a@.take(i as int).push(a@[i as int]));
        assert(b@.take(i + 1) =~= b@.take(i as int).push(b@[i as int]));
        i += 1;
    }
    assert(a@ =~= a@.take(i as int));
    assert(b@ =~= b@.take(i as int));
    true
}

impl<B: ZSliceBuffer + ?Sized, C: ZSliceBuffer + ?Sized> PartialEq<ZSlice<C>> for ZSlice<B> {
    /// Two slices are equal when their windows hold the same bytes, whatever
    /// buffers they lie in.
    fn eq(&self, other: &ZSlice<C>) -> (r: bool) {
        same_bytes(self.as_slice(), other.as_slice())
    }
}

impl<B: ZSliceBuffer + ?Sized, C: ZSliceBuffer + ?Sized> vstd::std_specs::cmp::PartialEqSpecImpl<ZSlice<C>> for ZSlice<B> {
    open spec fn obeys_eq_spec() -> bool {
        true
    }

    open spec fn eq_spec(&self, other: &ZSlice<C>) -> bool {
        self@ == other@
    }
}

impl<B: ZSliceBuffer + ?Sized> Eq for ZSlice<B> {
}

impl<B: ZSliceBuffer + ?Sized> core::ops::Deref for ZSlice<B> {
    type Target = [u8];

    fn deref(&self) -> (s: &[u8])
        ensures
            s@ == self@,
    {
        self.as_slice()
    }
}

impl<B: ZSliceBuffer + ?Sized> AsRef<[u8]> for ZSlice<B> {
    fn as_ref(&self) -> (s: &[u8])
        ensures
            s@ == self@,
    {
        self.as_slice()
    }
}

impl<B: ZSliceBuffer + ?Sized> Index<usize> for ZSlice<B> {
    type Output = u8;

    fn index(&self, index: usize) -> (r: &u8)
        ensures
            *r == self@[index as int],
    {
        &self.as_slice()[index]
    }
}

impl<B: ZSliceBuffer + ?Sized> vstd::std_specs::core::IndexSpecImpl<usize> for ZSlice<B> {
    open spec fn index_req(&self, index: &usize) -> bool {
        *index < self@.len()
    }
}

impl<B: ZSliceBuffer + ?Sized> Index<Range<usize>> for ZSlice<B> {
    type Output = [u8];

    fn index(&self, range: Range<usize>) -> (r: &[u8])
        ensures
            r@ == self@.subrange(range.start as int, range.end as int),
    {
        slice_subrange(self.as_slice(), range.start, range.end)
    }
}

impl<B: ZSliceBuffer + ?Sized> vstd::std_specs::core::IndexSpecImpl<Range<usize>> for ZSlice<B> {
    open spec fn index_req(&self, range: &Range<usize>) -> bool {
        range.start <= range.end <= self@.len()
    }
}

/// A range of std that has a start and no end.
#[verifier::external_type_specification]
pub struct ExRangeFrom<Idx>(RangeFrom<Idx>);

/// A range of std that has an end, left out, and no start.
#[verifier::external_type_specification]
pub struct ExRangeTo<Idx>(RangeTo<Idx>);

/// The range of std that has neither start nor end.
#[verifier::external_type_specification]
pub struct ExRangeFull(RangeFull);

impl<B: ZSliceBuffer + ?Sized> Index<RangeFrom<usize>> for ZSlice<B> {
    type Output = [u8];

    fn index(&self, range: RangeFrom<usize>) -> (r: &[u8])
        ensures
            r@ == self@.skip(range.start as int),
    {
        slice_subrange(self.as_slice(), range.start, self.len())
    }
}

impl<B: ZSliceBuffer + ?Sized> vstd::std_specs::core::IndexSpecImpl<RangeFrom<usize>> for ZSlice<B> {
    open spec fn index_req(&self, range: &RangeFrom<usize>) -> bool {
        range.start <= self@.len()
    }
}

impl<B: ZSliceBuffer + ?Sized> Index<RangeTo<usize>> for ZSlice<B> {
    type Output = [u8];

    fn index(&self, range: RangeTo<usize>) -> (r: &[u8])
        ensures
            r@ == self@.take(range.end as int),
    {
        slice_subrange(self.as_slice(), 0, range.end)
    }
}

impl<B: ZSliceBuffer + ?Sized> vstd::std_specs::core::IndexSpecImpl<RangeTo<usize>> for ZSlice<B> {
    open spec fn index_req(&self, range: &RangeTo<usize>) -> bool {
        range.end <= self@.len()
    }
}

impl<B: ZSliceBuffer + ?Sized> Index<RangeFull> for ZSlice<B> {
    type Output = [u8];

    fn index(&self, _range: RangeFull) -> (r: &[u8])
        ensures
            r@ == self@,
    {
        self.as_slice()
    }
}

impl<B: ZSliceBuffer + ?Sized> vstd::std_specs::core::IndexSpecImpl<RangeFull> for ZSlice<B> {
    open spec fn index_req(&self, range: &RangeFull) -> bool {
        true
    }
}

/// A range of std that has an end, which it holds, and no start.
#[verifier::external_type_specification]
pub struct ExRangeToInclusive<Idx>(RangeToInclusive<Idx>);

/// `RangeInclusive::start` returns the lower bound that the range was made
/// with. Of a range that was iterated to its end std leaves it open.
pub assume_specification<Idx>[ RangeInclusive::<Idx>::start ](
    range: &RangeInclusive<Idx>,
) -> (start: &Idx)
    ensures
        !range@.exhausted ==> *start == range@.start,
;

/// `RangeInclusive::end` returns the upper bound that the range was made
/// with. Of a range that was iterated to its end std leaves it open.
pub assume_specification<Idx>[ RangeInclusive::<Idx>::end ](
    range: &RangeInclusive<Idx>,
) -> (end: &Idx)
    ensures
        !range@.exhausted ==> *end == range@.end,
;

impl<B: ZSliceBuffer + ?Sized> Index<RangeInclusive<usize>> for ZSlice<B> {
    type Output = [u8];

    fn index(&self, range: RangeInclusive<usize>) -> (r: &[u8])
        ensures
            r@ == self@.subrange(range@.start as int, range@.end + 1),
    {
        proof {
            use_type_invariant(self);
        }
        slice_subrange(self.as_slice(), *range.start(), *range.end() + 1)
    }
}

impl<B: ZSliceBuffer + ?Sized> vstd::std_specs::core::IndexSpecImpl<RangeInclusive<usize>> for ZSlice<B> {
    open spec fn index_req(&self, range: &RangeInclusive<usize>) -> bool {
        !range@.exhausted && range@.start <= range@.end + 1 && range@.end < self@.len()
    }
}

impl<B: ZSliceBuffer + ?Sized> Index<RangeToInclusive<usize>> for ZSlice<B> {
    type Output = [u8];

    fn index(&self, range: RangeToInclusive<usize>) -> (r: &[u8])
        ensures
            r@ == self@.take(range.end + 1),
    {
        proof {
            use_type_invariant(self);
        }
        slice_subrange(self.as_slice(), 0, range.end + 1)
    }
}

impl<B: ZSliceBuffer + ?Sized> vstd::std_specs::core::IndexSpecImpl<RangeToInclusive<usize>> for ZSlice<B> {
    open spec fn index_req(&self, range: &RangeToInclusive<usize>) -> bool {
        range.end < self@.len()
    }
}

impl<B: ZSliceBuffer + ?Sized> From<Arc<B>> for ZSlice<B> {
    /// The slice over the whole of a buffer that is already shared.
    fn from(buf: Arc<B>) -> (r: Self)
        ensures
            r.shared() == buf,
            r.cursor() == 0,
            r.limit() == buf.bytes().len(),
            r@ == buf.bytes(),
    {
        let end = buf.as_slice().len();
        let r = ZSlice { buf, start: 0, end };
        assert(r@ =~= r.buffer());
        r
    }
}

impl<B: ZSliceBuffer + ?Sized> vstd::std_specs::convert::FromSpecImpl<Arc<B>> for ZSlice<B> {
    open spec fn obeys_from_spec() -> bool {
        true
    }

    open spec fn from_spec(buf: Arc<B>) -> Self {
        ZSlice::whole(buf)
    }
}

impl<T: ZSliceBuffer> From<T> for ZSlice<T> {
    /// The slice over the whole of a buffer, which it takes into shared
    /// ownership.
    fn from(buf: T) -> (r: Self)
        ensures
            *r.shared() == buf,
            r.cursor() == 0,
            r.limit() == buf.bytes().len(),
            r@ == buf.bytes(),
    {
        let end = buf.as_slice().len();
        let r = ZSlice { buf: Arc::new(buf), start: 0, end };
        assert(r@ =~= r.buffer());
        r
    }
}

impl<T: ZSliceBuffer> vstd::std_specs::convert::FromSpecImpl<T> for ZSlice<T> {
    open spec fn obeys_from_spec() -> bool {
        true
    }

    open spec fn from_spec(buf: T) -> Self {
        ZSlice::whole(Arc::new(buf))
    }
}

/// The one failure of a reader: its source had too little left to give.
#[derive(Clone, Copy, Debug, PartialEq, Eq, Structural)]
pub struct DidntRead;

impl<B: ZSliceBuffer + ?Sized> ZSlice<B> {
    /// What [`read_u8`](ZSlice::read_u8) returns and the reader it leaves.
    pub open spec fn spec_read_u8(self) -> (Result<u8, DidntRead>, Self) {
        if self@.len() > 0 {
            (Ok(self@[0]), self.advance(1))
        } else {
            (Err(DidntRead), self)
        }
    }

    /// What [`read`](ZSlice::read) returns on a destination that holds `dst`,
    /// the reader it leaves, and what the destination then holds.
    pub open spec fn spec_read(self, dst: Seq<u8>) -> (Result<usize, DidntRead>, Self, Seq<u8>) {
        let n = if self@.len() <= dst.len() {
            self@.len()
        } else {
            dst.len()
        };
        if n > 0 {
            (Ok(n as usize), self.advance(n), self@.take(n as int) + dst.skip(n as int))
        } else {
            (Err(DidntRead), self, dst)
        }
    }

    /// What [`read_exact`](ZSlice::read_exact) returns on a destination that
    /// holds `dst`, the reader it leaves, and what the destination then holds.
    pub open spec fn spec_read_exact(self, dst: Seq<u8>) -> (Result<(), DidntRead>, Self, Seq<u8>) {
        if dst.len() <= self@.len() {
            (Ok(()), self.advance(dst.len()), self@.take(dst.len() as int))
        } else {
            (Err(DidntRead), self, dst)
        }
    }

    /// What [`read_zslice`](ZSlice::read_zslice) returns and the reader it
    /// leaves.
    pub open spec fn spec_read_zslice(self, len: usize) -> (Result<Self, DidntRead>, Self) {
        if len <= self@.len() {
            (Ok(self.sub_slice(0, len as nat)), self.advance(len as nat))
        } else {
            (Err(DidntRead), self)
        }
    }

    /// What [`mark`](ZSlice::mark) returns.
    pub open spec fn spec_mark(self) -> usize {
        self.cursor() as usize
    }

    /// What [`rewind`](ZSlice::rewind) returns and the reader it leaves.
    pub open spec fn spec_rewind(self, mark: usize) -> (bool, Self) {
        if mark <= self.limit() {
            (true, self.seek(mark as nat))
        } else {
            (false, self)
        }
    }

    /// The slice itself, as the reader of its bytes.
    pub fn reader(&mut self) -> (r: &mut Self)
        ensures
            *r == *old(self),
            *final(self) == *final(r),
    {
        self
    }

    /// Copies bytes from the start of the window into the start of `into`, as
    /// many as both have room for, and moves the start of the window past
    /// them. Fails, and changes nothing, when that number is zero.
    pub fn read(&mut self, into: &mut [u8]) -> (r: Result<usize, DidntRead>)
        ensures
            r == old(self).spec_read(old(into)@).0,
            *final(self) == old(self).spec_read(old(into)@).1,
            final(into)@ == old(self).spec_read(old(into)@).2,
            r matches Ok(n) ==> 0 < n <= old(into)@.len() && final(self).is_after(*old(self), n as nat),
    {
        proof {
            use_type_invariant(&*self);
        }
        let have = self.len();
        let n = if have <= into.len() {
            have
        } else {
            into.len()
        };
        if n == 0 {
            return Err(DidntRead);
        }
        self.copy_to(into, n);
        self.start += n;
        assert(self@ =~= old(self)@.skip(n as int));
        Ok(n)
    }

    /// Fills `into` from the start of the window and moves the start of the
    /// window past what was copied. Fails, and changes nothing, when the
    /// window is shorter than `into`.
    pub fn read_exact(&mut self, into: &mut [u8]) -> (r: Result<(), DidntRead>)
        ensures
            r == old(self).spec_read_exact(old(into)@).0,
            *final(self) == old(self).spec_read_exact(old(into)@).1,
            final(into)@ == old(self).spec_read_exact(old(into)@).2,
            r is Ok ==> final(self).is_after(*old(self), old(into)@.len()),
    {
        proof {
            use_type_invariant(&*self);
        }
        let n = into.len();
        if self.len() < n {
            return Err(DidntRead);
        }
        self.copy_to(into, n);
        self.start += n;
        assert(into@ =~= old(self)@.take(n as int));
        assert(self@ =~= old(self)@.skip(n as int));
        Ok(())
    }

    /// The first byte of the window, which the window then no longer holds.
    /// Fails on an empty window.
    pub fn read_u8(&mut self) -> (r: Result<u8, DidntRead>)
        ensures
            r == old(self).spec_read_u8().0,
            *final(self) == old(self).spec_read_u8().1,
            r is Ok ==> final(self).is_after(*old(self), 1),
    {
        proof {
            use_type_invariant(&*self);
        }
        if self.start < self.end {
            let b = self.buf.as_slice()[self.start];
            self.start += 1;
            assert(self@ =~= old(self)@.skip(1));
            Ok(b)
        } else {
            Err(DidntRead)
        }
    }

    /// Takes the next `len` bytes as one slice over the same buffer and hands
    /// it to `f`. Fails, with `f` not called and nothing changed, when the
    /// window is shorter than `len`.
    pub fn read_zslices<F: FnOnce(ZSlice<B>)>(&mut self, len: usize, f: F) -> (r: Result<(), DidntRead>)
        requires
            len <= old(self)@.len() ==> f.requires((old(self).sub_slice(0, len as nat),)),
        ensures
            r is Ok <==> len <= old(self)@.len(),
            *final(self) == old(self).spec_read_zslice(len).1,
            r is Ok ==> f.ensures((old(self).sub_slice(0, len as nat),), ()),
            r is Ok ==> final(self).is_after(*old(self), len as nat),
    {
        match self.read_zslice(len) {
            Ok(zslice) => {
                f(zslice);
                Ok(())
            },
            Err(e) => Err(e),
        }
    }

    /// The next `len` bytes as a slice over the same buffer, which the window
    /// then no longer holds. No byte is copied. Fails, and changes nothing,
    /// when the window is shorter than `len`.
    pub fn read_zslice(&mut self, len: usize) -> (r: Result<ZSlice<B>, DidntRead>)
        ensures
            r == old(self).spec_read_zslice(len).0,
            *final(self) == old(self).spec_read_zslice(len).1,
            r matches Ok(z) ==> z@ == old(self)@.take(len as int) && z.shared() == old(self).shared(),
            r is Ok ==> final(self).is_after(*old(self), len as nat),
    {
        proof {
            use_type_invariant(&*self);
        }
        match self.new_sub_slice(0, len) {
            Some(res) => {
                self.start += len;
                assert(self@ =~= old(self)@.skip(len as int));
                Ok(res)
            },
            None => Err(DidntRead),
        }
    }

    /// The number of bytes that are left to read.
    pub fn remaining(&self) -> (n: usize)
        ensures
            n == self@.len(),
    {
        self.len()
    }

    /// Whether a byte is left to read.
    pub fn can_read(&self) -> (b: bool)
        ensures
            b <==> self@.len() > 0,
    {
        !self.is_empty()
    }

    /// The position of the reader, to come back to with
    /// [`rewind`](ZSlice::rewind).
    pub fn mark(&mut self) -> (m: usize)
        ensures
            m == old(self).spec_mark(),
            m == old(self).cursor(),
            m <= old(self).limit(),
            *final(self) == *old(self),
    {
        proof {
            use_type_invariant(&*self);
        }
        self.start
    }

    /// Puts the reader back at `mark` and returns `true`. A position past the
    /// end of the window is no mark of this reader: it is refused with `false`
    /// and the reader stays where it is.
    pub fn rewind(&mut self, mark: usize) -> (r: bool)
        ensures
            r == old(self).spec_rewind(mark).0,
            r <==> mark <= old(self).limit(),
            r ==> final(self).is_at(*old(self), mark as nat),
            *final(self) == old(self).spec_rewind(mark).1,
    {
        proof {
            use_type_invariant(&*self);
        }
        if mark <= self.end {
            self.start = mark;
            true
        } else {
            false
        }
    }

    /// Copies the first `n` bytes of the window over the first `n` bytes of
    /// `into`.
    fn copy_to(&self, into: &mut [u8], n: usize)
        requires
            n <= self@.len(),
            n <= old(into)@.len(),
        ensures
            final(into)@ == self@.take(n as int) + old(into)@.skip(n as int),
    {
        let src = self.as_slice();
        let mut i: usize = 0;
        while i < n
            invariant
                i <= n <= src@.len(),
                n <= into@.len(),
                src@ == self@,
                into@.len() == old(into)@.len(),
                into@ == src@.take(i as int) + old(into)@.skip(i as int),
            decreases n - i,
        {
            into[i] = src[i];
            i += 1;
            assert(into@ =~= src@.take(i as int) + old(into)@.skip(i as int));
        }
    }
}

/// One read of a reader, named by the method that makes it.
pub enum ReadOp {
    /// A call of [`ZSlice::read_u8`].
    U8,
    /// A call of [`ZSlice::read`] with a destination of this length.
    Read(usize),
    /// A call of [`ZSlice::read_exact`] with a destination of this length.
    ReadExact(usize),
    /// A call of [`ZSlice::read_zslice`] or [`ZSlice::read_zslices`] for this
    /// many bytes.
    ReadZSlice(usize),
}

impl<B: ZSliceBuffer + ?Sized> ZSlice<B> {
    /// The reader that the read `op` leaves. For the two reads that fill a
    /// destination, what the destination held before plays no part in it.
    pub open spec fn after(self, op: ReadOp) -> Self {
        match op {
            ReadOp::U8 => self.spec_read_u8().1,
            ReadOp::Read(n) => self.spec_read(Seq::new(n as nat, |i: int| 0u8)).1,
            ReadOp::ReadExact(n) => self.spec_read_exact(Seq::new(n as nat, |i: int| 0u8)).1,
            ReadOp::ReadZSlice(n) => self.spec_read_zslice(n).1,
        }
    }

    /// The reader that the reads `ops` leave, made one after the other.
    pub open spec fn after_all(self, ops: Seq<ReadOp>) -> Self
        decreases ops.len(),
    {
        if ops.len() == 0 {
            self
        } else {
            self.after_all(ops.drop_last()).after(ops.last())
        }
    }

    /// The reader that `n` calls of [`read_u8`](ZSlice::read_u8) leave.
    pub open spec fn after_bytes(self, n: nat) -> Self
        decreases n,
    {
        if n == 0 {
            self
        } else {
            self.spec_read_u8().1.after_bytes((n - 1) as nat)
        }
    }

    /// The bytes that `n` calls of [`read_u8`](ZSlice::read_u8) return, up to
    /// the first that fails.
    pub open spec fn bytes_read(self, n: nat) -> Seq<u8>
        decreases n,
    {
        if n == 0 {
            Seq::empty()
        } else {
            match self.spec_read_u8().0 {
                Ok(b) => seq![b] + self.spec_read_u8().1.bytes_read((n - 1) as nat),
                Err(_) => Seq::empty(),
            }
        }
    }

    /// To put the start of a window at a position up to its end gives a
    /// window over the same buffer with the same end, and a valid one.
    pub proof fn lemma_seek(self, pos: nat)
        requires
            self.wf(),
            pos <= self.limit(),
        ensures
            self.seek(pos).is_at(self, pos),
            self.seek(pos).wf(),
            self.seek(self.cursor()) == self,
    {
    }

    /// To move the start of a window forward by no more than its length
    /// drops that many bytes from its front and nothing else.
    pub proof fn lemma_advance(self, n: nat)
        requires
            self.wf(),
            n <= self@.len(),
        ensures
            self.advance(n).is_after(self, n),
            self.advance(n).wf(),
    {
        assert(self.advance(n)@ =~= self@.skip(n as int));
    }

    /// A sub-slice holds the bytes of its part of the window and lies in the
    /// same buffer.
    pub proof fn lemma_sub_slice(self, start: nat, end: nat)
        requires
            self.wf(),
            start <= end <= self@.len(),
        ensures
            self.sub_slice(start, end)@ == self@.subrange(start as int, end as int),
            self.sub_slice(start, end).shared() == self.shared(),
            self.sub_slice(start, end).wf(),
    {
        assert(self.sub_slice(start, end)@ =~= self@.subrange(start as int, end as int));
    }

    /// Whatever is read, a reader only moves forward in its buffer, and never
    /// past its end.
    pub proof fn lemma_reads_move_forward(self, ops: Seq<ReadOp>)
        requires
            self.wf(),
        ensures
            self.after_all(ops).wf(),
            self.after_all(ops).is_at(self, self.after_all(ops).cursor()),
            self.cursor() <= self.after_all(ops).cursor() <= self.limit(),
        decreases ops.len(),
    {
        if ops.len() > 0 {
            self.lemma_reads_move_forward(ops.drop_last());
        }
    }

    /// Backtracking: a mark taken before any sequence of reads brings the
    /// reader back, by `rewind`, to the very state it had when the mark was
    /// taken. What it then has left and what it next reads are what they were.
    pub proof fn lemma_rewind_undoes_reads(self, ops: Seq<ReadOp>)
        requires
            self.wf(),
        ensures
            self.after_all(ops).spec_rewind(self.spec_mark()) == (true, self),
    {
        self.lemma_reads_move_forward(ops);
    }

    /// Reading byte by byte gives the bytes of the window in their order:
    /// the first `n` reads return its first `n` bytes and leave the rest.
    pub proof fn lemma_bytes_read(self, n: nat)
        requires
            self.wf(),
            n <= self@.len(),
        ensures
            self.bytes_read(n) == self@.take(n as int),
            self.after_bytes(n) == self.advance(n),
            self.after_bytes(n).wf(),
            self.after_bytes(n)@ == self@.skip(n as int),
        decreases n,
    {
        self.lemma_advance(n);
        if n > 0 {
            let next = self.spec_read_u8().1;
            self.lemma_advance(1);
            next.lemma_bytes_read((n - 1) as nat);
            assert(self.bytes_read(n) =~= self@.take(n as int));
        } else {
            assert(self.bytes_read(n) =~= self@.take(n as int));
        }
    }

    /// Round trip: as many single-byte reads as the window has bytes return
    /// exactly its bytes, and the read after them fails.
    pub proof fn lemma_read_round_trip(self)
        requires
            self.wf(),
        ensures
            self.bytes_read(self@.len()) == self@,
            self.after_bytes(self@.len()).spec_read_u8().0 == Err::<u8, DidntRead>(DidntRead),
    {
        self.lemma_bytes_read(self@.len());
        assert(self@.take(self@.len() as int) =~= self@);
    }

    /// The round trip for a buffer: the slice over the whole of a buffer,
    /// read byte by byte, gives back the bytes of the buffer.
    pub proof fn lemma_buffer_round_trip(buf: Arc<B>)
        requires
            buf.bytes().len() <= usize::MAX,
        ensures
            Self::whole(buf).wf(),
            Self::whole(buf)@ == buf.bytes(),
            Self::whole(buf).bytes_read(buf.bytes().len()) == buf.bytes(),
            Self::whole(buf).after_bytes(buf.bytes().len()).spec_read_u8().0 == Err::<u8, DidntRead>(
                DidntRead,
            ),
    {
        assert(Self::whole(buf)@ =~= buf.bytes());
        Self::whole(buf).lemma_read_round_trip();
    }

    /// Where the window holds `len` bytes or more, `read_zslice(len)` hands
    /// out, without copying, the bytes that `read` would have copied into a
    /// destination of length `len`, and leaves the reader where `read` would
    /// have left it.
    pub proof fn lemma_read_zslice_matches_read(self, len: usize, dst: Seq<u8>)
        requires
            self.wf(),
            len <= self@.len(),
            dst.len() == len,
        ensures
            self.spec_read_zslice(len).0 is Ok,
            self.spec_read_zslice(len).0->Ok_0@ == self.spec_read(dst).2,
            self.spec_read_zslice(len).1 == self.spec_read(dst).1,
    {
        self.lemma_sub_slice(0, len as nat);
        self.lemma_advance(len as nat);
        assert(self@.take(len as int) + dst.skip(len as int) =~= self@.subrange(0, len as int));
    }
}

} // verus!
