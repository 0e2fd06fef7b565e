//! The payload of a sample and the encoding that says how to read it.
//!
//! A payload is a run of bytes held as a list of [`ZSlice`]s, so that to put
//! bytes into a payload, or a payload into a sample, copies none of them.
use crate::zslice::ZSlice;
use vstd::prelude::*;

verus! {

/// The bytes of `slices` one after the other.
pub open spec fn concat(slices: Seq<ZSlice>) -> Seq<u8>
    decreases slices.len(),
{
    if slices.len() == 0 {
        Seq::empty()
    } else {
        concat(slices.drop_last()) + slices.last()@
    }
}

/// A run of bytes spread over shared buffers.
pub struct ZBytes {
    slices: Vec<ZSlice>,
}

impl ZBytes {
    /// The slices that hold the bytes, in their order.
    pub closed spec fn slices(&self) -> Seq<ZSlice> {
        self.slices@
    }

    /// The bytes of the payload.
    pub open spec fn view(&self) -> Seq<u8> {
        concat(self.slices())
    }

    /// The payload without a byte.
    pub fn new() -> (r: Self)
        ensures
            r.slices() == Seq::<ZSlice>::empty(),
            r@ == Seq::<u8>::empty(),
    {
        ZBytes { slices: Vec::new() }
    }

    /// Whether the payload holds no byte.
    pub fn is_empty(&self) -> (b: bool)
        ensures
            b <==> self@.len() == 0,
    {
        let mut i: usize = 0;
        while i < self.slices.len()
            invariant
                i <= self.slices@.len(),
                concat(self.slices@.take(i as int)).len() == 0,
            decreases self.slices@.len() - i,
        {
            assert(self.slices@.take(i + 1).drop_last() =~= self.slices@.take(i as int));
            if !self.slices[i].is_empty() {
                proof {
                    lemma_concat_len(self.slices@, i + 1);
                }
                return false;
            }
            i += 1;
        }
        assert(self.slices@.take(i as int) =~= self.slices@);
        true
    }

    /// A copy of the bytes in one vector.
    pub fn to_vec(&self) -> (v: Vec<u8>)
        ensures
            v@ == self@,
    {
        let mut out: Vec<u8> = Vec::new();
        let mut i: usize = 0;
        while i < self.slices.len()
            invariant
                i <= self.slices@.len(),
                out@ == concat(self.slices@.take(i as int)),
            decreases self.slices@.len() - i,
        {
            let ghost before = out@;
            let part = self.slices[i].as_slice();
            out.extend_from_slice(part);
            proof {
                assert(self.slices@.take(i + 1).drop_last() =~= self.slices@.take(i as int));
                assert(out@ =~= before + part@);
            }
            i += 1;
        }
        assert(self.slices@.take(i as int) =~= self.slices@);
        out
    }
}

/// A payload is at least as long as what its first slices hold.
proof fn lemma_concat_len(slices: Seq<ZSlice>, n: int)
    requires
        0 <= n <= slices.len(),
    ensures
        concat(slices.take(n)).len() <= concat(slices).len(),
    decreases slices.len(),
{
    if n < slices.len() {
        lemma_concat_len(slices.drop_last(), n);
        assert(slices.drop_last().take(n) =~= slices.take(n));
    } else {
        assert(slices.take(n) =~= slices);
    }
}

impl From<ZSlice> for ZBytes {
    /// The payload that holds the bytes of one slice.
    fn from(slice: ZSlice) -> (r: Self)
        ensures
            r.slices() == seq![slice],
            r@ == slice@,
    {
        let mut slices: Vec<ZSlice> = Vec::new();
        slices.push(slice);
        proof {
            assert(slices@ =~= seq![slice]);
            assert(slices@.drop_last() =~= Seq::<ZSlice>::empty());
            assert(concat(slices@.drop_last()) =~= Seq::<u8>::empty());
            assert(concat(slices@) =~= slice@);
        }
        ZBytes { slices }
    }
}

impl vstd::std_specs::convert::FromSpecImpl<ZSlice> for ZBytes {
    /// Two payloads over the same slices need not be one value, so the
    /// conversion is described by what `from` ensures and not by a value.
    open spec fn obeys_from_spec() -> bool {
        false
    }

    open spec fn from_spec(slice: ZSlice) -> Self {
        choose|b: ZBytes| b.slices() == seq![slice]
    }
}

impl Clone for ZBytes {
    /// A payload over the same buffers. No byte is copied.
    fn clone(&self) -> (r: Self)
        ensures
            r.slices() == self.slices(),
            r@ == self@,
    {
        let mut slices: Vec<ZSlice> = Vec::new();
        let mut i: usize = 0;
        while i < self.slices.len()
            invariant
                i <= self.slices@.len(),
                slices@ == self.slices@.take(i as int),
            decreases self.slices@.len() - i,
        {
            slices.push(self.slices[i].clone());
            assert(slices@ =~= self.slices@.take(i + 1));
            i += 1;
        }
        assert(self.slices@.take(i as int) =~= self.slices@);
        ZBytes { slices }
    }
}

/// How the bytes of a payload are to be read: a number that names the
/// encoding and, where the encoding has variants, bytes that tell which.
pub struct Encoding {
    pub id: u16,
    pub schema: Option<ZSlice>,
}

/// The number of the encoding of bytes that nothing more is known of.
pub const ZENOH_BYTES_ID: u16 = 0;

impl Encoding {
    /// The reserved encoding of bytes that nothing more is known of. A sample
    /// that deletes carries it.
    pub open spec fn spec_zenoh_bytes() -> Self {
        Encoding { id: ZENOH_BYTES_ID, schema: None }
    }

    /// The reserved encoding of bytes that nothing more is known of.
    pub fn zenoh_bytes() -> (r: Self)
        ensures
            r == Self::spec_zenoh_bytes(),
    {
        Encoding { id: ZENOH_BYTES_ID, schema: None }
    }
}

impl Default for Encoding {
    fn default() -> (r: Self)
        ensures
            r == Encoding::spec_zenoh_bytes(),
    {
        Encoding::zenoh_bytes()
    }
}

impl Clone for Encoding {
    fn clone(&self) -> (r: Self)
        ensures
            r == *self,
    {
        let schema = match &self.schema {
            Some(s) => Some(s.clone()),
            None => None,
        };
        Encoding { id: self.id, schema }
    }
}

} // verus!
