//! Where the tick, the lock and the payload lie in a region.

use vstd::prelude::*;
use vstd::slice::slice_subrange;
use crate::error::CapacityError;
use crate::tick::Tick;

verus! {

/// The length of the tick in bytes. It lies at the start of the region.
pub const TICK_LEN: usize = 1;

/// The mathematical form of a layout: the lengths of the lock's bytes and of
/// the payload. The tick comes first, the lock next, the payload last; what a
/// region holds beyond the payload is spare.
pub struct LayoutView {
    pub lock_len: nat,
    pub payload_len: nat,
}

impl LayoutView {
    /// The offset of the lock's bytes.
    pub open spec fn lock_offset(self) -> nat {
        TICK_LEN as nat
    }

    /// The offset of the payload.
    pub open spec fn payload_offset(self) -> nat {
        TICK_LEN as nat + self.lock_len
    }

    /// The offset just behind the payload: the least capacity of a region
    /// with this layout.
    pub open spec fn end(self) -> nat {
        TICK_LEN as nat + self.lock_len + self.payload_len
    }

    /// Whether a region is large enough for this layout.
    pub open spec fn fits(self, region: Seq<u8>) -> bool {
        self.end() <= region.len()
    }

    /// The tick byte of a region.
    pub open spec fn tick(self, region: Seq<u8>) -> u8 {
        region[0]
    }

    /// The lock's bytes in a region.
    pub open spec fn lock(self, region: Seq<u8>) -> Seq<u8> {
        region.subrange(self.lock_offset() as int, self.payload_offset() as int)
    }

    /// The payload of a region.
    pub open spec fn payload(self, region: Seq<u8>) -> Seq<u8> {
        region.subrange(self.payload_offset() as int, self.end() as int)
    }

    /// What a region holds behind the payload.
    pub open spec fn spare(self, region: Seq<u8>) -> Seq<u8> {
        region.subrange(self.end() as int, region.len() as int)
    }

    /// A region put together from its four parts.
    pub open spec fn compose(
        self,
        tick: u8,
        lock: Seq<u8>,
        payload: Seq<u8>,
        spare: Seq<u8>,
    ) -> Seq<u8> {
        seq![tick] + lock + payload + spare
    }
}

/// The layout of a region, computed once when a handle is made.
#[derive(Clone, Copy, Debug, PartialEq, Eq)]
pub struct Layout {
    lock_len: usize,
    payload_len: usize,
}

impl View for Layout {
    type V = LayoutView;

    closed spec fn view(&self) -> LayoutView {
        LayoutView { lock_len: self.lock_len as nat, payload_len: self.payload_len as nat }
    }
}

impl Layout {
    /// Every layout that exists describes a region that can exist: its end
    /// is an offset a machine can hold.
    #[verifier::type_invariant]
    spec fn in_reach(&self) -> bool {
        TICK_LEN + self.lock_len + self.payload_len <= usize::MAX
    }

    /// Lays out a region of `capacity` bytes for a lock of `lock_len` bytes
    /// and a payload of `payload_len` bytes, or says how many bytes are
    /// missing.
    pub fn new(capacity: usize, lock_len: usize, payload_len: usize) -> (r: Result<
        Layout,
        CapacityError,
    >)
        ensures
            r is Ok <==> TICK_LEN + lock_len + payload_len <= capacity,
            r matches Ok(layout) ==> layout@ == (LayoutView {
                lock_len: lock_len as nat,
                payload_len: payload_len as nat,
            }),
            r matches Err(e) ==> e.missing() == TICK_LEN + lock_len + payload_len - capacity,
    {
        let required: u128 = TICK_LEN as u128 + lock_len as u128 + payload_len as u128;
        if required <= capacity as u128 {
            Ok(Layout { lock_len, payload_len })
        } else {
            Err(CapacityError::new(required - capacity as u128))
        }
    }

    /// The offset of the tick byte.
    pub fn tick_offset(&self) -> (n: usize)
        ensures
            n == 0,
    {
        0
    }

    /// The offset of the lock's bytes.
    pub fn lock_offset(&self) -> (n: usize)
        ensures
            n == self@.lock_offset(),
    {
        TICK_LEN
    }

    /// The length of the lock's bytes.
    pub fn lock_len(&self) -> (n: usize)
        ensures
            n == self@.lock_len,
    {
        self.lock_len
    }

    /// The offset of the payload.
    pub fn payload_offset(&self) -> (n: usize)
        ensures
            n == self@.payload_offset(),
    {
        proof {
            use_type_invariant(self);
        }
        TICK_LEN + self.lock_len
    }

    /// The length of the payload.
    pub fn payload_len(&self) -> (n: usize)
        ensures
            n == self@.payload_len,
    {
        self.payload_len
    }

    /// The offset just behind the payload.
    pub fn end(&self) -> (n: usize)
        ensures
            n == self@.end(),
    {
        proof {
            use_type_invariant(self);
        }
        TICK_LEN + self.lock_len + self.payload_len
    }

    /// Reads the tick of a region.
    pub fn tick(&self, region: &[u8]) -> (t: Tick)
        requires
            self@.fits(region@),
        ensures
            t@ == self@.tick(region@),
    {
        Tick::from_bits(region[0])
    }

    /// Writes the tick of a region and leaves the rest as it is.
    pub fn set_tick(&self, region: &mut [u8], tick: &Tick)
        requires
            self@.fits(old(region)@),
        ensures
            final(region)@ == old(region)@.update(0, tick@),
    {
        region[0] = tick.bits();
    }

    /// The payload of a region, as a view into it.
    pub fn payload<'a>(&self, region: &'a [u8]) -> (p: &'a [u8])
        requires
            self@.fits(region@),
        ensures
            p@ == self@.payload(region@),
    {
        let from: usize = self.payload_offset();
        let to: usize = self.end();
        slice_subrange(region, from, to)
    }

    /// Overwrites the whole payload of a region with `value` and leaves the
    /// tick, the lock's bytes and the spare bytes as they are.
    pub fn set_payload(&self, region: &mut [u8], value: &[u8])
        requires
            self@.fits(old(region)@),
            value@.len() == self@.payload_len,
        ensures
            final(region)@ == self@.compose(
                self@.tick(old(region)@),
                self@.lock(old(region)@),
                value@,
                self@.spare(old(region)@),
            ),
    {
        let from: usize = self.payload_offset();
        let len: usize = self.payload_len();
        proof {
            use_type_invariant(self);
        }
        let mut i: usize = 0;
        while i < len
            invariant
                i <= len,
                len == value@.len(),
                from + len <= usize::MAX,
                from + len <= region@.len(),
                region@.len() == old(region)@.len(),
                forall|k: int|
                    0 <= k < region@.len() ==> region@[k] == if from <= k < from + i {
                        value@[k - from]
                    } else {
                        old(region)@[k]
                    },
            decreases len - i,
        {
            region[from + i] = value[i];
            i += 1;
        }
        assert(region@ =~= self@.compose(
            self@.tick(old(region)@),
            self@.lock(old(region)@),
            value@,
            self@.spare(old(region)@),
        ));
    }
}

} // verus!
