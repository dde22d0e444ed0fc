//! The publisher's side: the one handle that writes the payload and, at its
//! end, closes the region.

use vstd::prelude::*;
use crate::error::CapacityError;
use crate::layout::{Layout, LayoutView, TICK_LEN};
use crate::tick::{bumped, is_closed, sealed};

verus! {

/// A region as a new publisher leaves it: the tick is zero, version and
/// closed flag both cleared, and nothing else is touched.
pub open spec fn reset(region: Seq<u8>) -> Seq<u8> {
    region.update(0, 0u8)
}

/// A region after `value` was written: the payload is `value`, the tick has
/// advanced by one version, the lock's bytes and the spare bytes are as before.
pub open spec fn written(layout: LayoutView, region: Seq<u8>, value: Seq<u8>) -> Seq<u8> {
    layout.compose(
        bumped(layout.tick(region)),
        layout.lock(region),
        value,
        layout.spare(region),
    )
}

/// A region after its publisher has gone: the closed flag is set, the version
/// and everything else are as before.
pub open spec fn shut(region: Seq<u8>) -> Seq<u8> {
    region.update(0, sealed(region[0]))
}

/// The publisher's handle on a region. There is at most one per region at a
/// time; the caller sees to that, and holds the region's lock exclusively
/// around [`Watched::write`].
#[derive(Debug)]
pub struct Watched {
    layout: Layout,
}

impl View for Watched {
    type V = LayoutView;

    closed spec fn view(&self) -> LayoutView {
        self.layout@
    }
}

impl Watched {
    /// Takes a region into use for a lock of `lock_len` bytes and a payload
    /// of `payload_len` bytes, and resets its tick. A region that is too
    /// small is refused and left as it is.
    pub fn new_in_shared(region: &mut [u8], lock_len: usize, payload_len: usize) -> (r: Result<
        Watched,
        CapacityError,
    >)
        ensures
            r is Ok <==> TICK_LEN + lock_len + payload_len <= old(region)@.len(),
            r matches Ok(watched) ==> {
                &&& watched@ == (LayoutView {
                    lock_len: lock_len as nat,
                    payload_len: payload_len as nat,
                })
                &&& final(region)@ == reset(old(region)@)
            },
            r matches Err(e) ==> {
                &&& e.missing() == TICK_LEN + lock_len + payload_len - old(region)@.len()
                &&& final(region)@ == old(region)@
            },
    {
        match Layout::new(region.len(), lock_len, payload_len) {
            Ok(layout) => {
                let mut tick = layout.tick(region);
                tick.store(0);
                layout.set_tick(region, &tick);
                Ok(Watched { layout })
            },
            Err(e) => Err(e),
        }
    }

    /// The layout of the region this handle was made for.
    pub fn layout(&self) -> (layout: &Layout)
        ensures
            layout@ == self@,
    {
        &self.layout
    }

    /// Publishes `value`: overwrites the whole payload with it, then advances
    /// the tick.
    pub fn write(&self, region: &mut [u8], value: &[u8])
        requires
            self@.fits(old(region)@),
            value@.len() == self@.payload_len,
        ensures
            final(region)@ == written(self@, old(region)@, value@),
    {
        self.layout.set_payload(region, value);
        let mut tick = self.layout.tick(region);
        tick.tick();
        self.layout.set_tick(region, &tick);
        assert(region@ =~= written(self@, old(region)@, value@));
    }

    /// Ends the publisher: sets the closed flag of the region, from which
    /// observers learn that no write will follow.
    pub fn close(self, region: &mut [u8])
        requires
            self@.fits(old(region)@),
            !is_closed(self@.tick(old(region)@)),
        ensures
            final(region)@ == shut(old(region)@),
    {
        let mut tick = self.layout.tick(region);
        tick.close();
        self.layout.set_tick(region, &tick);
    }
}

} // verus!
