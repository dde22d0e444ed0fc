//! The observer's side: a handle that notices new versions and reads the
//! payload.

use vstd::prelude::*;
use crate::error::{CapacityError, Gone};
use crate::layout::{Layout, LayoutView, TICK_LEN};
use crate::tick::{observed, Tick};

verus! {

/// What one poll yields, and the version the observer remembers after it.
/// On a closed region the poll fails and the observer remembers what it did;
/// otherwise it reports whether the tick differs from the version seen last,
/// and remembers the tick.
pub open spec fn polled(last_seen: u8, bits: u8) -> (Result<bool, Gone>, u8) {
    match observed(bits) {
        None => (Err(Gone), last_seen),
        Some(version) => (Ok(version != last_seen), version),
    }
}

/// The mathematical form of an observer: the version it saw last and the
/// layout of its region.
pub struct WatcherView {
    pub last_seen: u8,
    pub layout: LayoutView,
}

/// An observer's handle on a region. The version it saw last is its own and
/// is never written to the region. The caller holds the region's lock in
/// shared mode around [`Watcher::read`].
#[derive(Debug)]
pub struct Watcher {
    tick: u8,
    layout: Layout,
}

impl View for Watcher {
    type V = WatcherView;

    closed spec fn view(&self) -> WatcherView {
        WatcherView { last_seen: self.tick, layout: self.layout@ }
    }
}

impl Watcher {
    /// An observer of a region with the given layout that has seen no
    /// version yet: the version seen last starts at zero.
    pub fn with_layout(layout: Layout) -> (watcher: Watcher)
        ensures
            watcher@ == (WatcherView { last_seen: 0, layout: layout@ }),
    {
        Watcher { tick: 0, layout }
    }

    /// Attaches to a region that a publisher has taken into use, for a lock
    /// of `lock_len` bytes and a payload of `payload_len` bytes. The region
    /// is not changed; the version seen last starts at zero.
    pub fn new_in_shared(region: &[u8], lock_len: usize, payload_len: usize) -> (r: Result<
        Watcher,
        CapacityError,
    >)
        ensures
            r is Ok <==> TICK_LEN + lock_len + payload_len <= region@.len(),
            r matches Ok(watcher) ==> watcher@ == (WatcherView {
                last_seen: 0,
                layout: LayoutView { lock_len: lock_len as nat, payload_len: payload_len as nat },
            }),
            r matches Err(e) ==> e.missing() == TICK_LEN + lock_len + payload_len - region@.len(),
    {
        match Layout::new(region.len(), lock_len, payload_len) {
            Ok(layout) => Ok(Watcher::with_layout(layout)),
            Err(e) => Err(e),
        }
    }

    /// The layout of the region this handle was made for.
    pub fn layout(&self) -> (layout: &Layout)
        ensures
            layout@ == self@.layout,
    {
        &self.layout
    }

    /// The version this observer saw last.
    pub fn last_seen(&self) -> (v: u8)
        ensures
            v == self@.last_seen,
    {
        self.tick
    }

    /// Takes note of a tick that was read from the region: fails if it is
    /// closed, otherwise says whether it differs from the version seen last
    /// and remembers it.
    pub fn observe(&mut self, tick: &Tick) -> (r: Result<bool, Gone>)
        ensures
            r == polled(old(self)@.last_seen, tick@).0,
            final(self)@.last_seen == polled(old(self)@.last_seen, tick@).1,
            final(self)@.layout == old(self)@.layout,
    {
        match tick.try_get() {
            None => Err(Gone),
            Some(version) => {
                if version != self.tick {
                    self.tick = version;
                    Ok(true)
                } else {
                    Ok(false)
                }
            },
        }
    }

    /// Polls the region without taking its lock: fails once the publisher
    /// has closed it, otherwise says whether a version other than the one
    /// seen last is there, and remembers it.
    pub fn has_changed(&mut self, region: &[u8]) -> (r: Result<bool, Gone>)
        requires
            old(self)@.layout.fits(region@),
        ensures
            r == polled(old(self)@.last_seen, old(self)@.layout.tick(region@)).0,
            final(self)@.last_seen == polled(old(self)@.last_seen, old(self)@.layout.tick(region@)).1,
            final(self)@.layout == old(self)@.layout,
    {
        let tick = self.layout.tick(region);
        self.observe(&tick)
    }

    /// Hands the payload of the region to `func` and returns what `func`
    /// returns.
    pub fn read<F, O>(&self, region: &[u8], func: F) -> (out: O) where F: FnOnce(&[u8]) -> O
        requires
            self@.layout.fits(region@),
            forall|payload: &[u8]|
                payload@ == self@.layout.payload(region@) ==> call_requires(func, (payload,)),
        ensures
            exists|payload: &[u8]|
                payload@ == self@.layout.payload(region@) && call_ensures(func, (payload,), out),
    {
        func(self.layout.payload(region))
    }
}

} // verus!
