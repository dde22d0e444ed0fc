//! What holds of the protocol as a whole: how writes, polls and the closing
//! of a region follow on one another.

use vstd::prelude::*;
use crate::error::Gone;
use crate::layout::LayoutView;
use crate::tick::{bumped, is_closed, observed, sealed, version_of};
use crate::watched::{reset, shut, written};
use crate::watcher::polled;

verus! {

/// The closed flag is bit 0: a tick byte is closed exactly when it is odd.
pub proof fn lemma_closed_is_odd(bits: u8)
    ensures
        is_closed(bits) <==> bits % 2 == 1,
{
    assert((bits & 1 == 1) <==> bits % 2 == 1) by (bit_vector);
}

/// A write advances the version by one, wrapping round at 128, and leaves
/// the closed flag as it is.
pub proof fn lemma_bumped(bits: u8)
    ensures
        version_of(bumped(bits)) == (version_of(bits) + 1) % 128,
        is_closed(bumped(bits)) == is_closed(bits),
        bumped(bits) != bits,
{
    lemma_closed_is_odd(bits);
    lemma_closed_is_odd(bumped(bits));
}

/// Closing sets the flag and keeps the version; on a region that is closed
/// already it changes nothing. So a flag once set is never cleared, by a
/// write or by closing.
pub proof fn lemma_sealed(bits: u8)
    ensures
        is_closed(sealed(bits)),
        version_of(sealed(bits)) == version_of(bits),
        is_closed(bits) ==> sealed(bits) == bits,
        !is_closed(bits) ==> sealed(bits) == bits + 1,
{
    assert((bits | 1) & 1 == 1) by (bit_vector);
    assert((bits | 1) / 2 == bits / 2) by (bit_vector);
    assert(bits & 1 == 1 ==> bits | 1 == bits) by (bit_vector);
    assert(bits & 1 != 1 ==> bits | 1 == bits + 1) by (bit_vector);
}

/// A region that a publisher has just taken into use is open, at version
/// zero.
pub proof fn lemma_reset_is_open(layout: LayoutView, region: Seq<u8>)
    requires
        layout.fits(region),
    ensures
        layout.tick(reset(region)) == 0,
        observed(layout.tick(reset(region))) == Some(0u8),
        layout.lock(reset(region)) == layout.lock(region),
        layout.payload(reset(region)) == layout.payload(region),
        layout.spare(reset(region)) == layout.spare(region),
{
    assert(0u8 & 1 != 1) by (bit_vector);
    assert(layout.lock(reset(region)) =~= layout.lock(region));
    assert(layout.payload(reset(region)) =~= layout.payload(region));
    assert(layout.spare(reset(region)) =~= layout.spare(region));
}

/// A write puts its value into the payload whole, advances the tick, and
/// changes neither the lock's bytes, nor the spare bytes, nor the length of
/// the region.
pub proof fn lemma_written(layout: LayoutView, region: Seq<u8>, value: Seq<u8>)
    requires
        layout.fits(region),
        value.len() == layout.payload_len,
    ensures
        written(layout, region, value).len() == region.len(),
        layout.tick(written(layout, region, value)) == bumped(layout.tick(region)),
        layout.lock(written(layout, region, value)) == layout.lock(region),
        layout.payload(written(layout, region, value)) == value,
        layout.spare(written(layout, region, value)) == layout.spare(region),
{
    let after = written(layout, region, value);
    assert(layout.lock(after) =~= layout.lock(region));
    assert(layout.payload(after) =~= value);
    assert(layout.spare(after) =~= layout.spare(region));
}

/// After the publisher has written one value and then another, an observer
/// that polls once is told of a change, and the payload it then reads is the
/// second value whole, with no byte of the first left. The one observer that
/// is told of no change is the one whose last version is two writes ahead of
/// the region as it was.
pub proof fn lemma_second_write_is_read(
    layout: LayoutView,
    region: Seq<u8>,
    first: Seq<u8>,
    second: Seq<u8>,
    last_seen: u8,
)
    requires
        layout.fits(region),
        first.len() == layout.payload_len,
        second.len() == layout.payload_len,
        !is_closed(layout.tick(region)),
        last_seen != bumped(bumped(layout.tick(region))),
    ensures
        ({
            let after = written(layout, written(layout, region, first), second);
            &&& polled(last_seen, layout.tick(after)).0 == Ok::<bool, Gone>(true)
            &&& layout.payload(after) == second
        }),
{
    let once = written(layout, region, first);
    lemma_written(layout, region, first);
    lemma_written(layout, once, second);
    lemma_bumped(layout.tick(region));
    lemma_bumped(layout.tick(once));
}

/// Two polls in a row with no write between them: the second reports no
/// change, and the first reports a change exactly if the tick is not the
/// version seen last.
pub proof fn lemma_poll_twice(last_seen: u8, bits: u8)
    requires
        !is_closed(bits),
    ensures
        polled(last_seen, bits).0 == Ok::<bool, Gone>(bits != last_seen),
        polled(polled(last_seen, bits).1, bits).0 == Ok::<bool, Gone>(false),
{
}

/// Once the publisher has closed the region every poll fails, whatever
/// version the observer saw last and whatever version the region holds, and
/// the observer's own state stays as it was.
pub proof fn lemma_closed_is_gone(layout: LayoutView, region: Seq<u8>, last_seen: u8)
    requires
        layout.fits(region),
    ensures
        polled(last_seen, layout.tick(shut(region))) == (Err::<bool, Gone>(Gone), last_seen),
        layout.lock(shut(region)) == layout.lock(region),
        layout.payload(shut(region)) == layout.payload(region),
        layout.spare(shut(region)) == layout.spare(region),
{
    lemma_sealed(region[0]);
    assert(layout.lock(shut(region)) =~= layout.lock(region));
    assert(layout.payload(shut(region)) =~= layout.payload(region));
    assert(layout.spare(shut(region)) =~= layout.spare(region));
}

/// A region after each of `values` was written to it, the first of them
/// first.
pub open spec fn written_all(layout: LayoutView, region: Seq<u8>, values: Seq<Seq<u8>>) -> Seq<u8>
    decreases values.len(),
{
    if values.len() == 0 {
        region
    } else {
        written(layout, written_all(layout, region, values.drop_last()), values.last())
    }
}

/// After any number of writes the region has its length, its lock's bytes and
/// its spare bytes still; its tick has advanced by two for each write,
/// wrapping at 256; and its payload, if there was a write at all, is the value
/// written last.
pub proof fn lemma_written_all(layout: LayoutView, region: Seq<u8>, values: Seq<Seq<u8>>)
    requires
        layout.fits(region),
        forall|i: int| 0 <= i < values.len() ==> (#[trigger] values[i]).len() == layout.payload_len,
    ensures
        written_all(layout, region, values).len() == region.len(),
        layout.tick(written_all(layout, region, values)) == (layout.tick(region) + 2 * values.len())
            % 256,
        is_closed(layout.tick(written_all(layout, region, values))) == is_closed(
            layout.tick(region),
        ),
        layout.lock(written_all(layout, region, values)) == layout.lock(region),
        layout.spare(written_all(layout, region, values)) == layout.spare(region),
        values.len() > 0 ==> layout.payload(written_all(layout, region, values)) == values.last(),
    decreases values.len(),
{
    if values.len() > 0 {
        let before = written_all(layout, region, values.drop_last());
        lemma_written_all(layout, region, values.drop_last());
        lemma_written(layout, before, values.last());
        lemma_bumped(layout.tick(before));
    }
}

/// An observer that was up to date before a run of writes is told of a change
/// by its next poll unless the number of writes is a multiple of 128, the
/// number of values the version counter has.
pub proof fn lemma_writes_are_noticed(layout: LayoutView, region: Seq<u8>, values: Seq<Seq<u8>>)
    requires
        layout.fits(region),
        forall|i: int| 0 <= i < values.len() ==> (#[trigger] values[i]).len() == layout.payload_len,
        !is_closed(layout.tick(region)),
    ensures
        polled(layout.tick(region), layout.tick(written_all(layout, region, values))).0 == Ok::<
            bool,
            Gone,
        >(values.len() % 128 != 0),
{
    lemma_written_all(layout, region, values);
}

/// A closed region stays closed whatever is written to it afterwards: every
/// later poll fails.
pub proof fn lemma_closed_is_terminal(
    layout: LayoutView,
    region: Seq<u8>,
    values: Seq<Seq<u8>>,
    last_seen: u8,
)
    requires
        layout.fits(region),
        forall|i: int| 0 <= i < values.len() ==> (#[trigger] values[i]).len() == layout.payload_len,
        is_closed(layout.tick(region)),
    ensures
        polled(last_seen, layout.tick(written_all(layout, region, values))) == (
            Err::<bool, Gone>(Gone),
            last_seen,
        ),
{
    lemma_written_all(layout, region, values);
}

/// The version counter has 128 values: after 128 writes with no poll
/// between them the tick is what it was, and an observer that was up to date
/// before them is told of no change.
pub proof fn lemma_wraparound(layout: LayoutView, region: Seq<u8>, values: Seq<Seq<u8>>)
    requires
        layout.fits(region),
        values.len() == 128,
        forall|i: int| 0 <= i < values.len() ==> (#[trigger] values[i]).len() == layout.payload_len,
        !is_closed(layout.tick(region)),
    ensures
        layout.tick(written_all(layout, region, values)) == layout.tick(region),
        polled(layout.tick(region), layout.tick(written_all(layout, region, values))).0 == Ok::<
            bool,
            Gone,
        >(false),
{
    lemma_writes_are_noticed(layout, region, values);
    lemma_written_all(layout, region, values);
}

} // verus!
