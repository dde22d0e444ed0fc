use ipc_watcher::tick::{Tick, CLOSED, TICK};

#[test]
fn tick_constants_are_the_two_low_bits() {
    assert_eq!(CLOSED, 1);
    assert_eq!(TICK, 2);
}

#[test]
fn from_bits_keeps_the_byte() {
    assert_eq!(Tick::from_bits(0).bits(), 0);
    assert_eq!(Tick::from_bits(0xa5).bits(), 0xa5);
    assert_eq!(Tick::from_bits(255).bits(), 255);
}

#[test]
fn tick_adds_two() {
    let mut t = Tick::from_bits(0);
    t.tick();
    assert_eq!(t.bits(), 2);
    t.tick();
    assert_eq!(t.bits(), 4);
    let mut t = Tick::from_bits(100);
    t.tick();
    assert_eq!(t.bits(), 102);
}

#[test]
fn tick_wraps_at_256() {
    let mut t = Tick::from_bits(254);
    t.tick();
    assert_eq!(t.bits(), 0);
    let mut t = Tick::from_bits(252);
    t.tick();
    assert_eq!(t.bits(), 254);
}

#[test]
fn tick_keeps_a_set_closed_flag() {
    let mut t = Tick::from_bits(7);
    t.tick();
    assert_eq!(t.bits(), 9);
    let mut t = Tick::from_bits(255);
    t.tick();
    assert_eq!(t.bits(), 1);
    assert_eq!(t.try_get(), None);
}

#[test]
fn tick_128_times_comes_back() {
    for start in [0u8, 2, 64, 254] {
        let mut t = Tick::from_bits(start);
        for step in 1..=128u32 {
            t.tick();
            if step < 128 {
                assert_ne!(t.bits(), start);
            }
        }
        assert_eq!(t.bits(), start);
    }
}

#[test]
fn store_overwrites_version_and_flag() {
    let mut t = Tick::from_bits(0x35);
    t.store(0);
    assert_eq!(t.bits(), 0);
    t.store(0xff);
    assert_eq!(t.bits(), 0xff);
    t.store(0x42);
    assert_eq!(t.bits(), 0x42);
    assert_eq!(t.try_get(), Some(0x42));
}

#[test]
fn close_sets_bit_zero_and_keeps_the_version() {
    let mut t = Tick::from_bits(0);
    t.close();
    assert_eq!(t.bits(), 1);
    let mut t = Tick::from_bits(4);
    t.close();
    assert_eq!(t.bits(), 5);
    let mut t = Tick::from_bits(254);
    t.close();
    assert_eq!(t.bits(), 255);
}

#[test]
fn try_get_gives_the_byte_while_open() {
    assert_eq!(Tick::from_bits(0).try_get(), Some(0));
    assert_eq!(Tick::from_bits(2).try_get(), Some(2));
    assert_eq!(Tick::from_bits(254).try_get(), Some(254));
}

#[test]
fn try_get_gives_nothing_once_closed() {
    assert_eq!(Tick::from_bits(1).try_get(), None);
    assert_eq!(Tick::from_bits(3).try_get(), None);
    assert_eq!(Tick::from_bits(255).try_get(), None);
    let mut t = Tick::from_bits(6);
    assert_eq!(t.try_get(), Some(6));
    t.close();
    assert_eq!(t.try_get(), None);
}

#[test]
fn every_byte_is_open_exactly_if_even() {
    for bits in 0..=255u8 {
        let seen = Tick::from_bits(bits).try_get();
        if bits % 2 == 0 {
            assert_eq!(seen, Some(bits));
        } else {
            assert_eq!(seen, None);
        }
    }
}
