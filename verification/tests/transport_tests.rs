use pico_notifier::transport::{BusEvent, LineDir, Transport};

#[test]
fn loopback_round_trip_preserves_words() {
    let mut bus = Transport::new();
    let words: Vec<u32> = vec![0xDEAD_BEEF, 0x0000_0001, 0xFFFF_FFFF, 0x1234_5678, 0];
    let echoed = bus.loopback_exchange(&words);
    assert_eq!(echoed, words);
}

#[test]
fn loopback_round_trip_empty_sequence() {
    let mut bus = Transport::new();
    let words: Vec<u32> = vec![];
    let echoed = bus.loopback_exchange(&words);
    assert_eq!(echoed, words);
}

#[test]
fn manual_write_loopback_read() {
    let mut bus = Transport::new();
    let words: Vec<u32> = vec![0x8000_0000, 0x7FFF_FFFF];
    bus.write(&words);
    bus.wire_loopback();
    let echoed = bus.read(2);
    assert_eq!(echoed, words);
}

#[test]
fn write_drives_bits_msb_first() {
    let mut bus = Transport::new();
    let word: u32 = 0xA5C3_0F81;
    bus.write(&vec![word]);
    let mut driven: Vec<bool> = Vec::new();
    for e in bus.events.iter() {
        if let BusEvent::DataSet(level) = e {
            driven.push(*level);
        }
    }
    assert_eq!(driven.len(), 32);
    for i in 0..32usize {
        let expected = (word >> (31 - i as u32)) & 1 == 1;
        assert_eq!(driven[i], expected, "bit {} out of order", i);
    }
    // the peer latched exactly the same levels on the rising edges
    assert_eq!(bus.peer_seen, driven);
}

#[test]
fn write_pulses_clock_exactly_32_times_per_word() {
    let mut bus = Transport::new();
    bus.write(&vec![0x0123_4567, 0x89AB_CDEF, 0xFFFF_0000]);
    let rising = bus
        .events
        .iter()
        .filter(|e| **e == BusEvent::ClockHigh)
        .count();
    assert_eq!(rising, 3 * 32);
}

#[test]
fn data_line_is_input_before_and_after_write() {
    let mut bus = Transport::new();
    assert_eq!(bus.dir, LineDir::Input);
    bus.write(&vec![0xCAFE_F00D]);
    assert_eq!(bus.dir, LineDir::Input);
    assert!(!bus.clock_high);
    // the trace claims the line first and surrenders it last
    assert_eq!(bus.events.first(), Some(&BusEvent::DirOutput));
    assert_eq!(bus.events.last(), Some(&BusEvent::DirInput));
}

#[test]
fn read_assembles_scripted_levels_msb_first() {
    let word: u32 = 0x89AB_CDEF;
    let mut levels: Vec<bool> = Vec::new();
    for i in 0..32u32 {
        levels.push((word >> (31 - i)) & 1 == 1);
    }
    let mut bus = Transport::with_peer(levels);
    let words = bus.read(1);
    assert_eq!(words, vec![word]);
    assert_eq!(bus.dir, LineDir::Input);
}

#[test]
fn flush_changes_nothing() {
    let mut bus = Transport::new();
    bus.write(&vec![42]);
    let events_before = bus.events.len();
    bus.flush();
    assert_eq!(bus.events.len(), events_before);
    assert_eq!(bus.dir, LineDir::Input);
}
