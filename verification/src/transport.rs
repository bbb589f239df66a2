//! The bit-banged word transport: two GPIO lines (one clock, one
//! bidirectional data line) exchanging 32-bit words with the wireless
//! co-processor, driven here against a simulated line pair so that the
//! wire discipline can be stated and proved.
//!
//! The simulated pair records the full trace of line actions in
//! `events`, the levels the peer latched on each rising clock edge while
//! the host was driving in `peer_seen`, and plays back the levels in
//! `peer_in` when the host samples. Wiring `peer_seen` back into
//! `peer_in` gives a loopback bus.

use crate::bits::{
    bit_at, bits_value, lemma_accumulator_headroom, lemma_loopback_round_trip,
    lemma_words_bits_len, word_at, word_bits, words_bits,
};
use vstd::prelude::*;

verus! {

/// Direction of the shared bidirectional data line, as seen from the host.
#[derive(Clone, Copy, PartialEq, Eq, Structural, Debug)]
pub enum LineDir {
    Output,
    Input,
}

/// One observable action on the simulated line pair.
#[derive(Clone, Copy, PartialEq, Eq, Structural, Debug)]
pub enum BusEvent {
    /// The host drove the clock line low.
    ClockLow,
    /// The host drove the clock line high: the edge on which the peer
    /// samples while the host is driving the data line.
    ClockHigh,
    /// The host set the data line to this level (output mode).
    DataSet(bool),
    /// The host took the data line, switching it to output mode.
    DirOutput,
    /// The host surrendered the data line, switching it to input mode.
    DirInput,
    /// The host sampled this level off the data line (input mode).
    Sample(bool),
}

/// The three line actions that transmit one bit: clock low, set the
/// level, clock high.
pub open spec fn bit_write_events(b: bool) -> Seq<BusEvent> {
    seq![BusEvent::ClockLow, BusEvent::DataSet(b), BusEvent::ClockHigh]
}

/// The line actions of the first `n` bits of a word write.
pub open spec fn word_write_events_upto(w: u32, n: int) -> Seq<BusEvent>
    decreases n,
{
    if n <= 0 {
        Seq::empty()
    } else {
        word_write_events_upto(w, n - 1) + bit_write_events(bit_at(w, n - 1))
    }
}

/// The line actions of one whole word write: 32 bits, most significant
/// first.
pub open spec fn word_write_events(w: u32) -> Seq<BusEvent> {
    word_write_events_upto(w, 32)
}

/// The line actions of writing each word of `ws` in turn.
pub open spec fn words_write_events(ws: Seq<u32>) -> Seq<BusEvent>
    decreases ws.len(),
{
    if ws.len() == 0 {
        Seq::empty()
    } else {
        words_write_events(ws.drop_last()) + word_write_events(ws.last())
    }
}

/// Everything a write does to the line, in order: claim the data line,
/// clock every bit of every word out, then leave the clock low and
/// surrender the data line back to input mode.
pub open spec fn write_events(ws: Seq<u32>) -> Seq<BusEvent> {
    seq![BusEvent::DirOutput] + words_write_events(ws) + seq![
        BusEvent::ClockLow,
        BusEvent::DirInput,
    ]
}

/// The three line actions that receive one bit: sample the level, then
/// pulse the clock high and low.
pub open spec fn bit_read_events(b: bool) -> Seq<BusEvent> {
    seq![BusEvent::Sample(b), BusEvent::ClockHigh, BusEvent::ClockLow]
}

/// The line actions of sampling each of `bits` in turn.
pub open spec fn bits_read_events(bits: Seq<bool>) -> Seq<BusEvent>
    decreases bits.len(),
{
    if bits.len() == 0 {
        Seq::empty()
    } else {
        bits_read_events(bits.drop_last()) + bit_read_events(bits.last())
    }
}

/// Everything a read does to the line: make sure the data line is
/// surrendered, then sample and clock every bit.
pub open spec fn read_events(bits: Seq<bool>) -> Seq<BusEvent> {
    seq![BusEvent::DirInput] + bits_read_events(bits)
}

/// The bit-banged transport over a simulated line pair. `dir`,
/// `clock_high` and `data_level` are the states of the two lines;
/// `peer_in`/`peer_pos` is the level sequence the peer drives while the
/// host samples, `peer_seen` what the peer latched on rising clock edges
/// while the host was driving, and `events` the full trace.
pub struct Transport {
    pub dir: LineDir,
    pub clock_high: bool,
    pub data_level: bool,
    pub peer_in: Vec<bool>,
    pub peer_pos: usize,
    pub peer_seen: Vec<bool>,
    pub events: Vec<BusEvent>,
}

impl Transport {
    /// The idle line discipline: between operations the data line is
    /// always surrendered to the peer (input mode) and the clock rests
    /// low, so the peer may signal asynchronously and the host never
    /// drives the line while the peer might.
    pub open spec fn idle(self) -> bool {
        &&& self.dir == LineDir::Input
        &&& !self.clock_high
        &&& self.peer_pos <= self.peer_in@.len()
    }

    /// A fresh bus with nothing on either line and no history.
    pub fn new() -> (t: Transport)
        ensures
            t.idle(),
            t.peer_in@ == Seq::<bool>::empty(),
            t.peer_pos == 0,
            t.peer_seen@ == Seq::<bool>::empty(),
            t.events@ == Seq::<BusEvent>::empty(),
    {
        Transport {
            dir: LineDir::Input,
            clock_high: false,
            data_level: false,
            peer_in: Vec::new(),
            peer_pos: 0,
            peer_seen: Vec::new(),
            events: Vec::new(),
        }
    }

    /// A fresh bus whose peer will drive the given levels when sampled.
    pub fn with_peer(bits: Vec<bool>) -> (t: Transport)
        ensures
            t.idle(),
            t.peer_in@ == bits@,
            t.peer_pos == 0,
            t.peer_seen@ == Seq::<bool>::empty(),
            t.events@ == Seq::<BusEvent>::empty(),
    {
        Transport {
            dir: LineDir::Input,
            clock_high: false,
            data_level: false,
            peer_in: bits,
            peer_pos: 0,
            peer_seen: Vec::new(),
            events: Vec::new(),
        }
    }

    /// Every operation is synchronous, so a flush has nothing buffered
    /// to push out: the bus is left exactly as it was.
    pub fn flush(&mut self)
        ensures
            *final (self) == *old(self),
    {
    }

    /// Write the words onto the data line. For each word, for each of
    /// its 32 bits from most significant to least: drive the clock low,
    /// set the data line to the bit, drive the clock high (the peer's
    /// sampling edge). After the last bit of the last word, drive the
    /// clock low and switch the data line back to input mode.
    pub fn write(&mut self, words: &Vec<u32>)
        requires
            old(self).idle(),
        ensures
            final (self).idle(),
            final (self).peer_seen@ == old(self).peer_seen@ + words_bits(words@),
            final (self).events@ == old(self).events@ + write_events(words@),
            final (self).peer_in@ == old(self).peer_in@,
            final (self).peer_pos == old(self).peer_pos,
    {
        self.dir = LineDir::Output;
        self.events.push(BusEvent::DirOutput);
        let ghost seen0 = self.peer_seen@;
        let ghost ev0 = self.events@;
        let n = words.len();
        let mut i: usize = 0;
        while i < n
            invariant
                i <= n,
                n == words@.len(),
                self.dir == LineDir::Output,
                self.peer_seen@ == seen0 + words_bits(words@.take(i as int)),
                self.events@ == ev0 + words_write_events(words@.take(i as int)),
                self.peer_in@ == old(self).peer_in@,
                self.peer_pos == old(self).peer_pos,
            decreases n - i,
        {
            let w = words[i];
            let ghost seen_w = self.peer_seen@;
            let ghost ev_w = self.events@;
            let mut j: usize = 0;
            while j < 32
                invariant
                    j <= 32,
                    self.dir == LineDir::Output,
                    self.peer_seen@ == seen_w + word_bits(w).take(j as int),
                    self.events@ == ev_w + word_write_events_upto(w, j as int),
                    self.peer_in@ == old(self).peer_in@,
                    self.peer_pos == old(self).peer_pos,
                decreases 32 - j,
            {
                let ghost pre_seen = self.peer_seen@;
                let ghost pre_ev = self.events@;
                // drive the clock low before presenting the next bit
                self.clock_high = false;
                self.events.push(BusEvent::ClockLow);
                // set the data line to the bit, most significant first
                let shift: u32 = 31 - (j as u32);
                let level = ((w >> shift) & 1) == 1;
                self.data_level = level;
                self.events.push(BusEvent::DataSet(level));
                // the rising edge on which the peer samples the level
                self.clock_high = true;
                self.events.push(BusEvent::ClockHigh);
                self.peer_seen.push(level);
                proof {
                    assert(level == bit_at(w, j as int));
                    assert(word_bits(w).take(j as int + 1) =~= word_bits(w).take(j as int).push(
                        level,
                    ));
                    assert(self.peer_seen@ == seen_w + word_bits(w).take(j as int + 1));
                    assert(word_write_events_upto(w, j as int + 1) == word_write_events_upto(
                        w,
                        j as int,
                    ) + bit_write_events(bit_at(w, j as int)));
                    assert(self.events@ =~= ev_w + word_write_events_upto(w, j as int + 1));
                }
                j += 1;
            }
            proof {
                assert(word_bits(w).take(32) =~= word_bits(w));
                assert(words@.take(i as int + 1).drop_last() =~= words@.take(i as int));
                assert(words@.take(i as int + 1).last() == w);
                assert(words_bits(words@.take(i as int + 1)) == words_bits(words@.take(i as int))
                    + word_bits(w));
                assert(self.peer_seen@ =~= seen0 + words_bits(words@.take(i as int + 1)));
                assert(words_write_events(words@.take(i as int + 1)) == words_write_events(
                    words@.take(i as int),
                ) + word_write_events(w));
                assert(self.events@ =~= ev0 + words_write_events(words@.take(i as int + 1)));
            }
            i += 1;
        }
        // after the last bit: clock low, and the data line goes back to
        // the peer so it can signal asynchronously
        self.clock_high = false;
        self.events.push(BusEvent::ClockLow);
        self.dir = LineDir::Input;
        self.events.push(BusEvent::DirInput);
        proof {
            assert(words@.take(n as int) =~= words@);
            assert(self.peer_seen@ =~= old(self).peer_seen@ + words_bits(words@));
            assert(self.events@ =~= old(self).events@ + write_events(words@));
        }
    }

    /// Read `count` words off the data line. The data line is switched
    /// to input mode, then for each word, for each of 32 bits: sample
    /// the level the peer drives, shift it into the accumulator (most
    /// significant first), and pulse the clock high then low around the
    /// sample.
    pub fn read(&mut self, count: usize) -> (words: Vec<u32>)
        requires
            old(self).idle(),
            old(self).peer_pos + 32 * count <= old(self).peer_in@.len(),
        ensures
            final (self).idle(),
            final (self).peer_pos == old(self).peer_pos + 32 * count,
            final (self).peer_in@ == old(self).peer_in@,
            final (self).peer_seen@ == old(self).peer_seen@,
            words@.len() == count,
            forall|t: int|
                0 <= t < count as int ==> words@[t] as int == word_at(
                    old(self).peer_in@,
                    old(self).peer_pos + 32 * t,
                ),
            final (self).events@ == old(self).events@ + read_events(
                old(self).peer_in@.subrange(
                    old(self).peer_pos as int,
                    old(self).peer_pos + 32 * count,
                ),
            ),
    {
        // the direction is set explicitly before every operation
        self.dir = LineDir::Input;
        self.events.push(BusEvent::DirInput);
        let ghost pos0 = self.peer_pos as int;
        let ghost ev0 = self.events@;
        let mut words: Vec<u32> = Vec::new();
        let mut i: usize = 0;
        while i < count
            invariant
                i <= count,
                self.dir == LineDir::Input,
                !self.clock_high,
                self.peer_in@ == old(self).peer_in@,
                self.peer_seen@ == old(self).peer_seen@,
                pos0 == old(self).peer_pos,
                self.peer_pos as int == pos0 + 32 * (i as int),
                pos0 + 32 * (count as int) <= self.peer_in.len(),
                words@.len() == i,
                forall|t: int|
                    0 <= t < i as int ==> words@[t] as int == word_at(
                        old(self).peer_in@,
                        pos0 + 32 * t,
                    ),
                self.events@ == ev0 + bits_read_events(
                    self.peer_in@.subrange(pos0, pos0 + 32 * (i as int)),
                ),
            decreases count - i,
        {
            let ghost chunk = self.peer_in@.subrange(
                pos0 + 32 * (i as int),
                pos0 + 32 * (i as int) + 32,
            );
            let ghost ev_w = self.events@;
            let mut acc: u32 = 0;
            let mut j: usize = 0;
            while j < 32
                invariant
                    j <= 32,
                    i < count,
                    pos0 == old(self).peer_pos,
                    self.dir == LineDir::Input,
                    !self.clock_high,
                    self.peer_in@ == old(self).peer_in@,
                    self.peer_seen@ == old(self).peer_seen@,
                    pos0 + 32 * (count as int) <= self.peer_in.len(),
                    self.peer_pos as int == pos0 + 32 * (i as int) + j as int,
                    chunk == self.peer_in@.subrange(
                        pos0 + 32 * (i as int),
                        pos0 + 32 * (i as int) + 32,
                    ),
                    acc as int == bits_value(chunk, j as int),
                    self.events@ == ev_w + bits_read_events(chunk.take(j as int)),
                decreases 32 - j,
            {
                // sample the level the peer is driving
                let pos = self.peer_pos;
                let level = self.peer_in[pos];
                self.events.push(BusEvent::Sample(level));
                self.peer_pos = pos + 1;
                // pulse the clock around the sample
                self.clock_high = true;
                self.events.push(BusEvent::ClockHigh);
                self.clock_high = false;
                self.events.push(BusEvent::ClockLow);
                proof {
                    lemma_accumulator_headroom(chunk, j as int);
                    assert(chunk[j as int] == level);
                    assert(chunk.take(j as int + 1).drop_last() =~= chunk.take(j as int));
                    assert(chunk.take(j as int + 1).last() == level);
                    assert(bits_read_events(chunk.take(j as int + 1)) == bits_read_events(
                        chunk.take(j as int),
                    ) + bit_read_events(level));
                    assert(self.events@ =~= ev_w + bits_read_events(chunk.take(j as int + 1)));
                }
                acc = 2 * acc + (if level {
                    1
                } else {
                    0
                });
                j += 1;
            }
            words.push(acc);
            proof {
                assert(chunk.take(32) =~= chunk);
                assert(acc as int == word_at(old(self).peer_in@, pos0 + 32 * (i as int)));
                lemma_bits_read_events_concat(
                    self.peer_in@.subrange(pos0, pos0 + 32 * (i as int)),
                    chunk,
                );
                assert(self.peer_in@.subrange(pos0, pos0 + 32 * (i as int + 1)) =~= self.peer_in@
                    .subrange(pos0, pos0 + 32 * (i as int)) + chunk);
                assert(self.events@ == ev0 + bits_read_events(
                    self.peer_in@.subrange(pos0, pos0 + 32 * (i as int + 1)),
                ));
            }
            i += 1;
        }
        proof {
            assert(self.events@ =~= old(self).events@ + read_events(
                old(self).peer_in@.subrange(pos0, pos0 + 32 * (count as int)),
            ));
        }
        words
    }

    /// Rewire the simulated pair as a loopback: everything the peer
    /// latched while the host was writing will be played back, level for
    /// level, when the host reads.
    pub fn wire_loopback(&mut self)
        ensures
            final (self).peer_in@ == old(self).peer_seen@,
            final (self).peer_pos == 0,
            final (self).peer_seen@ == old(self).peer_seen@,
            final (self).events@ == old(self).events@,
            final (self).dir == old(self).dir,
            final (self).clock_high == old(self).clock_high,
            old(self).idle() ==> final (self).idle(),
    {
        let mut echoed: Vec<bool> = Vec::new();
        let n = self.peer_seen.len();
        let mut i: usize = 0;
        while i < n
            invariant
                i <= n,
                n == self.peer_seen@.len(),
                echoed@ == self.peer_seen@.take(i as int),
            decreases n - i,
        {
            let b = self.peer_seen[i];
            echoed.push(b);
            proof {
                assert(self.peer_seen@.take(i as int + 1) =~= self.peer_seen@.take(i as int).push(
                    b,
                ));
            }
            i += 1;
        }
        proof {
            assert(echoed@ =~= self.peer_seen@);
        }
        self.peer_in = echoed;
        self.peer_pos = 0;
    }

    /// The round trip of the bit transport: writing a word sequence and
    /// then immediately reading the same number of words off a
    /// loopback-wired bus yields the sequence unchanged.
    pub fn loopback_exchange(&mut self, words: &Vec<u32>) -> (echoed: Vec<u32>)
        requires
            old(self).idle(),
            old(self).peer_seen@.len() == 0,
        ensures
            final (self).idle(),
            echoed@ == words@,
    {
        self.write(words);
        self.wire_loopback();
        proof {
            lemma_words_bits_len(words@);
        }
        let echoed = self.read(words.len());
        proof {
            lemma_loopback_round_trip(words@, echoed@);
        }
        echoed
    }
}

/// Sampling a concatenation of level runs produces the concatenation of
/// the two traces.
proof fn lemma_bits_read_events_concat(a: Seq<bool>, b: Seq<bool>)
    ensures
        bits_read_events(a + b) == bits_read_events(a) + bits_read_events(b),
    decreases b.len(),
{
    if b.len() == 0 {
        assert(a + b =~= a);
        assert(bits_read_events(a) + bits_read_events(b) =~= bits_read_events(a));
    } else {
        lemma_bits_read_events_concat(a, b.drop_last());
        assert((a + b).drop_last() =~= a + b.drop_last());
        assert((a + b).last() == b.last());
        assert(bits_read_events(a + b) =~= bits_read_events(a) + bits_read_events(b));
    }
}

/// The levels a trace drives onto the data line, in order.
pub open spec fn data_levels(es: Seq<BusEvent>) -> Seq<bool>
    decreases es.len(),
{
    if es.len() == 0 {
        Seq::empty()
    } else {
        data_levels(es.drop_last()) + (match es.last() {
            BusEvent::DataSet(b) => seq![b],
            _ => Seq::empty(),
        })
    }
}

/// How many rising clock edges a trace contains.
pub open spec fn rising_edges(es: Seq<BusEvent>) -> int
    decreases es.len(),
{
    if es.len() == 0 {
        0
    } else {
        rising_edges(es.drop_last()) + (if es.last() == BusEvent::ClockHigh {
            1int
        } else {
            0int
        })
    }
}

proof fn lemma_trace_concat(a: Seq<BusEvent>, b: Seq<BusEvent>)
    ensures
        data_levels(a + b) == data_levels(a) + data_levels(b),
        rising_edges(a + b) == rising_edges(a) + rising_edges(b),
    decreases b.len(),
{
    if b.len() == 0 {
        assert(a + b =~= a);
        assert(data_levels(a) + data_levels(b) =~= data_levels(a));
    } else {
        lemma_trace_concat(a, b.drop_last());
        assert((a + b).drop_last() =~= a + b.drop_last());
        assert((a + b).last() == b.last());
        assert(data_levels(a + b) =~= data_levels(a) + data_levels(b));
    }
}

proof fn lemma_trace_empty()
    ensures
        data_levels(Seq::<BusEvent>::empty()) == Seq::<bool>::empty(),
        rising_edges(Seq::<BusEvent>::empty()) == 0,
{
}

proof fn lemma_trace_bit_write(b: bool)
    ensures
        data_levels(bit_write_events(b)) == seq![b],
        rising_edges(bit_write_events(b)) == 1,
{
    let e3 = bit_write_events(b);
    let e2 = e3.drop_last();
    let e1 = e2.drop_last();
    lemma_trace_empty();
    assert(e2 =~= seq![BusEvent::ClockLow, BusEvent::DataSet(b)]);
    assert(e1 =~= seq![BusEvent::ClockLow]);
    assert(e1.drop_last() =~= Seq::<BusEvent>::empty());
    assert(e1.last() == BusEvent::ClockLow);
    assert(e2.last() == BusEvent::DataSet(b));
    assert(e3.last() == BusEvent::ClockHigh);
    assert(data_levels(e1) =~= Seq::<bool>::empty());
    assert(rising_edges(e1) == 0);
    assert(data_levels(e2) =~= seq![b]);
    assert(rising_edges(e2) == 0);
    assert(data_levels(e3) =~= seq![b]);
    assert(rising_edges(e3) == 1);
}

proof fn lemma_trace_word_write(w: u32, n: int)
    requires
        0 <= n <= 32,
    ensures
        data_levels(word_write_events_upto(w, n)) == word_bits(w).take(n),
        rising_edges(word_write_events_upto(w, n)) == n,
    decreases n,
{
    if n == 0 {
        assert(word_bits(w).take(0) =~= Seq::<bool>::empty());
    } else {
        lemma_trace_word_write(w, n - 1);
        lemma_trace_concat(word_write_events_upto(w, n - 1), bit_write_events(bit_at(w, n - 1)));
        lemma_trace_bit_write(bit_at(w, n - 1));
        assert(word_bits(w).take(n) =~= word_bits(w).take(n - 1) + seq![bit_at(w, n - 1)]);
    }
}

proof fn lemma_trace_words_write(ws: Seq<u32>)
    ensures
        data_levels(words_write_events(ws)) == words_bits(ws),
        rising_edges(words_write_events(ws)) == 32 * ws.len(),
    decreases ws.len(),
{
    if ws.len() == 0 {
        assert(data_levels(words_write_events(ws)) =~= words_bits(ws));
    } else {
        lemma_trace_words_write(ws.drop_last());
        lemma_trace_concat(words_write_events(ws.drop_last()), word_write_events(ws.last()));
        lemma_trace_word_write(ws.last(), 32);
        assert(word_bits(ws.last()).take(32) =~= word_bits(ws.last()));
    }
}

/// The wire discipline of a write, stated over its trace: the words'
/// bits appear on the data line most significant bit first and nothing
/// else is driven, each word takes exactly 32 rising clock edges, the
/// first thing a write does is claim the data line for output, and the
/// last is to surrender it back to input mode.
pub proof fn lemma_write_wire_discipline(ws: Seq<u32>)
    ensures
        data_levels(write_events(ws)) == words_bits(ws),
        rising_edges(write_events(ws)) == 32 * ws.len(),
        write_events(ws).first() == BusEvent::DirOutput,
        write_events(ws).last() == BusEvent::DirInput,
{
    let head = seq![BusEvent::DirOutput];
    let tail = seq![BusEvent::ClockLow, BusEvent::DirInput];
    lemma_trace_words_write(ws);
    lemma_trace_concat(head, words_write_events(ws));
    lemma_trace_concat(head + words_write_events(ws), tail);
    lemma_trace_empty();
    assert(head.drop_last() =~= Seq::<BusEvent>::empty());
    assert(head.last() == BusEvent::DirOutput);
    assert(data_levels(head) =~= Seq::<bool>::empty());
    assert(rising_edges(head) == 0);
    let t1 = tail.drop_last();
    assert(t1 =~= seq![BusEvent::ClockLow]);
    assert(t1.drop_last() =~= Seq::<BusEvent>::empty());
    assert(t1.last() == BusEvent::ClockLow);
    assert(tail.last() == BusEvent::DirInput);
    assert(data_levels(t1) =~= Seq::<bool>::empty());
    assert(rising_edges(t1) == 0);
    assert(data_levels(tail) =~= Seq::<bool>::empty());
    assert(rising_edges(tail) == 0);
    assert(data_levels(write_events(ws)) =~= words_bits(ws));
    assert(write_events(ws).last() == tail.last());
}

} // verus!
