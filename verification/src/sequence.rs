//! Sequenced, unreliable-unordered datagram bookkeeping.
//!
//! Each datagram belongs to a sequence named by a [`SequenceKey`] and
//! carries an ordinal drawn from that sequence's monotonic send
//! counter. A receiver keeps, per sequence, the highest ordinal seen
//! so far: a datagram at or above that mark is delivered and raises
//! the mark, one below it is dropped. Only the newest value of each
//! sequence therefore survives, and loss or reordering on one key
//! never affects another.

use vstd::prelude::*;
use vstd::seq_lib::*;
use crate::decoder::Decoder;
use crate::encoder::Encoder;
use crate::entity_id::EntityId;
use crate::error::DecodeError;
use crate::wire::{be_u32, be_u64, lemma_be_u32, lemma_be_u64, lemma_i32_u32_cast, u32_of_be,
    u64_of_be};

verus! {

/// Names one sequence of datagrams. Packets with the same key share a
/// send counter and a receive high-water mark.
#[derive(Copy, Clone, Debug, PartialEq, Eq, Hash, Structural)]
pub enum SequenceKey {
    /// Position updates for one entity.
    EntityPosition(EntityId),
    /// Velocity updates for one entity.
    EntityVelocity(EntityId),
    /// The player's own serverbound position updates.
    ThePlayerPosition,
}

impl SequenceKey {
    /// The wire tag of this key.
    pub open spec fn spec_tag(&self) -> u8 {
        match self {
            SequenceKey::EntityPosition(_) => 0,
            SequenceKey::EntityVelocity(_) => 1,
            SequenceKey::ThePlayerPosition => 2,
        }
    }

    /// The entity id this key carries, zero for the player sequence.
    pub open spec fn spec_id(&self) -> i32 {
        match self {
            SequenceKey::EntityPosition(e) => e.0,
            SequenceKey::EntityVelocity(e) => e.0,
            SequenceKey::ThePlayerPosition => 0,
        }
    }
}

/// One sequence's counters: how many datagrams were sent, and the
/// highest ordinal received.
#[derive(Copy, Clone, Debug, PartialEq, Eq, Structural)]
pub struct Sequence {
    send_counter: u64,
    newest_received: u64,
}

impl Sequence {
    /// The ordinal the next sent datagram will carry.
    pub closed spec fn spec_send_counter(&self) -> u64 {
        self.send_counter
    }

    /// The highest ordinal received so far.
    pub closed spec fn spec_newest_received(&self) -> u64 {
        self.newest_received
    }

    /// A fresh sequence: both counters at zero.
    pub fn new() -> (r: Sequence)
        ensures
            r.spec_send_counter() == 0,
            r.spec_newest_received() == 0,
    {
        Sequence { send_counter: 0, newest_received: 0 }
    }

    /// Draws the next send ordinal, stepping the counter (wrapping).
    pub fn next_send_ordinal(&mut self) -> (r: u64)
        ensures
            r == old(self).spec_send_counter(),
            final(self).spec_send_counter() == if r == 0xffffffffffffffffu64 {
                0u64
            } else {
                (r + 1) as u64
            },
            final(self).spec_newest_received() == old(self).spec_newest_received(),
    {
        let ordinal = self.send_counter;
        self.send_counter = ordinal.wrapping_add(1);
        ordinal
    }

    /// Judges a received ordinal: delivered, raising the high-water
    /// mark, exactly when it is at or above the mark.
    pub fn receive_packet(&mut self, packet_ordinal: u64) -> (r: bool)
        ensures
            r == (packet_ordinal >= old(self).spec_newest_received()),
            final(self).spec_newest_received() == if r {
                packet_ordinal
            } else {
                old(self).spec_newest_received()
            },
            final(self).spec_send_counter() == old(self).spec_send_counter(),
    {
        if packet_ordinal >= self.newest_received {
            self.newest_received = packet_ordinal;
            true
        } else {
            false
        }
    }
}

/// The newest entry for `key`, scanning entries youngest-first.
pub open spec fn spec_seq_lookup(s: Seq<(SequenceKey, Sequence)>, key: SequenceKey) -> Option<
    Sequence,
>
    decreases s.len(),
{
    if s.len() == 0 {
        None
    } else if s.last().0 == key {
        Some(s.last().1)
    } else {
        spec_seq_lookup(s.drop_last(), key)
    }
}

/// The per-key sequence states of one side of a connection. Sequences
/// are created lazily on first use; the caller may evict an idle one,
/// which resets it on its next use.
pub struct SequenceTable {
    sequences: Vec<(SequenceKey, Sequence)>,
}

impl SequenceTable {
    /// The sequence state held for `key`, if one exists.
    pub closed spec fn lookup(&self, key: SequenceKey) -> Option<Sequence> {
        spec_seq_lookup(self.sequences@, key)
    }

    /// The high-water mark for `key`: zero before any datagram.
    pub open spec fn high_water(&self, key: SequenceKey) -> u64 {
        match self.lookup(key) {
            Some(s) => s.spec_newest_received(),
            None => 0,
        }
    }

    /// The send counter for `key`: zero before any datagram.
    pub open spec fn send_counter(&self, key: SequenceKey) -> u64 {
        match self.lookup(key) {
            Some(s) => s.spec_send_counter(),
            None => 0,
        }
    }

    /// Creates an empty table.
    pub fn new() -> (r: SequenceTable)
        ensures
            forall|k: SequenceKey| r.lookup(k) is None,
    {
        SequenceTable { sequences: Vec::new() }
    }

    /// The current state for `key`, if any.
    fn find(&self, key: SequenceKey) -> (r: Option<Sequence>)
        ensures
            r == self.lookup(key),
    {
        let mut i: usize = self.sequences.len();
        proof {
            assert_seqs_equal!(self.sequences@.take(i as int) == self.sequences@);
        }
        while i > 0
            invariant
                i <= self.sequences@.len(),
                spec_seq_lookup(self.sequences@.take(i as int), key) == self.lookup(key),
            decreases i,
        {
            i = i - 1;
            let entry = &self.sequences[i];
            proof {
                assert(self.sequences@.take(i as int + 1).last() == self.sequences@[i as int]);
                assert_seqs_equal!(
                    self.sequences@.take(i as int + 1).drop_last()
                        == self.sequences@.take(i as int)
                );
            }
            if entry.0 == key {
                return Some(entry.1);
            }
        }
        None
    }

    /// Stores `state` for `key`, dropping any older entry.
    fn put(&mut self, key: SequenceKey, state: Sequence)
        ensures
            final(self).lookup(key) == Some(state),
            forall|k: SequenceKey| k != key ==> final(self).lookup(k) == old(self).lookup(k),
    {
        self.evict(key);
        let ghost before = self.sequences@;
        self.sequences.push((key, state));
        proof {
            assert_seqs_equal!(self.sequences@.drop_last() == before);
        }
    }

    /// Drops the state for `key`, as the idle timer does; the key's
    /// counters restart from zero on next use.
    pub fn evict(&mut self, key: SequenceKey)
        ensures
            final(self).lookup(key) is None,
            forall|k: SequenceKey| k != key ==> final(self).lookup(k) == old(self).lookup(k),
    {
        let n = self.sequences.len();
        let mut kept: Vec<(SequenceKey, Sequence)> = Vec::new();
        let mut i: usize = 0;
        while i < n
            invariant
                i <= n,
                n == self.sequences@.len(),
                old(self) == self,
                spec_seq_lookup(kept@, key) is None,
                forall|k: SequenceKey|
                    k != key ==> #[trigger] spec_seq_lookup(kept@, k) == spec_seq_lookup(
                        self.sequences@.take(i as int),
                        k,
                    ),
            decreases n - i,
        {
            let entry = self.sequences[i];
            let ghost prevkept = kept@;
            let ghost oldi = i as int;
            if entry.0 != key {
                kept.push(entry);
            }
            i = i + 1;
            proof {
                let full = self.sequences@;
                assert(full.take(oldi + 1).last() == full[oldi]);
                assert_seqs_equal!(full.take(oldi + 1).drop_last() == full.take(oldi));
                if entry.0 != key {
                    assert(kept@.last() == entry);
                    assert_seqs_equal!(kept@.drop_last() == prevkept);
                }
                assert forall|k: SequenceKey| k != key implies #[trigger] spec_seq_lookup(
                    kept@,
                    k,
                ) == spec_seq_lookup(full.take(oldi + 1), k) by {
                    if entry.0 != key && k != entry.0 {
                        assert(spec_seq_lookup(kept@, k) == spec_seq_lookup(prevkept, k));
                        assert(spec_seq_lookup(full.take(oldi + 1), k) == spec_seq_lookup(
                            full.take(oldi),
                            k,
                        ));
                    }
                    if entry.0 == key {
                        assert(spec_seq_lookup(full.take(oldi + 1), k) == spec_seq_lookup(
                            full.take(oldi),
                            k,
                        ));
                    }
                }
            }
        }
        proof {
            assert_seqs_equal!(self.sequences@.take(n as int) == self.sequences@);
        }
        self.sequences = kept;
    }

    /// Draws the next ordinal to send on `key`, creating the sequence
    /// on first use. Only `key`'s state changes.
    pub fn next_send_ordinal(&mut self, key: SequenceKey) -> (r: u64)
        ensures
            r == old(self).send_counter(key),
            final(self).send_counter(key) == if r == 0xffffffffffffffffu64 {
                0u64
            } else {
                (r + 1) as u64
            },
            final(self).high_water(key) == old(self).high_water(key),
            forall|k: SequenceKey| k != key ==> final(self).lookup(k) == old(self).lookup(k),
    {
        let mut state = match self.find(key) {
            Some(s) => s,
            None => Sequence::new(),
        };
        let ordinal = state.next_send_ordinal();
        self.put(key, state);
        ordinal
    }

    /// Judges a received ordinal on `key`, creating the sequence on
    /// first use: delivered, raising the high-water mark, exactly when
    /// it is at or above the mark. Only `key`'s state changes.
    pub fn receive_packet(&mut self, key: SequenceKey, ordinal: u64) -> (r: bool)
        ensures
            r == (ordinal >= old(self).high_water(key)),
            final(self).high_water(key) == if r {
                ordinal
            } else {
                old(self).high_water(key)
            },
            final(self).send_counter(key) == old(self).send_counter(key),
            forall|k: SequenceKey| k != key ==> final(self).lookup(k) == old(self).lookup(k),
    {
        let mut state = match self.find(key) {
            Some(s) => s,
            None => Sequence::new(),
        };
        let keep = state.receive_packet(ordinal);
        self.put(key, state);
        keep
    }
}

/// The wire form of a datagram: a key tag byte, the key's entity id,
/// the ordinal, then the packet body.
pub open spec fn datagram_wire(key: SequenceKey, ordinal: u64, body: Seq<u8>) -> Seq<u8> {
    seq![key.spec_tag()] + be_u32(key.spec_id() as u32) + be_u64(ordinal) + body
}

/// What a reader makes of a datagram: its key, ordinal and body.
pub open spec fn parse_datagram(s: Seq<u8>) -> Option<(SequenceKey, u64, Seq<u8>)> {
    if s.len() < 13 {
        None
    } else {
        let tag = s[0];
        let id = u32_of_be(s.subrange(1, 5)) as i32;
        let ordinal = u64_of_be(s.subrange(5, 13));
        let body = s.skip(13);
        if tag == 0 {
            Some((SequenceKey::EntityPosition(EntityId(id)), ordinal, body))
        } else if tag == 1 {
            Some((SequenceKey::EntityVelocity(EntityId(id)), ordinal, body))
        } else if tag == 2 {
            Some((SequenceKey::ThePlayerPosition, ordinal, body))
        } else {
            None
        }
    }
}

/// Frames a packet body as a datagram for `key` with the given
/// ordinal.
pub fn encode_datagram(key: SequenceKey, ordinal: u64, body: &[u8]) -> (r: Vec<u8>)
    ensures
        r@ == datagram_wire(key, ordinal, body@),
{
    let mut enc = Encoder::new();
    let tag: u8 = match key {
        SequenceKey::EntityPosition(_) => 0,
        SequenceKey::EntityVelocity(_) => 1,
        SequenceKey::ThePlayerPosition => 2,
    };
    let id: i32 = match key {
        SequenceKey::EntityPosition(e) => e.as_i32(),
        SequenceKey::EntityVelocity(e) => e.as_i32(),
        SequenceKey::ThePlayerPosition => 0,
    };
    enc.write_u8(tag);
    enc.write_i32(id);
    enc.write_u64(ordinal);
    enc.write_slice(body);
    let out = enc.into_bytes();
    proof {
        assert_seqs_equal!(out@ == datagram_wire(key, ordinal, body@));
    }
    out
}

/// Splits a datagram into its key, ordinal and body.
pub fn decode_datagram(bytes: &[u8]) -> (r: Result<(SequenceKey, u64, Vec<u8>), DecodeError>)
    ensures
        match r {
            Ok((key, ordinal, body)) => parse_datagram(bytes@) == Some((key, ordinal, body@)),
            Err(_) => parse_datagram(bytes@) is None,
        },
{
    let mut dec = Decoder::new(bytes);
    let tag = dec.read_u8()?;
    let id = dec.read_i32()?;
    let ordinal = dec.read_u64()?;
    let body = dec.read_rest();
    proof {
        assert_seqs_equal!(bytes@.skip(1).take(4) == bytes@.subrange(1, 5));
        assert_seqs_equal!(bytes@.skip(1).skip(4).take(8) == bytes@.subrange(5, 13));
        assert_seqs_equal!(bytes@.skip(1).skip(4).skip(8) == bytes@.skip(13));
    }
    let key = if tag == 0 {
        SequenceKey::EntityPosition(EntityId::new(id))
    } else if tag == 1 {
        SequenceKey::EntityVelocity(EntityId::new(id))
    } else if tag == 2 {
        SequenceKey::ThePlayerPosition
    } else {
        return Err(DecodeError::UnknownDiscriminant(tag as i64));
    };
    Ok((key, ordinal, body))
}

/// A framed datagram parses back to what was framed, except that the
/// player sequence does not keep an entity id.
pub proof fn lemma_datagram_round_trip(key: SequenceKey, ordinal: u64, body: Seq<u8>)
    ensures
        parse_datagram(datagram_wire(key, ordinal, body)) == Some((key, ordinal, body)),
{
    let s = datagram_wire(key, ordinal, body);
    lemma_be_u32(key.spec_id() as u32);
    lemma_be_u64(ordinal);
    lemma_i32_u32_cast(key.spec_id());
    assert_seqs_equal!(s.subrange(1, 5) == be_u32(key.spec_id() as u32));
    assert_seqs_equal!(s.subrange(5, 13) == be_u64(ordinal));
    assert_seqs_equal!(s.skip(13) == body);
    assert(s[0] == key.spec_tag());
}

/// The ordinals a receiver delivers, given its current high-water mark
/// and the arrival order of the sent ordinals.
pub open spec fn delivered_ordinals(mark: u64, arrivals: Seq<u64>) -> Seq<u64>
    decreases arrivals.len(),
{
    if arrivals.len() == 0 {
        Seq::empty()
    } else {
        let o = arrivals[0];
        if o >= mark {
            seq![o] + delivered_ordinals(o, arrivals.skip(1))
        } else {
            delivered_ordinals(mark, arrivals.skip(1))
        }
    }
}

/// Whatever order datagrams arrive in, the delivered ordinals never
/// decrease, and none falls below the starting mark: delivery is
/// last-writer-wins.
pub proof fn lemma_delivery_monotone(mark: u64, arrivals: Seq<u64>)
    ensures
        forall|i: int|
            0 <= i < delivered_ordinals(mark, arrivals).len() ==> mark <= #[trigger]
            delivered_ordinals(mark, arrivals)[i],
        forall|i: int, j: int|
            0 <= i <= j < delivered_ordinals(mark, arrivals).len() ==> delivered_ordinals(
                mark,
                arrivals,
            )[i] <= delivered_ordinals(mark, arrivals)[j],
    decreases arrivals.len(),
{
    if arrivals.len() > 0 {
        let o = arrivals[0];
        let whole = delivered_ordinals(mark, arrivals);
        if o >= mark {
            lemma_delivery_monotone(o, arrivals.skip(1));
            let tail = delivered_ordinals(o, arrivals.skip(1));
            assert(whole == seq![o] + tail);
            assert(forall|i: int| 1 <= i < whole.len() ==> whole[i] == tail[i - 1]);
            assert forall|i: int| 0 <= i < whole.len() implies mark <= whole[i] by {
                if i >= 1 {
                    assert(o <= tail[i - 1]);
                }
            }
            assert forall|i: int, j: int| 0 <= i <= j < whole.len() implies whole[i]
                <= whole[j] by {
                if i == 0 && j >= 1 {
                    assert(o <= tail[j - 1]);
                } else if i >= 1 {
                    assert(tail[i - 1] <= tail[j - 1]);
                }
            }
        } else {
            lemma_delivery_monotone(mark, arrivals.skip(1));
            assert(whole == delivered_ordinals(mark, arrivals.skip(1)));
        }
    }
}

} // verus!
