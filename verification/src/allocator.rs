//! The Play-state stream allocation policy.
//!
//! QUIC only removes head-of-line blocking between streams, so the
//! point of the proxy is to give each independently-ordered family of
//! packets its own stream: the chat log, bulk chunk data, one stream
//! per entity, one per chunk, a fresh one-shot stream for every
//! keep-alive, and a shared stream for the rest. Entity motion does
//! not ride a stream at all: it goes to an unreliable sequence, where
//! only the newest value matters.
//!
//! Stream handles are modelled by [`StreamId`]: keyed streams carry a
//! generation number so that idle eviction, driven by the caller,
//! visibly ends one stream's identity and starts another.

use vstd::prelude::*;
use vstd::seq_lib::*;
use crate::entity_id::EntityId;
use crate::packet::client;
use crate::packet::server;
use crate::position::ChunkPosition;
use crate::sequence::SequenceKey;

verus! {

/// The identity of one outgoing QUIC stream.
#[derive(Copy, Clone, Debug, PartialEq, Eq, Hash, Structural)]
pub enum StreamId {
    /// The shared chat stream.
    Chat,
    /// The shared bulk chunk-data stream.
    Chunks,
    /// The shared miscellaneous stream.
    Misc,
    /// A one-shot stream, never reused; the counter makes it unique.
    Fresh(u64),
    /// The dedicated stream of one entity, in its given generation.
    Entity(i32, u64),
    /// The dedicated stream of one chunk, in its given generation.
    BlockChunk(ChunkPosition, u64),
}

/// Where one packet travels: a stream, or an unreliable sequence.
#[derive(Copy, Clone, Debug, PartialEq, Eq, Hash, Structural)]
pub enum Allocation {
    /// Send on the given stream: reliable, ordered within the stream.
    Stream(StreamId),
    /// Send as a datagram with an ordinal from the given sequence:
    /// unreliable and unordered.
    UnreliableSequence(SequenceKey),
}

/// Chat-family packets: everything that must stay ordered with the
/// chat log.
pub open spec fn server_chat_family(p: server::play::Packet) -> bool {
    match p {
        server::play::Packet::ChatSuggestions(_) => true,
        server::play::Packet::DisguisedChatMessage(_) => true,
        server::play::Packet::PlayerChatMessage(_) => true,
        server::play::Packet::SystemChatMessage(_) => true,
        server::play::Packet::BossBar(_) => true,
        server::play::Packet::ClearTitles(_) => true,
        server::play::Packet::CommandSuggestions(_) => true,
        server::play::Packet::DeleteMessage(_) => true,
        server::play::Packet::SetActionBarText(_) => true,
        server::play::Packet::SetSubtitleText(_) => true,
        server::play::Packet::SetTitleText(_) => true,
        server::play::Packet::SetTitleAnimationTimes(_) => true,
        _ => false,
    }
}

/// Ephemeral packets that want reliability but no ordering: each gets
/// a fresh one-shot stream.
pub open spec fn server_oneshot_family(p: server::play::Packet) -> bool {
    match p {
        server::play::Packet::Particle(_) => true,
        server::play::Packet::Explosion(_) => true,
        server::play::Packet::SoundEffect(_) => true,
        server::play::Packet::StopSound(_) => true,
        server::play::Packet::SetHealth(_) => true,
        server::play::Packet::KeepAlive(_) => true,
        server::play::Packet::Ping(_) => true,
        server::play::Packet::PingResponse(_) => true,
        _ => false,
    }
}

/// Bulk chunk-volume packets, kept ordered on the shared chunk stream.
pub open spec fn server_chunk_family(p: server::play::Packet) -> bool {
    match p {
        server::play::Packet::UnloadChunk(_) => true,
        server::play::Packet::ChunkAndLightData(_) => true,
        server::play::Packet::UpdateLight(_) => true,
        server::play::Packet::ChunkBatchFinished(_) => true,
        server::play::Packet::ChunkBatchStart(_) => true,
        server::play::Packet::ChunkBiomes(_) => true,
        _ => false,
    }
}

/// The chunk key of a block-update packet, routed to that chunk's own
/// stream.
pub open spec fn server_chunk_key(p: server::play::Packet) -> Option<ChunkPosition> {
    match p {
        server::play::Packet::UpdateSectionBlocks(x) => Some(
            ChunkPosition {
                x: (x.chunk_section_position >> 42) as i32,
                z: ((x.chunk_section_position << 22) >> 42) as i32,
            },
        ),
        server::play::Packet::BlockUpdate(x) => Some(
            ChunkPosition {
                x: (x.position.x as int / 16) as i32,
                z: (x.position.z as int / 16) as i32,
            },
        ),
        _ => None,
    }
}

/// The entity id of a packet routed to that entity's own stream. A
/// `RemoveEntities` with exactly one id routes to that entity; with
/// more it falls through to the shared stream.
pub open spec fn server_entity_key(p: server::play::Packet) -> Option<i32> {
    match p {
        server::play::Packet::EntityAnimation(x) => Some(x.entity_id),
        server::play::Packet::EntityEvent(x) => Some(x.entity_id),
        server::play::Packet::HurtAnimation(x) => Some(x.entity_id),
        server::play::Packet::SetHeadRotation(x) => Some(x.entity_id),
        server::play::Packet::EntityEffect(x) => Some(x.entity_id),
        server::play::Packet::DamageEvent(x) => Some(x.entity_id),
        server::play::Packet::RemoveEntities(x) => if x.entities@.len() == 1 {
            Some(x.entities@[0])
        } else {
            None
        },
        _ => None,
    }
}

/// The sequence key of a motion or velocity packet; these never ride
/// a stream.
pub open spec fn server_sequence_key(p: server::play::Packet) -> Option<SequenceKey> {
    match p {
        server::play::Packet::UpdateEntityRotation(x) => Some(
            SequenceKey::EntityPosition(EntityId(x.entity_id)),
        ),
        server::play::Packet::UpdateEntityPositionAndRotation(x) => Some(
            SequenceKey::EntityPosition(EntityId(x.entity_id)),
        ),
        server::play::Packet::UpdateEntityPosition(x) => Some(
            SequenceKey::EntityPosition(EntityId(x.entity_id)),
        ),
        server::play::Packet::TeleportEntity(x) => Some(
            SequenceKey::EntityPosition(EntityId(x.entity_id)),
        ),
        server::play::Packet::SetEntityVelocity(x) => Some(
            SequenceKey::EntityVelocity(EntityId(x.entity_id)),
        ),
        _ => None,
    }
}

/// Chat-family packets of the client: ordered with the chat log.
pub open spec fn client_chat_family(p: client::play::Packet) -> bool {
    match p {
        client::play::Packet::ChatCommand(_) => true,
        client::play::Packet::ChatMessage(_) => true,
        client::play::Packet::AcknowledgeMessage(_) => true,
        _ => false,
    }
}

/// Keep-alive-class packets of the client: each gets a fresh stream.
pub open spec fn client_oneshot_family(p: client::play::Packet) -> bool {
    match p {
        client::play::Packet::KeepAlive(_) => true,
        client::play::Packet::PingRequest(_) => true,
        client::play::Packet::Pong(_) => true,
        _ => false,
    }
}

/// The newest generation entry for a key.
pub open spec fn spec_gen_lookup<K>(s: Seq<(K, u64)>, key: K) -> Option<u64>
    decreases s.len(),
{
    if s.len() == 0 {
        None
    } else if s.last().0 == key {
        Some(s.last().1)
    } else {
        spec_gen_lookup(s.drop_last(), key)
    }
}

/// Decides, per outgoing Play packet, which stream or sequence
/// carries it.
pub struct StreamAllocator {
    next_fresh: u64,
    entity_gens: Vec<(i32, u64)>,
    chunk_gens: Vec<(ChunkPosition, u64)>,
}

impl StreamAllocator {
    /// The counter naming the next one-shot stream.
    pub closed spec fn fresh_counter(&self) -> u64 {
        self.next_fresh
    }

    /// The current generation of an entity's dedicated stream.
    pub closed spec fn entity_gen(&self, id: i32) -> u64 {
        match spec_gen_lookup(self.entity_gens@, id) {
            Some(g) => g,
            None => 0,
        }
    }

    /// The current generation of a chunk's dedicated stream.
    pub closed spec fn chunk_gen(&self, c: ChunkPosition) -> u64 {
        match spec_gen_lookup(self.chunk_gens@, c) {
            Some(g) => g,
            None => 0,
        }
    }

    /// The allocation policy for server-to-client Play packets.
    pub open spec fn spec_allocate_server(&self, p: server::play::Packet) -> Allocation {
        if server_chat_family(p) {
            Allocation::Stream(StreamId::Chat)
        } else if server_oneshot_family(p) {
            Allocation::Stream(StreamId::Fresh(self.fresh_counter()))
        } else if server_chunk_family(p) {
            Allocation::Stream(StreamId::Chunks)
        } else if server_chunk_key(p) is Some {
            let c = server_chunk_key(p)->0;
            Allocation::Stream(StreamId::BlockChunk(c, self.chunk_gen(c)))
        } else if server_entity_key(p) is Some {
            let id = server_entity_key(p)->0;
            Allocation::Stream(StreamId::Entity(id, self.entity_gen(id)))
        } else if server_sequence_key(p) is Some {
            Allocation::UnreliableSequence(server_sequence_key(p)->0)
        } else {
            Allocation::Stream(StreamId::Misc)
        }
    }

    /// The allocation policy for client-to-server Play packets.
    pub open spec fn spec_allocate_client(&self, p: client::play::Packet) -> Allocation {
        if client_chat_family(p) {
            Allocation::Stream(StreamId::Chat)
        } else if client_oneshot_family(p) {
            Allocation::Stream(StreamId::Fresh(self.fresh_counter()))
        } else {
            Allocation::Stream(StreamId::Misc)
        }
    }

    /// Creates an allocator; the three shared streams exist from the
    /// start, keyed streams appear on first use.
    pub fn new() -> (r: StreamAllocator)
        ensures
            r.fresh_counter() == 0,
            forall|id: i32| r.entity_gen(id) == 0,
            forall|c: ChunkPosition| r.chunk_gen(c) == 0,
    {
        StreamAllocator { next_fresh: 0, entity_gens: Vec::new(), chunk_gens: Vec::new() }
    }

    /// Allocates a stream or sequence for one server-to-client Play
    /// packet. Only the one-shot counter may change, and only when a
    /// one-shot stream was handed out.
    pub fn allocate_stream_for_server(&mut self, p: &server::play::Packet) -> (r: Allocation)
        ensures
            r == old(self).spec_allocate_server(*p),
            forall|id: i32| final(self).entity_gen(id) == old(self).entity_gen(id),
            forall|c: ChunkPosition| final(self).chunk_gen(c) == old(self).chunk_gen(c),
            final(self).fresh_counter() == if server_oneshot_family(*p) {
                if old(self).fresh_counter() == 0xffffffffffffffffu64 {
                    0u64
                } else {
                    (old(self).fresh_counter() + 1) as u64
                }
            } else {
                old(self).fresh_counter()
            },
    {
        match p {
            server::play::Packet::ChatSuggestions(_) | server::play::Packet::DisguisedChatMessage(
                _,
            ) | server::play::Packet::PlayerChatMessage(_) | server::play::Packet::SystemChatMessage(
                _,
            ) | server::play::Packet::BossBar(_) | server::play::Packet::ClearTitles(_)
                | server::play::Packet::CommandSuggestions(_) | server::play::Packet::DeleteMessage(
                _,
            ) | server::play::Packet::SetActionBarText(_) | server::play::Packet::SetSubtitleText(
                _,
            ) | server::play::Packet::SetTitleText(_)
                | server::play::Packet::SetTitleAnimationTimes(_) => Allocation::Stream(
                StreamId::Chat,
            ),
            server::play::Packet::Particle(_) | server::play::Packet::Explosion(_)
                | server::play::Packet::SoundEffect(_) | server::play::Packet::StopSound(_)
                | server::play::Packet::SetHealth(_) | server::play::Packet::KeepAlive(_)
                | server::play::Packet::Ping(_) | server::play::Packet::PingResponse(_) => self
                .fresh_stream(),
            server::play::Packet::UnloadChunk(_) | server::play::Packet::ChunkAndLightData(_)
                | server::play::Packet::UpdateLight(_) | server::play::Packet::ChunkBatchFinished(
                _,
            ) | server::play::Packet::ChunkBatchStart(_) | server::play::Packet::ChunkBiomes(_)
                => Allocation::Stream(StreamId::Chunks),
            server::play::Packet::UpdateSectionBlocks(x) => {
                let c = crate::position::unpack_section_chunk(x.chunk_section_position);
                Allocation::Stream(StreamId::BlockChunk(c, self.chunk_gen_of(c)))
            },
            server::play::Packet::BlockUpdate(x) => {
                let c = x.position.chunk();
                Allocation::Stream(StreamId::BlockChunk(c, self.chunk_gen_of(c)))
            },
            server::play::Packet::EntityAnimation(x) => {
                Allocation::Stream(StreamId::Entity(x.entity_id, self.entity_gen_of(x.entity_id)))
            },
            server::play::Packet::EntityEvent(x) => {
                Allocation::Stream(StreamId::Entity(x.entity_id, self.entity_gen_of(x.entity_id)))
            },
            server::play::Packet::HurtAnimation(x) => {
                Allocation::Stream(StreamId::Entity(x.entity_id, self.entity_gen_of(x.entity_id)))
            },
            server::play::Packet::SetHeadRotation(x) => {
                Allocation::Stream(StreamId::Entity(x.entity_id, self.entity_gen_of(x.entity_id)))
            },
            server::play::Packet::EntityEffect(x) => {
                Allocation::Stream(StreamId::Entity(x.entity_id, self.entity_gen_of(x.entity_id)))
            },
            server::play::Packet::DamageEvent(x) => {
                Allocation::Stream(StreamId::Entity(x.entity_id, self.entity_gen_of(x.entity_id)))
            },
            server::play::Packet::RemoveEntities(x) => {
                if x.entities.len() == 1 {
                    let id = x.entities[0];
                    Allocation::Stream(StreamId::Entity(id, self.entity_gen_of(id)))
                } else {
                    Allocation::Stream(StreamId::Misc)
                }
            },
            server::play::Packet::UpdateEntityRotation(x) => Allocation::UnreliableSequence(
                SequenceKey::EntityPosition(EntityId::new(x.entity_id)),
            ),
            server::play::Packet::UpdateEntityPositionAndRotation(x) => Allocation::UnreliableSequence(
                SequenceKey::EntityPosition(EntityId::new(x.entity_id)),
            ),
            server::play::Packet::UpdateEntityPosition(x) => Allocation::UnreliableSequence(
                SequenceKey::EntityPosition(EntityId::new(x.entity_id)),
            ),
            server::play::Packet::TeleportEntity(x) => Allocation::UnreliableSequence(
                SequenceKey::EntityPosition(EntityId::new(x.entity_id)),
            ),
            server::play::Packet::SetEntityVelocity(x) => Allocation::UnreliableSequence(
                SequenceKey::EntityVelocity(EntityId::new(x.entity_id)),
            ),
            _ => Allocation::Stream(StreamId::Misc),
        }
    }

    /// Allocates a stream for one client-to-server Play packet.
    pub fn allocate_stream_for_client(&mut self, p: &client::play::Packet) -> (r: Allocation)
        ensures
            r == old(self).spec_allocate_client(*p),
            forall|id: i32| final(self).entity_gen(id) == old(self).entity_gen(id),
            forall|c: ChunkPosition| final(self).chunk_gen(c) == old(self).chunk_gen(c),
            final(self).fresh_counter() == if client_oneshot_family(*p) {
                if old(self).fresh_counter() == 0xffffffffffffffffu64 {
                    0u64
                } else {
                    (old(self).fresh_counter() + 1) as u64
                }
            } else {
                old(self).fresh_counter()
            },
    {
        match p {
            client::play::Packet::ChatCommand(_) | client::play::Packet::ChatMessage(_)
                | client::play::Packet::AcknowledgeMessage(_) => Allocation::Stream(
                StreamId::Chat,
            ),
            client::play::Packet::KeepAlive(_) | client::play::Packet::PingRequest(_)
                | client::play::Packet::Pong(_) => self.fresh_stream(),
            _ => Allocation::Stream(StreamId::Misc),
        }
    }

    /// Hands out a fresh one-shot stream and steps the counter.
    fn fresh_stream(&mut self) -> (r: Allocation)
        ensures
            r == Allocation::Stream(StreamId::Fresh(old(self).fresh_counter())),
            final(self).fresh_counter() == if old(self).fresh_counter() == 0xffffffffffffffffu64 {
                0u64
            } else {
                (old(self).fresh_counter() + 1) as u64
            },
            final(self).entity_gens == old(self).entity_gens,
            final(self).chunk_gens == old(self).chunk_gens,
    {
        let id = self.next_fresh;
        self.next_fresh = id.wrapping_add(1);
        Allocation::Stream(StreamId::Fresh(id))
    }

    /// The current generation of an entity's stream.
    fn entity_gen_of(&self, id: i32) -> (r: u64)
        ensures
            r == self.entity_gen(id),
    {
        let mut i: usize = self.entity_gens.len();
        proof {
            assert_seqs_equal!(self.entity_gens@.take(i as int) == self.entity_gens@);
        }
        while i > 0
            invariant
                i <= self.entity_gens@.len(),
                spec_gen_lookup(self.entity_gens@.take(i as int), id) == spec_gen_lookup(
                    self.entity_gens@,
                    id,
                ),
            decreases i,
        {
            i = i - 1;
            let entry = &self.entity_gens[i];
            proof {
                assert(self.entity_gens@.take(i as int + 1).last() == self.entity_gens@[i as int]);
                assert_seqs_equal!(
                    self.entity_gens@.take(i as int + 1).drop_last()
                        == self.entity_gens@.take(i as int)
                );
            }
            if entry.0 == id {
                return entry.1;
            }
        }
        0
    }

    /// The current generation of a chunk's stream.
    fn chunk_gen_of(&self, c: ChunkPosition) -> (r: u64)
        ensures
            r == self.chunk_gen(c),
    {
        let mut i: usize = self.chunk_gens.len();
        proof {
            assert_seqs_equal!(self.chunk_gens@.take(i as int) == self.chunk_gens@);
        }
        while i > 0
            invariant
                i <= self.chunk_gens@.len(),
                spec_gen_lookup(self.chunk_gens@.take(i as int), c) == spec_gen_lookup(
                    self.chunk_gens@,
                    c,
                ),
            decreases i,
        {
            i = i - 1;
            let entry = &self.chunk_gens[i];
            proof {
                assert(self.chunk_gens@.take(i as int + 1).last() == self.chunk_gens@[i as int]);
                assert_seqs_equal!(
                    self.chunk_gens@.take(i as int + 1).drop_last()
                        == self.chunk_gens@.take(i as int)
                );
            }
            if entry.0 == c {
                return entry.1;
            }
        }
        0
    }

    /// Ends an idle entity stream: the next packet for this entity is
    /// allocated to a new generation of it.
    pub fn evict_entity_stream(&mut self, id: i32)
        ensures
            final(self).entity_gen(id) == if old(self).entity_gen(id) == 0xffffffffffffffffu64 {
                0u64
            } else {
                (old(self).entity_gen(id) + 1) as u64
            },
            forall|j: i32| j != id ==> final(self).entity_gen(j) == old(self).entity_gen(j),
            forall|c: ChunkPosition| final(self).chunk_gen(c) == old(self).chunk_gen(c),
            final(self).fresh_counter() == old(self).fresh_counter(),
    {
        let g = self.entity_gen_of(id);
        let ghost before = self.entity_gens@;
        self.entity_gens.push((id, g.wrapping_add(1)));
        proof {
            assert_seqs_equal!(self.entity_gens@.drop_last() == before);
        }
    }

    /// Ends an idle chunk stream: the next packet for this chunk is
    /// allocated to a new generation of it.
    pub fn evict_chunk_stream(&mut self, c: ChunkPosition)
        ensures
            final(self).chunk_gen(c) == if old(self).chunk_gen(c) == 0xffffffffffffffffu64 {
                0u64
            } else {
                (old(self).chunk_gen(c) + 1) as u64
            },
            forall|d: ChunkPosition| d != c ==> final(self).chunk_gen(d) == old(self).chunk_gen(d),
            forall|j: i32| final(self).entity_gen(j) == old(self).entity_gen(j),
            final(self).fresh_counter() == old(self).fresh_counter(),
    {
        let g = self.chunk_gen_of(c);
        let ghost before = self.chunk_gens@;
        self.chunk_gens.push((c, g.wrapping_add(1)));
        proof {
            assert_seqs_equal!(self.chunk_gens@.drop_last() == before);
        }
    }
}

/// Two packets that route through the same entity id are allocated the
/// same stream, as long as no eviction lies between the two calls.
pub proof fn lemma_same_entity_same_stream(
    a: StreamAllocator,
    p: server::play::Packet,
    q: server::play::Packet,
    id: i32,
)
    requires
        server_entity_key(p) == Some(id),
        server_entity_key(q) == Some(id),
    ensures
        a.spec_allocate_server(p) == a.spec_allocate_server(q),
        a.spec_allocate_server(p) == Allocation::Stream(StreamId::Entity(id, a.entity_gen(id))),
{
}

/// A chat-family packet and a packet of any other category never share
/// a stream; a keep-alive-class packet shares its one-shot stream with
/// nothing that follows it.
pub proof fn lemma_chat_and_keepalive_isolated(
    a: StreamAllocator,
    p: server::play::Packet,
    q: server::play::Packet,
)
    requires
        server_chat_family(p),
        !server_chat_family(q),
    ensures
        a.spec_allocate_server(p) == Allocation::Stream(StreamId::Chat),
        a.spec_allocate_server(q) != Allocation::Stream(StreamId::Chat),
{
}

/// A keep-alive-class packet always gets a one-shot stream, and no
/// packet outside that class ever does.
pub proof fn lemma_oneshot_streams_are_exclusive(
    a: StreamAllocator,
    p: server::play::Packet,
    q: server::play::Packet,
)
    requires
        server_oneshot_family(p),
        !server_oneshot_family(q),
    ensures
        a.spec_allocate_server(p) == Allocation::Stream(StreamId::Fresh(a.fresh_counter())),
        a.spec_allocate_server(q) != Allocation::Stream(StreamId::Fresh(a.fresh_counter())),
        !(a.spec_allocate_server(q) matches Allocation::Stream(StreamId::Fresh(_))),
{
}

/// Motion and velocity packets never receive a stream: they are always
/// allocated an unreliable sequence on their entity's key.
pub proof fn lemma_motion_is_sequenced(a: StreamAllocator, p: server::play::Packet)
    requires
        server_sequence_key(p) is Some,
    ensures
        a.spec_allocate_server(p) == Allocation::UnreliableSequence(server_sequence_key(p)->0),
        !(a.spec_allocate_server(p) matches Allocation::Stream(_)),
{
}

} // verus!
