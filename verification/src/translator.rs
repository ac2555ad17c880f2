//! The packet translator.
//!
//! Relative entity movement cannot ride an unreliable, unordered
//! channel: each step depends on the position before it. The
//! translator therefore keeps the last known absolute position of
//! every entity and rewrites each relative movement packet into an
//! absolute `TeleportEntity`, which makes last-writer-wins delivery
//! sound. Spawns and teleports feed the table; `RemoveEntities` prunes
//! it; `Respawn` clears it. A relative update for an entity whose
//! position is unknown is dropped: sent unordered, it could only
//! corrupt the position.
//!
//! Positions are kept in fixed-point units of 1/4096 block (see
//! [`crate::fixed`]); a spawn or teleport whose coordinates do not fit
//! that range forgets the entity instead of recording it.

use vstd::prelude::*;
use vstd::seq_lib::*;
use crate::fixed::{
    bits_of_fixed, fixed_of_bits, spec_bits_of_fixed, spec_fixed_of_bits, FIXED_LIMIT,
};
use crate::packet::server::play::{Packet, TeleportEntity};

verus! {

/// The last known position and look direction of one entity:
/// coordinates in 1/4096 block units, angles as wire bytes.
#[derive(Copy, Clone, Debug, PartialEq, Eq, Structural)]
pub struct EntityState {
    pub x: i64,
    pub y: i64,
    pub z: i64,
    pub yaw: u8,
    pub pitch: u8,
}

/// Whether every coordinate lies in the convertible range.
pub open spec fn state_in_bounds(st: EntityState) -> bool {
    &&& -FIXED_LIMIT <= st.x <= FIXED_LIMIT
    &&& -FIXED_LIMIT <= st.y <= FIXED_LIMIT
    &&& -FIXED_LIMIT <= st.z <= FIXED_LIMIT
}

/// The newest entry for `id`, scanning entries youngest-first.
pub open spec fn spec_lookup(s: Seq<(i32, EntityState)>, id: i32) -> Option<EntityState>
    decreases s.len(),
{
    if s.len() == 0 {
        None
    } else if s.last().0 == id {
        Some(s.last().1)
    } else {
        spec_lookup(s.drop_last(), id)
    }
}

/// The state recorded from a spawn or absolute teleport, when all
/// three coordinate words convert.
pub open spec fn state_from_bits(xb: u64, yb: u64, zb: u64, yaw: u8, pitch: u8) -> Option<
    EntityState,
> {
    match (spec_fixed_of_bits(xb), spec_fixed_of_bits(yb), spec_fixed_of_bits(zb)) {
        (Some(x), Some(y), Some(z)) => Some(EntityState { x, y, z, yaw, pitch }),
        _ => None,
    }
}

/// Whether a relative move keeps every coordinate in range.
pub open spec fn move_in_bounds(st: EntityState, dx: i16, dy: i16, dz: i16) -> bool {
    &&& -FIXED_LIMIT <= st.x + dx <= FIXED_LIMIT
    &&& -FIXED_LIMIT <= st.y + dy <= FIXED_LIMIT
    &&& -FIXED_LIMIT <= st.z + dz <= FIXED_LIMIT
}

/// The state after a relative move.
pub open spec fn moved_state(st: EntityState, dx: i16, dy: i16, dz: i16) -> EntityState
    recommends
        move_in_bounds(st, dx, dy, dz),
{
    EntityState {
        x: (st.x + dx) as i64,
        y: (st.y + dy) as i64,
        z: (st.z + dz) as i64,
        yaw: st.yaw,
        pitch: st.pitch,
    }
}

/// The absolute teleport announcing `st` for entity `id`.
pub open spec fn teleport_of(id: i32, st: EntityState, on_ground: bool) -> TeleportEntity {
    TeleportEntity {
        entity_id: id,
        x_bits: spec_bits_of_fixed(st.x),
        y_bits: spec_bits_of_fixed(st.y),
        z_bits: spec_bits_of_fixed(st.z),
        yaw: st.yaw,
        pitch: st.pitch,
        on_ground,
    }
}

/// What the proxy must do with one packet it showed the translator.
#[derive(Debug)]
pub enum Translation {
    /// Send the packet on unchanged.
    Forward,
    /// Send this packet in its place.
    Replace(Packet),
    /// Send nothing: a relative movement whose base position is
    /// unknown cannot be made absolute.
    Drop,
}

/// Rewrites relative movement packets into absolute teleports, using
/// a table of last known entity positions.
pub struct PacketTranslator {
    entity_positions: Vec<(i32, EntityState)>,
}

impl PacketTranslator {
    /// The position the table holds for `id`, if any.
    pub closed spec fn lookup(&self, id: i32) -> Option<EntityState> {
        spec_lookup(self.entity_positions@, id)
    }

    /// Every recorded position is in convertible range.
    pub closed spec fn wf(&self) -> bool {
        forall|i: int|
            0 <= i < self.entity_positions@.len() ==> state_in_bounds(
                #[trigger] self.entity_positions@[i].1,
            )
    }

    /// Creates a translator with an empty table.
    pub fn new() -> (r: PacketTranslator)
        ensures
            r.wf(),
            forall|j: i32| r.lookup(j) is None,
    {
        PacketTranslator { entity_positions: Vec::new() }
    }

    /// The position recorded for `id`, if its position is known.
    pub fn entity_position(&self, id: i32) -> (r: Option<EntityState>)
        ensures
            r == self.lookup(id),
    {
        let mut i: usize = self.entity_positions.len();
        proof {
            assert_seqs_equal!(
                self.entity_positions@.take(i as int) == self.entity_positions@
            );
        }
        while i > 0
            invariant
                i <= self.entity_positions@.len(),
                spec_lookup(self.entity_positions@.take(i as int), id) == self.lookup(id),
            decreases i,
        {
            i = i - 1;
            let entry = &self.entity_positions[i];
            proof {
                assert(self.entity_positions@.take(i as int + 1).last()
                    == self.entity_positions@[i as int]);
                assert_seqs_equal!(
                    self.entity_positions@.take(i as int + 1).drop_last()
                        == self.entity_positions@.take(i as int)
                );
            }
            if entry.0 == id {
                return Some(entry.1);
            }
        }
        None
    }

    /// Records `st` as the position of `id`, dropping any older entry.
    fn put(&mut self, id: i32, st: EntityState)
        requires
            old(self).wf(),
            state_in_bounds(st),
        ensures
            final(self).wf(),
            final(self).lookup(id) == Some(st),
            forall|j: i32| j != id ==> final(self).lookup(j) == old(self).lookup(j),
    {
        self.remove_key(id);
        let ghost before = self.entity_positions@;
        self.entity_positions.push((id, st));
        proof {
            assert_seqs_equal!(self.entity_positions@.drop_last() == before);
        }
    }

    /// Forgets the position of `id`.
    fn remove_key(&mut self, id: i32)
        requires
            old(self).wf(),
        ensures
            final(self).wf(),
            final(self).lookup(id) is None,
            forall|j: i32| j != id ==> final(self).lookup(j) == old(self).lookup(j),
    {
        let n = self.entity_positions.len();
        let mut kept: Vec<(i32, EntityState)> = Vec::new();
        let mut i: usize = 0;
        while i < n
            invariant
                i <= n,
                n == self.entity_positions@.len(),
                old(self) == self,
                old(self).wf(),
                forall|t: int| 0 <= t < kept@.len() ==> state_in_bounds(#[trigger] kept@[t].1),
                spec_lookup(kept@, id) is None,
                forall|j: i32|
                    j != id ==> #[trigger] spec_lookup(kept@, j) == spec_lookup(
                        self.entity_positions@.take(i as int),
                        j,
                    ),
            decreases n - i,
        {
            let entry = self.entity_positions[i];
            let ghost prevkept = kept@;
            let ghost oldi = i as int;
            if entry.0 != id {
                kept.push(entry);
            }
            i = i + 1;
            proof {
                let full = self.entity_positions@;
                assert(full.take(oldi + 1).last() == full[oldi]);
                assert_seqs_equal!(full.take(oldi + 1).drop_last() == full.take(oldi));
                assert(state_in_bounds(full[oldi].1));
                if entry.0 != id {
                    assert(kept@.last() == entry);
                    assert_seqs_equal!(kept@.drop_last() == prevkept);
                }
                assert forall|j: i32| j != id implies #[trigger] spec_lookup(kept@, j)
                    == spec_lookup(full.take(oldi + 1), j) by {
                    if entry.0 != id && j != entry.0 {
                        assert(spec_lookup(kept@, j) == spec_lookup(prevkept, j));
                        assert(spec_lookup(full.take(oldi + 1), j) == spec_lookup(
                            full.take(oldi),
                            j,
                        ));
                    }
                    if entry.0 == id {
                        assert(spec_lookup(full.take(oldi + 1), j) == spec_lookup(
                            full.take(oldi),
                            j,
                        ));
                    }
                }
            }
        }
        proof {
            assert_seqs_equal!(
                self.entity_positions@.take(n as int) == self.entity_positions@
            );
        }
        self.entity_positions = kept;
    }

    /// Empties the table.
    fn clear_entities(&mut self)
        ensures
            final(self).wf(),
            forall|j: i32| final(self).lookup(j) is None,
    {
        self.entity_positions.clear();
    }

    /// Presents one server-to-client Play packet to the translator.
    /// Says whether to forward the packet, replace it with an absolute
    /// teleport, or drop it; updates the position table as the packet
    /// directs. A relative movement whose entity is unknown is
    /// dropped, never forwarded: unordered delivery would corrupt the
    /// position.
    pub fn translate_packet(&mut self, packet: &Packet) -> (r: Translation)
        requires
            old(self).wf(),
        ensures
            final(self).wf(),
            match packet {
                Packet::SpawnEntity(p) => {
                    &&& r is Forward
                    &&& final(self).lookup(p.entity_id) == state_from_bits(
                        p.x_bits,
                        p.y_bits,
                        p.z_bits,
                        p.yaw,
                        p.pitch,
                    )
                    &&& forall|j: i32|
                        j != p.entity_id ==> final(self).lookup(j) == old(self).lookup(j)
                },
                Packet::SpawnExperienceOrb(p) => {
                    &&& r is Forward
                    &&& final(self).lookup(p.entity_id) == state_from_bits(
                        p.x_bits,
                        p.y_bits,
                        p.z_bits,
                        0,
                        0,
                    )
                    &&& forall|j: i32|
                        j != p.entity_id ==> final(self).lookup(j) == old(self).lookup(j)
                },
                Packet::TeleportEntity(p) => {
                    &&& r is Forward
                    &&& final(self).lookup(p.entity_id) == state_from_bits(
                        p.x_bits,
                        p.y_bits,
                        p.z_bits,
                        p.yaw,
                        p.pitch,
                    )
                    &&& forall|j: i32|
                        j != p.entity_id ==> final(self).lookup(j) == old(self).lookup(j)
                },
                Packet::UpdateEntityRotation(p) => {
                    &&& r is Forward
                    &&& match old(self).lookup(p.entity_id) {
                        None => final(self).lookup(p.entity_id) is None,
                        Some(st) => final(self).lookup(p.entity_id) == Some(
                            EntityState { yaw: p.yaw, pitch: p.pitch, ..st },
                        ),
                    }
                    &&& forall|j: i32|
                        j != p.entity_id ==> final(self).lookup(j) == old(self).lookup(j)
                },
                Packet::UpdateEntityPosition(p) => {
                    &&& forall|j: i32|
                        j != p.entity_id ==> final(self).lookup(j) == old(self).lookup(j)
                    &&& match old(self).lookup(p.entity_id) {
                        None => r is Drop && final(self).lookup(p.entity_id) is None,
                        Some(st) => if move_in_bounds(st, p.delta_x, p.delta_y, p.delta_z) {
                            let ns = moved_state(st, p.delta_x, p.delta_y, p.delta_z);
                            &&& final(self).lookup(p.entity_id) == Some(ns)
                            &&& r == Translation::Replace(
                                Packet::TeleportEntity(
                                    teleport_of(p.entity_id, ns, p.on_ground),
                                ),
                            )
                        } else {
                            &&& final(self).lookup(p.entity_id) is None
                            &&& r is Drop
                        },
                    }
                },
                Packet::UpdateEntityPositionAndRotation(p) => {
                    &&& forall|j: i32|
                        j != p.entity_id ==> final(self).lookup(j) == old(self).lookup(j)
                    &&& match old(self).lookup(p.entity_id) {
                        None => r is Drop && final(self).lookup(p.entity_id) is None,
                        Some(st) => {
                            let st1 = EntityState { yaw: p.yaw, pitch: p.pitch, ..st };
                            if move_in_bounds(st1, p.delta_x, p.delta_y, p.delta_z) {
                                let ns = moved_state(st1, p.delta_x, p.delta_y, p.delta_z);
                                &&& final(self).lookup(p.entity_id) == Some(ns)
                                &&& r == Translation::Replace(
                                    Packet::TeleportEntity(
                                        teleport_of(p.entity_id, ns, p.on_ground),
                                    ),
                                )
                            } else {
                                &&& final(self).lookup(p.entity_id) is None
                                &&& r is Drop
                            }
                        },
                    }
                },
                Packet::RemoveEntities(p) => {
                    &&& r is Forward
                    &&& forall|j: i32|
                        p.entities@.contains(j) ==> final(self).lookup(j) is None
                    &&& forall|j: i32|
                        !p.entities@.contains(j) ==> final(self).lookup(j) == old(
                            self,
                        ).lookup(j)
                },
                Packet::Respawn(_) => {
                    &&& r is Forward
                    &&& forall|j: i32| final(self).lookup(j) is None
                },
                _ => {
                    &&& r is Forward
                    &&& forall|j: i32| final(self).lookup(j) == old(self).lookup(j)
                },
            },
    {
        match packet {
            Packet::SpawnEntity(p) => {
                self.record_absolute(p.entity_id, p.x_bits, p.y_bits, p.z_bits, p.yaw, p.pitch);
                Translation::Forward
            },
            Packet::SpawnExperienceOrb(p) => {
                self.record_absolute(p.entity_id, p.x_bits, p.y_bits, p.z_bits, 0, 0);
                Translation::Forward
            },
            Packet::TeleportEntity(p) => {
                self.record_absolute(p.entity_id, p.x_bits, p.y_bits, p.z_bits, p.yaw, p.pitch);
                Translation::Forward
            },
            Packet::UpdateEntityRotation(p) => {
                match self.entity_position(p.entity_id) {
                    Some(st) => {
                        proof {
                            lemma_lookup_in_bounds(self.entity_positions@, p.entity_id);
                        }
                        self.put(p.entity_id, EntityState { yaw: p.yaw, pitch: p.pitch, ..st });
                    },
                    None => {},
                }
                Translation::Forward
            },
            Packet::UpdateEntityPosition(p) => self.relative_move(
                p.entity_id,
                p.delta_x,
                p.delta_y,
                p.delta_z,
                None,
                p.on_ground,
            ),
            Packet::UpdateEntityPositionAndRotation(p) => self.relative_move(
                p.entity_id,
                p.delta_x,
                p.delta_y,
                p.delta_z,
                Some((p.yaw, p.pitch)),
                p.on_ground,
            ),
            Packet::RemoveEntities(p) => {
                let n = p.entities.len();
                let mut i: usize = 0;
                while i < n
                    invariant
                        i <= n,
                        n == p.entities@.len(),
                        self.wf(),
                        forall|j: i32|
                            p.entities@.take(i as int).contains(j) ==> self.lookup(j) is None,
                        forall|j: i32|
                            !p.entities@.take(i as int).contains(j) ==> self.lookup(j) == old(
                                self,
                            ).lookup(j),
                    decreases n - i,
                {
                    self.remove_key(p.entities[i]);
                    i = i + 1;
                    proof {
                        let pre = p.entities@.take(i as int - 1);
                        let cur = p.entities@.take(i as int);
                        assert(cur.last() == p.entities@[i as int - 1]);
                        assert_seqs_equal!(cur.drop_last() == pre);
                        assert(forall|j: i32|
                            cur.contains(j) ==> pre.contains(j) || j == p.entities@[i as int
                                - 1]);
                        assert(forall|j: i32| pre.contains(j) ==> cur.contains(j));
                    }
                }
                proof {
                    assert_seqs_equal!(p.entities@.take(n as int) == p.entities@);
                }
                Translation::Forward
            },
            Packet::Respawn(_) => {
                self.clear_entities();
                Translation::Forward
            },
            _ => Translation::Forward,
        }
    }

    /// Records an absolute position from its coordinate words, or
    /// forgets the entity when a word does not convert.
    fn record_absolute(&mut self, id: i32, xb: u64, yb: u64, zb: u64, yaw: u8, pitch: u8)
        requires
            old(self).wf(),
        ensures
            final(self).wf(),
            final(self).lookup(id) == state_from_bits(xb, yb, zb, yaw, pitch),
            forall|j: i32| j != id ==> final(self).lookup(j) == old(self).lookup(j),
    {
        let x = fixed_of_bits(xb);
        let y = fixed_of_bits(yb);
        let z = fixed_of_bits(zb);
        match (x, y, z) {
            (Some(x), Some(y), Some(z)) => {
                self.put(id, EntityState { x, y, z, yaw, pitch });
            },
            _ => {
                self.remove_key(id);
            },
        }
    }

    /// Applies a relative move for `id`: updates the table and builds
    /// the replacement teleport, or forgets the entity when the move
    /// leaves the representable range.
    fn relative_move(
        &mut self,
        id: i32,
        dx: i16,
        dy: i16,
        dz: i16,
        rotation: Option<(u8, u8)>,
        on_ground: bool,
    ) -> (r: Translation)
        requires
            old(self).wf(),
        ensures
            final(self).wf(),
            forall|j: i32| j != id ==> final(self).lookup(j) == old(self).lookup(j),
            match old(self).lookup(id) {
                None => r is Drop && final(self).lookup(id) is None,
                Some(st) => {
                    let st1 = match rotation {
                        Some((yaw, pitch)) => EntityState { yaw, pitch, ..st },
                        None => st,
                    };
                    if move_in_bounds(st1, dx, dy, dz) {
                        let ns = moved_state(st1, dx, dy, dz);
                        &&& final(self).lookup(id) == Some(ns)
                        &&& r == Translation::Replace(
                            Packet::TeleportEntity(teleport_of(id, ns, on_ground)),
                        )
                    } else {
                        &&& final(self).lookup(id) is None
                        &&& r is Drop
                    }
                },
            },
    {
        let st = match self.entity_position(id) {
            Some(st) => st,
            None => {
                return Translation::Drop;
            },
        };
        proof {
            lemma_lookup_in_bounds(self.entity_positions@, id);
        }
        let st1 = match rotation {
            Some((yaw, pitch)) => EntityState { yaw, pitch, ..st },
            None => st,
        };
        let nx = st1.x + (dx as i64);
        let ny = st1.y + (dy as i64);
        let nz = st1.z + (dz as i64);
        if nx < -FIXED_LIMIT || nx > FIXED_LIMIT || ny < -FIXED_LIMIT || ny > FIXED_LIMIT || nz
            < -FIXED_LIMIT || nz > FIXED_LIMIT {
            self.remove_key(id);
            return Translation::Drop;
        }
        let ns = EntityState { x: nx, y: ny, z: nz, yaw: st1.yaw, pitch: st1.pitch };
        self.put(id, ns);
        let teleport = TeleportEntity {
            entity_id: id,
            x_bits: bits_of_fixed(nx),
            y_bits: bits_of_fixed(ny),
            z_bits: bits_of_fixed(nz),
            yaw: ns.yaw,
            pitch: ns.pitch,
            on_ground,
        };
        Translation::Replace(Packet::TeleportEntity(teleport))
    }
}

/// A recorded position is always in convertible range.
proof fn lemma_lookup_in_bounds(s: Seq<(i32, EntityState)>, id: i32)
    requires
        forall|i: int| 0 <= i < s.len() ==> state_in_bounds(#[trigger] s[i].1),
    ensures
        spec_lookup(s, id) is Some ==> state_in_bounds(spec_lookup(s, id)->0),
    decreases s.len(),
{
    if s.len() > 0 && s.last().0 != id {
        lemma_lookup_in_bounds(s.drop_last(), id);
    }
}

/// The position after a run of relative moves.
pub open spec fn apply_moves(st: EntityState, moves: Seq<(i16, i16, i16)>) -> EntityState
    decreases moves.len(),
{
    if moves.len() == 0 {
        st
    } else {
        let prev = apply_moves(st, moves.drop_last());
        let d = moves.last();
        moved_state(prev, d.0, d.1, d.2)
    }
}

/// The componentwise sum of a run of relative moves.
pub open spec fn move_sum(moves: Seq<(i16, i16, i16)>) -> (int, int, int)
    decreases moves.len(),
{
    if moves.len() == 0 {
        (0int, 0int, 0int)
    } else {
        let p = move_sum(moves.drop_last());
        let d = moves.last();
        (p.0 + d.0, p.1 + d.1, p.2 + d.2)
    }
}

/// Whether every prefix of a run of moves keeps `st` in range.
pub open spec fn moves_stay_in_bounds(st: EntityState, moves: Seq<(i16, i16, i16)>) -> bool {
    forall|k: int|
        0 <= k < moves.len() ==> {
            let prev = apply_moves(st, #[trigger] moves.take(k));
            move_in_bounds(prev, moves[k].0, moves[k].1, moves[k].2)
        }
}

/// Starting from a spawn position and applying a run of relative
/// moves, the accumulated position is the spawn position plus the sum
/// of the deltas, and the look direction carries over unchanged; so
/// the teleports the translator emits carry exactly these positions.
pub proof fn lemma_moves_accumulate(st: EntityState, moves: Seq<(i16, i16, i16)>)
    requires
        moves_stay_in_bounds(st, moves),
    ensures
        ({
            let end = apply_moves(st, moves);
            let total = move_sum(moves);
            &&& end.x == st.x + total.0
            &&& end.y == st.y + total.1
            &&& end.z == st.z + total.2
            &&& end.yaw == st.yaw
            &&& end.pitch == st.pitch
        }),
    decreases moves.len(),
{
    if moves.len() > 0 {
        let head = moves.drop_last();
        assert(forall|k: int|
            0 <= k < head.len() ==> #[trigger] head.take(k) == moves.take(k));
        lemma_moves_accumulate(st, head);
        assert(moves.take(moves.len() - 1) == head);
    }
}

} // verus!
