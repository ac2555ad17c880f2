//! Block, chunk and entity-delta positions, and the packed 64-bit
//! block-position wire format.

use vstd::prelude::*;
use crate::decoder::Decoder;
use crate::error::DecodeError;

verus! {

/// A chunk coordinate pair.
#[derive(Copy, Clone, Debug, PartialEq, Eq, Hash, Structural)]
pub struct ChunkPosition {
    pub x: i32,
    pub z: i32,
}

/// An absolute block position.
#[derive(Copy, Clone, Debug, PartialEq, Eq, Hash, Structural)]
pub struct BlockPosition {
    pub x: i32,
    pub y: i32,
    pub z: i32,
}

impl BlockPosition {
    /// The chunk containing this block: each coordinate divided by 16,
    /// rounded toward negative infinity.
    pub fn chunk(self) -> (r: ChunkPosition)
        ensures
            r.x == self.x as int / 16,
            r.z == self.z as int / 16,
    {
        let rx: i32 = self.x >> 4;
        let rz: i32 = self.z >> 4;
        proof {
            let x = self.x;
            let z = self.z;
            assert((x >> 4) == x as int / 16 && (z >> 4) == z as int / 16) by (bit_vector);
        }
        ChunkPosition { x: rx, z: rz }
    }
}

/// A relative entity movement, in units of 1/4096 block.
#[derive(Copy, Clone, Debug, PartialEq, Eq, Hash, Structural)]
pub struct EntityPositionDelta {
    pub dx: i16,
    pub dy: i16,
    pub dz: i16,
}

/// The packed form of a block position: x in the high 26 bits, z in
/// the middle 26 bits, y in the low 12 bits.
pub open spec fn spec_pack_block_position(p: BlockPosition) -> i64 {
    ((((p.x as i64) & 0x3ffffff) << 38) | (((p.z as i64) & 0x3ffffff) << 12) | ((p.y as i64)
        & 0xfff)) as i64
}

/// The block position read out of its packed form, each field
/// sign-extended.
pub open spec fn spec_unpack_block_position(v: i64) -> BlockPosition {
    BlockPosition {
        x: (v >> 38) as i32,
        y: ((v << 52) >> 52) as i32,
        z: ((v << 26) >> 38) as i32,
    }
}

/// Whether each coordinate fits its packed field.
pub open spec fn block_position_in_range(p: BlockPosition) -> bool {
    &&& -0x2000000 <= p.x < 0x2000000
    &&& -0x800 <= p.y < 0x800
    &&& -0x2000000 <= p.z < 0x2000000
}

/// Packs a block position into one signed 64-bit integer.
pub fn pack_block_position(p: BlockPosition) -> (v: i64)
    ensures
        v == spec_pack_block_position(p),
{
    (((p.x as i64) & 0x3ffffff) << 38) | (((p.z as i64) & 0x3ffffff) << 12) | ((p.y as i64)
        & 0xfff)
}

/// Unpacks a block position from one signed 64-bit integer. The
/// resulting coordinates always lie in packing range.
pub fn unpack_block_position(v: i64) -> (p: BlockPosition)
    ensures
        p == spec_unpack_block_position(v),
        block_position_in_range(p),
{
    proof {
        lemma_unpack_in_range(v);
    }
    BlockPosition { x: (v >> 38) as i32, y: ((v << 52) >> 52) as i32, z: ((v << 26) >> 38) as i32 }
}

proof fn lemma_unpack_in_range(v: i64)
    ensures
        block_position_in_range(spec_unpack_block_position(v)),
{
    assert(-0x2000000 <= ((v >> 38) as i32) < 0x2000000 && -0x800 <= (((v << 52) >> 52) as i32)
        < 0x800 && -0x2000000 <= (((v << 26) >> 38) as i32) < 0x2000000) by (bit_vector);
}

/// Packing then unpacking is the identity on every position in range.
pub proof fn lemma_block_position_round_trip(p: BlockPosition)
    requires
        block_position_in_range(p),
    ensures
        spec_unpack_block_position(spec_pack_block_position(p)) == p,
{
    let x = p.x;
    let y = p.y;
    let z = p.z;
    let v = spec_pack_block_position(p);
    assert({
        let w = ((((x as i64) & 0x3ffffff) << 38) | (((z as i64) & 0x3ffffff) << 12) | ((y as i64)
            & 0xfff)) as i64;
        ((w >> 38) as i32) == x && (((w << 52) >> 52) as i32) == y && (((w << 26) >> 38) as i32)
            == z
    }) by (bit_vector)
        requires
            -0x2000000 <= x < 0x2000000,
            -0x800 <= y < 0x800,
            -0x2000000 <= z < 0x2000000,
    ;
}

/// Unpacking then packing restores the packed word exactly, whatever
/// it holds.
pub proof fn lemma_block_position_repack(v: i64)
    ensures
        spec_pack_block_position(spec_unpack_block_position(v)) == v,
{
    assert({
        let x = (v >> 38) as i32;
        let y = ((v << 52) >> 52) as i32;
        let z = ((v << 26) >> 38) as i32;
        (((((x as i64) & 0x3ffffff) << 38) | (((z as i64) & 0x3ffffff) << 12) | ((y as i64)
            & 0xfff)) as i64) == v
    }) by (bit_vector);
}

impl<'a> Decoder<'a> {
    /// Reads a packed block position from the stream.
    pub fn read_block_position(&mut self) -> (r: Result<BlockPosition, DecodeError>)
        ensures
            match r {
                Ok(p) => {
                    &&& old(self).remaining().len() >= 8
                    &&& p == spec_unpack_block_position(
                        crate::wire::u64_of_be(old(self).remaining().take(8)) as i64,
                    )
                    &&& block_position_in_range(p)
                    &&& final(self).remaining() == old(self).remaining().skip(8)
                },
                Err(e) => {
                    &&& old(self).remaining().len() < 8
                    &&& e == DecodeError::EndOfStream(8)
                    &&& final(self).remaining() == old(self).remaining()
                },
            },
    {
        let value = self.read_i64()?;
        Ok(unpack_block_position(value))
    }
}

/// The chunk-section key packed into the `UpdateSectionBlocks` packet:
/// chunk x in the high 22 bits, chunk z in the next 22.
pub fn unpack_section_chunk(v: i64) -> (r: ChunkPosition)
    ensures
        r.x == (v >> 42) as i32,
        r.z == ((v << 22) >> 42) as i32,
{
    ChunkPosition { x: (v >> 42) as i32, z: ((v << 22) >> 42) as i32 }
}

} // verus!
