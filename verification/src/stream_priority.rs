//! QUIC send priorities for the proxy's streams: keep-alives must
//! out-race bulk chunk data, or congested links drop the session on
//! idle timeout.

use vstd::prelude::*;
use crate::allocator::StreamId;

verus! {

/// Bulk chunk data: lowest priority.
pub const DEFAULT: i32 = 0;

/// The shared miscellaneous stream outranks chunk data.
pub const MISC_STREAM: i32 = 5;

/// Chat outranks miscellaneous traffic.
pub const CHAT_STREAM: i32 = 6;

/// Per-entity and per-chunk update streams.
pub const GAME_UPDATES: i32 = 7;

/// Keep-alives keep the connection alive: highest priority.
pub const KEEPALIVE: i32 = 10;

/// The send priority a stream is opened with.
pub fn priority_of(id: StreamId) -> (r: i32)
    ensures
        r == match id {
            StreamId::Chunks => DEFAULT,
            StreamId::Misc => MISC_STREAM,
            StreamId::Chat => CHAT_STREAM,
            StreamId::Entity(_, _) => GAME_UPDATES,
            StreamId::BlockChunk(_, _) => GAME_UPDATES,
            StreamId::Fresh(_) => KEEPALIVE,
        },
{
    match id {
        StreamId::Chunks => DEFAULT,
        StreamId::Misc => MISC_STREAM,
        StreamId::Chat => CHAT_STREAM,
        StreamId::Entity(_, _) => GAME_UPDATES,
        StreamId::BlockChunk(_, _) => GAME_UPDATES,
        StreamId::Fresh(_) => KEEPALIVE,
    }
}

} // verus!
