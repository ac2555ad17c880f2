//! Client-to-server packets of the Play state.

use vstd::prelude::*;
use vstd::seq_lib::*;
use crate::decoder::Decoder;
use crate::encoder::Encoder;
use crate::error::DecodeError;
use crate::wire::{lemma_concat_assoc, lemma_concat_skip, lemma_parse_var_int_of_encoding,
    lemma_var_int_bytes_len, parse_var_int, var_int_bytes};

verus! {

/// `ConfirmTeleportation` packet; its payload is carried through opaquely.
#[derive(Debug)]
pub struct ConfirmTeleportation {
    pub ignored_data: Vec<u8>,
}

impl ConfirmTeleportation {
    /// The payload bytes this packet writes.
    pub open spec fn payload_spec(&self) -> Seq<u8> {
        self.ignored_data@
    }

    /// Whether this packet is what a reader makes of `s`.
    pub open spec fn payload_matches(&self, s: Seq<u8>) -> bool {
        self.ignored_data@ == s
    }

    /// Writes the payload fields in wire order.
    pub fn encode(&self, enc: &mut Encoder)
        ensures
            final(enc).bytes() == old(enc).bytes() + self.payload_spec(),
    {
        enc.write_slice(self.ignored_data.as_slice());
    }

    /// Reads the payload: the rest of the frame.
    pub fn decode(dec: &mut Decoder<'_>) -> (r: ConfirmTeleportation)
        ensures
            r.payload_matches(old(dec).remaining()),
        {
        ConfirmTeleportation { ignored_data: dec.read_rest() }
    }
}

/// `QueryBlockEntityTag` packet; its payload is carried through opaquely.
#[derive(Debug)]
pub struct QueryBlockEntityTag {
    pub ignored_data: Vec<u8>,
}

impl QueryBlockEntityTag {
    /// The payload bytes this packet writes.
    pub open spec fn payload_spec(&self) -> Seq<u8> {
        self.ignored_data@
    }

    /// Whether this packet is what a reader makes of `s`.
    pub open spec fn payload_matches(&self, s: Seq<u8>) -> bool {
        self.ignored_data@ == s
    }

    /// Writes the payload fields in wire order.
    pub fn encode(&self, enc: &mut Encoder)
        ensures
            final(enc).bytes() == old(enc).bytes() + self.payload_spec(),
    {
        enc.write_slice(self.ignored_data.as_slice());
    }

    /// Reads the payload: the rest of the frame.
    pub fn decode(dec: &mut Decoder<'_>) -> (r: QueryBlockEntityTag)
        ensures
            r.payload_matches(old(dec).remaining()),
        {
        QueryBlockEntityTag { ignored_data: dec.read_rest() }
    }
}

/// `ChangeDifficulty` packet; its payload is carried through opaquely.
#[derive(Debug)]
pub struct ChangeDifficulty {
    pub ignored_data: Vec<u8>,
}

impl ChangeDifficulty {
    /// The payload bytes this packet writes.
    pub open spec fn payload_spec(&self) -> Seq<u8> {
        self.ignored_data@
    }

    /// Whether this packet is what a reader makes of `s`.
    pub open spec fn payload_matches(&self, s: Seq<u8>) -> bool {
        self.ignored_data@ == s
    }

    /// Writes the payload fields in wire order.
    pub fn encode(&self, enc: &mut Encoder)
        ensures
            final(enc).bytes() == old(enc).bytes() + self.payload_spec(),
    {
        enc.write_slice(self.ignored_data.as_slice());
    }

    /// Reads the payload: the rest of the frame.
    pub fn decode(dec: &mut Decoder<'_>) -> (r: ChangeDifficulty)
        ensures
            r.payload_matches(old(dec).remaining()),
        {
        ChangeDifficulty { ignored_data: dec.read_rest() }
    }
}

/// `AcknowledgeMessage` packet; its payload is carried through opaquely.
#[derive(Debug)]
pub struct AcknowledgeMessage {
    pub ignored_data: Vec<u8>,
}

impl AcknowledgeMessage {
    /// The payload bytes this packet writes.
    pub open spec fn payload_spec(&self) -> Seq<u8> {
        self.ignored_data@
    }

    /// Whether this packet is what a reader makes of `s`.
    pub open spec fn payload_matches(&self, s: Seq<u8>) -> bool {
        self.ignored_data@ == s
    }

    /// Writes the payload fields in wire order.
    pub fn encode(&self, enc: &mut Encoder)
        ensures
            final(enc).bytes() == old(enc).bytes() + self.payload_spec(),
    {
        enc.write_slice(self.ignored_data.as_slice());
    }

    /// Reads the payload: the rest of the frame.
    pub fn decode(dec: &mut Decoder<'_>) -> (r: AcknowledgeMessage)
        ensures
            r.payload_matches(old(dec).remaining()),
        {
        AcknowledgeMessage { ignored_data: dec.read_rest() }
    }
}

/// `ChatCommand` packet; its payload is carried through opaquely.
#[derive(Debug)]
pub struct ChatCommand {
    pub ignored_data: Vec<u8>,
}

impl ChatCommand {
    /// The payload bytes this packet writes.
    pub open spec fn payload_spec(&self) -> Seq<u8> {
        self.ignored_data@
    }

    /// Whether this packet is what a reader makes of `s`.
    pub open spec fn payload_matches(&self, s: Seq<u8>) -> bool {
        self.ignored_data@ == s
    }

    /// Writes the payload fields in wire order.
    pub fn encode(&self, enc: &mut Encoder)
        ensures
            final(enc).bytes() == old(enc).bytes() + self.payload_spec(),
    {
        enc.write_slice(self.ignored_data.as_slice());
    }

    /// Reads the payload: the rest of the frame.
    pub fn decode(dec: &mut Decoder<'_>) -> (r: ChatCommand)
        ensures
            r.payload_matches(old(dec).remaining()),
        {
        ChatCommand { ignored_data: dec.read_rest() }
    }
}

/// `ChatMessage` packet; its payload is carried through opaquely.
#[derive(Debug)]
pub struct ChatMessage {
    pub ignored_data: Vec<u8>,
}

impl ChatMessage {
    /// The payload bytes this packet writes.
    pub open spec fn payload_spec(&self) -> Seq<u8> {
        self.ignored_data@
    }

    /// Whether this packet is what a reader makes of `s`.
    pub open spec fn payload_matches(&self, s: Seq<u8>) -> bool {
        self.ignored_data@ == s
    }

    /// Writes the payload fields in wire order.
    pub fn encode(&self, enc: &mut Encoder)
        ensures
            final(enc).bytes() == old(enc).bytes() + self.payload_spec(),
    {
        enc.write_slice(self.ignored_data.as_slice());
    }

    /// Reads the payload: the rest of the frame.
    pub fn decode(dec: &mut Decoder<'_>) -> (r: ChatMessage)
        ensures
            r.payload_matches(old(dec).remaining()),
        {
        ChatMessage { ignored_data: dec.read_rest() }
    }
}

/// `PlayerSession` packet; its payload is carried through opaquely.
#[derive(Debug)]
pub struct PlayerSession {
    pub ignored_data: Vec<u8>,
}

impl PlayerSession {
    /// The payload bytes this packet writes.
    pub open spec fn payload_spec(&self) -> Seq<u8> {
        self.ignored_data@
    }

    /// Whether this packet is what a reader makes of `s`.
    pub open spec fn payload_matches(&self, s: Seq<u8>) -> bool {
        self.ignored_data@ == s
    }

    /// Writes the payload fields in wire order.
    pub fn encode(&self, enc: &mut Encoder)
        ensures
            final(enc).bytes() == old(enc).bytes() + self.payload_spec(),
    {
        enc.write_slice(self.ignored_data.as_slice());
    }

    /// Reads the payload: the rest of the frame.
    pub fn decode(dec: &mut Decoder<'_>) -> (r: PlayerSession)
        ensures
            r.payload_matches(old(dec).remaining()),
        {
        PlayerSession { ignored_data: dec.read_rest() }
    }
}

/// `ChunkBatchReceived` packet; its payload is carried through opaquely.
#[derive(Debug)]
pub struct ChunkBatchReceived {
    pub ignored_data: Vec<u8>,
}

impl ChunkBatchReceived {
    /// The payload bytes this packet writes.
    pub open spec fn payload_spec(&self) -> Seq<u8> {
        self.ignored_data@
    }

    /// Whether this packet is what a reader makes of `s`.
    pub open spec fn payload_matches(&self, s: Seq<u8>) -> bool {
        self.ignored_data@ == s
    }

    /// Writes the payload fields in wire order.
    pub fn encode(&self, enc: &mut Encoder)
        ensures
            final(enc).bytes() == old(enc).bytes() + self.payload_spec(),
    {
        enc.write_slice(self.ignored_data.as_slice());
    }

    /// Reads the payload: the rest of the frame.
    pub fn decode(dec: &mut Decoder<'_>) -> (r: ChunkBatchReceived)
        ensures
            r.payload_matches(old(dec).remaining()),
        {
        ChunkBatchReceived { ignored_data: dec.read_rest() }
    }
}

/// `ClientStatus` packet; its payload is carried through opaquely.
#[derive(Debug)]
pub struct ClientStatus {
    pub ignored_data: Vec<u8>,
}

impl ClientStatus {
    /// The payload bytes this packet writes.
    pub open spec fn payload_spec(&self) -> Seq<u8> {
        self.ignored_data@
    }

    /// Whether this packet is what a reader makes of `s`.
    pub open spec fn payload_matches(&self, s: Seq<u8>) -> bool {
        self.ignored_data@ == s
    }

    /// Writes the payload fields in wire order.
    pub fn encode(&self, enc: &mut Encoder)
        ensures
            final(enc).bytes() == old(enc).bytes() + self.payload_spec(),
    {
        enc.write_slice(self.ignored_data.as_slice());
    }

    /// Reads the payload: the rest of the frame.
    pub fn decode(dec: &mut Decoder<'_>) -> (r: ClientStatus)
        ensures
            r.payload_matches(old(dec).remaining()),
        {
        ClientStatus { ignored_data: dec.read_rest() }
    }
}

/// `ClientInformation` packet; its payload is carried through opaquely.
#[derive(Debug)]
pub struct ClientInformation {
    pub ignored_data: Vec<u8>,
}

impl ClientInformation {
    /// The payload bytes this packet writes.
    pub open spec fn payload_spec(&self) -> Seq<u8> {
        self.ignored_data@
    }

    /// Whether this packet is what a reader makes of `s`.
    pub open spec fn payload_matches(&self, s: Seq<u8>) -> bool {
        self.ignored_data@ == s
    }

    /// Writes the payload fields in wire order.
    pub fn encode(&self, enc: &mut Encoder)
        ensures
            final(enc).bytes() == old(enc).bytes() + self.payload_spec(),
    {
        enc.write_slice(self.ignored_data.as_slice());
    }

    /// Reads the payload: the rest of the frame.
    pub fn decode(dec: &mut Decoder<'_>) -> (r: ClientInformation)
        ensures
            r.payload_matches(old(dec).remaining()),
        {
        ClientInformation { ignored_data: dec.read_rest() }
    }
}

/// `RequestCommandSuggestions` packet; its payload is carried through opaquely.
#[derive(Debug)]
pub struct RequestCommandSuggestions {
    pub ignored_data: Vec<u8>,
}

impl RequestCommandSuggestions {
    /// The payload bytes this packet writes.
    pub open spec fn payload_spec(&self) -> Seq<u8> {
        self.ignored_data@
    }

    /// Whether this packet is what a reader makes of `s`.
    pub open spec fn payload_matches(&self, s: Seq<u8>) -> bool {
        self.ignored_data@ == s
    }

    /// Writes the payload fields in wire order.
    pub fn encode(&self, enc: &mut Encoder)
        ensures
            final(enc).bytes() == old(enc).bytes() + self.payload_spec(),
    {
        enc.write_slice(self.ignored_data.as_slice());
    }

    /// Reads the payload: the rest of the frame.
    pub fn decode(dec: &mut Decoder<'_>) -> (r: RequestCommandSuggestions)
        ensures
            r.payload_matches(old(dec).remaining()),
        {
        RequestCommandSuggestions { ignored_data: dec.read_rest() }
    }
}

/// `AcknowledgeConfiguration` packet; its payload is carried through opaquely.
#[derive(Debug)]
pub struct AcknowledgeConfiguration {
    pub ignored_data: Vec<u8>,
}

impl AcknowledgeConfiguration {
    /// The payload bytes this packet writes.
    pub open spec fn payload_spec(&self) -> Seq<u8> {
        self.ignored_data@
    }

    /// Whether this packet is what a reader makes of `s`.
    pub open spec fn payload_matches(&self, s: Seq<u8>) -> bool {
        self.ignored_data@ == s
    }

    /// Writes the payload fields in wire order.
    pub fn encode(&self, enc: &mut Encoder)
        ensures
            final(enc).bytes() == old(enc).bytes() + self.payload_spec(),
    {
        enc.write_slice(self.ignored_data.as_slice());
    }

    /// Reads the payload: the rest of the frame.
    pub fn decode(dec: &mut Decoder<'_>) -> (r: AcknowledgeConfiguration)
        ensures
            r.payload_matches(old(dec).remaining()),
        {
        AcknowledgeConfiguration { ignored_data: dec.read_rest() }
    }
}

/// `ClickContainerButton` packet; its payload is carried through opaquely.
#[derive(Debug)]
pub struct ClickContainerButton {
    pub ignored_data: Vec<u8>,
}

impl ClickContainerButton {
    /// The payload bytes this packet writes.
    pub open spec fn payload_spec(&self) -> Seq<u8> {
        self.ignored_data@
    }

    /// Whether this packet is what a reader makes of `s`.
    pub open spec fn payload_matches(&self, s: Seq<u8>) -> bool {
        self.ignored_data@ == s
    }

    /// Writes the payload fields in wire order.
    pub fn encode(&self, enc: &mut Encoder)
        ensures
            final(enc).bytes() == old(enc).bytes() + self.payload_spec(),
    {
        enc.write_slice(self.ignored_data.as_slice());
    }

    /// Reads the payload: the rest of the frame.
    pub fn decode(dec: &mut Decoder<'_>) -> (r: ClickContainerButton)
        ensures
            r.payload_matches(old(dec).remaining()),
        {
        ClickContainerButton { ignored_data: dec.read_rest() }
    }
}

/// `ClickContainer` packet; its payload is carried through opaquely.
#[derive(Debug)]
pub struct ClickContainer {
    pub ignored_data: Vec<u8>,
}

impl ClickContainer {
    /// The payload bytes this packet writes.
    pub open spec fn payload_spec(&self) -> Seq<u8> {
        self.ignored_data@
    }

    /// Whether this packet is what a reader makes of `s`.
    pub open spec fn payload_matches(&self, s: Seq<u8>) -> bool {
        self.ignored_data@ == s
    }

    /// Writes the payload fields in wire order.
    pub fn encode(&self, enc: &mut Encoder)
        ensures
            final(enc).bytes() == old(enc).bytes() + self.payload_spec(),
    {
        enc.write_slice(self.ignored_data.as_slice());
    }

    /// Reads the payload: the rest of the frame.
    pub fn decode(dec: &mut Decoder<'_>) -> (r: ClickContainer)
        ensures
            r.payload_matches(old(dec).remaining()),
        {
        ClickContainer { ignored_data: dec.read_rest() }
    }
}

/// `CloseContainer` packet; its payload is carried through opaquely.
#[derive(Debug)]
pub struct CloseContainer {
    pub ignored_data: Vec<u8>,
}

impl CloseContainer {
    /// The payload bytes this packet writes.
    pub open spec fn payload_spec(&self) -> Seq<u8> {
        self.ignored_data@
    }

    /// Whether this packet is what a reader makes of `s`.
    pub open spec fn payload_matches(&self, s: Seq<u8>) -> bool {
        self.ignored_data@ == s
    }

    /// Writes the payload fields in wire order.
    pub fn encode(&self, enc: &mut Encoder)
        ensures
            final(enc).bytes() == old(enc).bytes() + self.payload_spec(),
    {
        enc.write_slice(self.ignored_data.as_slice());
    }

    /// Reads the payload: the rest of the frame.
    pub fn decode(dec: &mut Decoder<'_>) -> (r: CloseContainer)
        ensures
            r.payload_matches(old(dec).remaining()),
        {
        CloseContainer { ignored_data: dec.read_rest() }
    }
}

/// `ChangeContainerSlotState` packet; its payload is carried through opaquely.
#[derive(Debug)]
pub struct ChangeContainerSlotState {
    pub ignored_data: Vec<u8>,
}

impl ChangeContainerSlotState {
    /// The payload bytes this packet writes.
    pub open spec fn payload_spec(&self) -> Seq<u8> {
        self.ignored_data@
    }

    /// Whether this packet is what a reader makes of `s`.
    pub open spec fn payload_matches(&self, s: Seq<u8>) -> bool {
        self.ignored_data@ == s
    }

    /// Writes the payload fields in wire order.
    pub fn encode(&self, enc: &mut Encoder)
        ensures
            final(enc).bytes() == old(enc).bytes() + self.payload_spec(),
    {
        enc.write_slice(self.ignored_data.as_slice());
    }

    /// Reads the payload: the rest of the frame.
    pub fn decode(dec: &mut Decoder<'_>) -> (r: ChangeContainerSlotState)
        ensures
            r.payload_matches(old(dec).remaining()),
        {
        ChangeContainerSlotState { ignored_data: dec.read_rest() }
    }
}

/// `PluginMessage` packet; its payload is carried through opaquely.
#[derive(Debug)]
pub struct PluginMessage {
    pub ignored_data: Vec<u8>,
}

impl PluginMessage {
    /// The payload bytes this packet writes.
    pub open spec fn payload_spec(&self) -> Seq<u8> {
        self.ignored_data@
    }

    /// Whether this packet is what a reader makes of `s`.
    pub open spec fn payload_matches(&self, s: Seq<u8>) -> bool {
        self.ignored_data@ == s
    }

    /// Writes the payload fields in wire order.
    pub fn encode(&self, enc: &mut Encoder)
        ensures
            final(enc).bytes() == old(enc).bytes() + self.payload_spec(),
    {
        enc.write_slice(self.ignored_data.as_slice());
    }

    /// Reads the payload: the rest of the frame.
    pub fn decode(dec: &mut Decoder<'_>) -> (r: PluginMessage)
        ensures
            r.payload_matches(old(dec).remaining()),
        {
        PluginMessage { ignored_data: dec.read_rest() }
    }
}

/// `EditBook` packet; its payload is carried through opaquely.
#[derive(Debug)]
pub struct EditBook {
    pub ignored_data: Vec<u8>,
}

impl EditBook {
    /// The payload bytes this packet writes.
    pub open spec fn payload_spec(&self) -> Seq<u8> {
        self.ignored_data@
    }

    /// Whether this packet is what a reader makes of `s`.
    pub open spec fn payload_matches(&self, s: Seq<u8>) -> bool {
        self.ignored_data@ == s
    }

    /// Writes the payload fields in wire order.
    pub fn encode(&self, enc: &mut Encoder)
        ensures
            final(enc).bytes() == old(enc).bytes() + self.payload_spec(),
    {
        enc.write_slice(self.ignored_data.as_slice());
    }

    /// Reads the payload: the rest of the frame.
    pub fn decode(dec: &mut Decoder<'_>) -> (r: EditBook)
        ensures
            r.payload_matches(old(dec).remaining()),
        {
        EditBook { ignored_data: dec.read_rest() }
    }
}

/// `QueryEntityTag` packet; its payload is carried through opaquely.
#[derive(Debug)]
pub struct QueryEntityTag {
    pub ignored_data: Vec<u8>,
}

impl QueryEntityTag {
    /// The payload bytes this packet writes.
    pub open spec fn payload_spec(&self) -> Seq<u8> {
        self.ignored_data@
    }

    /// Whether this packet is what a reader makes of `s`.
    pub open spec fn payload_matches(&self, s: Seq<u8>) -> bool {
        self.ignored_data@ == s
    }

    /// Writes the payload fields in wire order.
    pub fn encode(&self, enc: &mut Encoder)
        ensures
            final(enc).bytes() == old(enc).bytes() + self.payload_spec(),
    {
        enc.write_slice(self.ignored_data.as_slice());
    }

    /// Reads the payload: the rest of the frame.
    pub fn decode(dec: &mut Decoder<'_>) -> (r: QueryEntityTag)
        ensures
            r.payload_matches(old(dec).remaining()),
        {
        QueryEntityTag { ignored_data: dec.read_rest() }
    }
}

/// `Interact` packet; its payload is carried through opaquely.
#[derive(Debug)]
pub struct Interact {
    pub ignored_data: Vec<u8>,
}

impl Interact {
    /// The payload bytes this packet writes.
    pub open spec fn payload_spec(&self) -> Seq<u8> {
        self.ignored_data@
    }

    /// Whether this packet is what a reader makes of `s`.
    pub open spec fn payload_matches(&self, s: Seq<u8>) -> bool {
        self.ignored_data@ == s
    }

    /// Writes the payload fields in wire order.
    pub fn encode(&self, enc: &mut Encoder)
        ensures
            final(enc).bytes() == old(enc).bytes() + self.payload_spec(),
    {
        enc.write_slice(self.ignored_data.as_slice());
    }

    /// Reads the payload: the rest of the frame.
    pub fn decode(dec: &mut Decoder<'_>) -> (r: Interact)
        ensures
            r.payload_matches(old(dec).remaining()),
        {
        Interact { ignored_data: dec.read_rest() }
    }
}

/// `JigsawGenerate` packet; its payload is carried through opaquely.
#[derive(Debug)]
pub struct JigsawGenerate {
    pub ignored_data: Vec<u8>,
}

impl JigsawGenerate {
    /// The payload bytes this packet writes.
    pub open spec fn payload_spec(&self) -> Seq<u8> {
        self.ignored_data@
    }

    /// Whether this packet is what a reader makes of `s`.
    pub open spec fn payload_matches(&self, s: Seq<u8>) -> bool {
        self.ignored_data@ == s
    }

    /// Writes the payload fields in wire order.
    pub fn encode(&self, enc: &mut Encoder)
        ensures
            final(enc).bytes() == old(enc).bytes() + self.payload_spec(),
    {
        enc.write_slice(self.ignored_data.as_slice());
    }

    /// Reads the payload: the rest of the frame.
    pub fn decode(dec: &mut Decoder<'_>) -> (r: JigsawGenerate)
        ensures
            r.payload_matches(old(dec).remaining()),
        {
        JigsawGenerate { ignored_data: dec.read_rest() }
    }
}

/// `KeepAlive` packet; its payload is carried through opaquely.
#[derive(Debug)]
pub struct KeepAlive {
    pub ignored_data: Vec<u8>,
}

impl KeepAlive {
    /// The payload bytes this packet writes.
    pub open spec fn payload_spec(&self) -> Seq<u8> {
        self.ignored_data@
    }

    /// Whether this packet is what a reader makes of `s`.
    pub open spec fn payload_matches(&self, s: Seq<u8>) -> bool {
        self.ignored_data@ == s
    }

    /// Writes the payload fields in wire order.
    pub fn encode(&self, enc: &mut Encoder)
        ensures
            final(enc).bytes() == old(enc).bytes() + self.payload_spec(),
    {
        enc.write_slice(self.ignored_data.as_slice());
    }

    /// Reads the payload: the rest of the frame.
    pub fn decode(dec: &mut Decoder<'_>) -> (r: KeepAlive)
        ensures
            r.payload_matches(old(dec).remaining()),
        {
        KeepAlive { ignored_data: dec.read_rest() }
    }
}

/// `LockDifficulty` packet; its payload is carried through opaquely.
#[derive(Debug)]
pub struct LockDifficulty {
    pub ignored_data: Vec<u8>,
}

impl LockDifficulty {
    /// The payload bytes this packet writes.
    pub open spec fn payload_spec(&self) -> Seq<u8> {
        self.ignored_data@
    }

    /// Whether this packet is what a reader makes of `s`.
    pub open spec fn payload_matches(&self, s: Seq<u8>) -> bool {
        self.ignored_data@ == s
    }

    /// Writes the payload fields in wire order.
    pub fn encode(&self, enc: &mut Encoder)
        ensures
            final(enc).bytes() == old(enc).bytes() + self.payload_spec(),
    {
        enc.write_slice(self.ignored_data.as_slice());
    }

    /// Reads the payload: the rest of the frame.
    pub fn decode(dec: &mut Decoder<'_>) -> (r: LockDifficulty)
        ensures
            r.payload_matches(old(dec).remaining()),
        {
        LockDifficulty { ignored_data: dec.read_rest() }
    }
}

/// `SetPlayerPosition` packet; its payload is carried through opaquely.
#[derive(Debug)]
pub struct SetPlayerPosition {
    pub ignored_data: Vec<u8>,
}

impl SetPlayerPosition {
    /// The payload bytes this packet writes.
    pub open spec fn payload_spec(&self) -> Seq<u8> {
        self.ignored_data@
    }

    /// Whether this packet is what a reader makes of `s`.
    pub open spec fn payload_matches(&self, s: Seq<u8>) -> bool {
        self.ignored_data@ == s
    }

    /// Writes the payload fields in wire order.
    pub fn encode(&self, enc: &mut Encoder)
        ensures
            final(enc).bytes() == old(enc).bytes() + self.payload_spec(),
    {
        enc.write_slice(self.ignored_data.as_slice());
    }

    /// Reads the payload: the rest of the frame.
    pub fn decode(dec: &mut Decoder<'_>) -> (r: SetPlayerPosition)
        ensures
            r.payload_matches(old(dec).remaining()),
        {
        SetPlayerPosition { ignored_data: dec.read_rest() }
    }
}

/// `SetPlayerPositionAndRotation` packet; its payload is carried through opaquely.
#[derive(Debug)]
pub struct SetPlayerPositionAndRotation {
    pub ignored_data: Vec<u8>,
}

impl SetPlayerPositionAndRotation {
    /// The payload bytes this packet writes.
    pub open spec fn payload_spec(&self) -> Seq<u8> {
        self.ignored_data@
    }

    /// Whether this packet is what a reader makes of `s`.
    pub open spec fn payload_matches(&self, s: Seq<u8>) -> bool {
        self.ignored_data@ == s
    }

    /// Writes the payload fields in wire order.
    pub fn encode(&self, enc: &mut Encoder)
        ensures
            final(enc).bytes() == old(enc).bytes() + self.payload_spec(),
    {
        enc.write_slice(self.ignored_data.as_slice());
    }

    /// Reads the payload: the rest of the frame.
    pub fn decode(dec: &mut Decoder<'_>) -> (r: SetPlayerPositionAndRotation)
        ensures
            r.payload_matches(old(dec).remaining()),
        {
        SetPlayerPositionAndRotation { ignored_data: dec.read_rest() }
    }
}

/// `SetPlayerRotation` packet; its payload is carried through opaquely.
#[derive(Debug)]
pub struct SetPlayerRotation {
    pub ignored_data: Vec<u8>,
}

impl SetPlayerRotation {
    /// The payload bytes this packet writes.
    pub open spec fn payload_spec(&self) -> Seq<u8> {
        self.ignored_data@
    }

    /// Whether this packet is what a reader makes of `s`.
    pub open spec fn payload_matches(&self, s: Seq<u8>) -> bool {
        self.ignored_data@ == s
    }

    /// Writes the payload fields in wire order.
    pub fn encode(&self, enc: &mut Encoder)
        ensures
            final(enc).bytes() == old(enc).bytes() + self.payload_spec(),
    {
        enc.write_slice(self.ignored_data.as_slice());
    }

    /// Reads the payload: the rest of the frame.
    pub fn decode(dec: &mut Decoder<'_>) -> (r: SetPlayerRotation)
        ensures
            r.payload_matches(old(dec).remaining()),
        {
        SetPlayerRotation { ignored_data: dec.read_rest() }
    }
}

/// `SetPlayerOnGround` packet; its payload is carried through opaquely.
#[derive(Debug)]
pub struct SetPlayerOnGround {
    pub ignored_data: Vec<u8>,
}

impl SetPlayerOnGround {
    /// The payload bytes this packet writes.
    pub open spec fn payload_spec(&self) -> Seq<u8> {
        self.ignored_data@
    }

    /// Whether this packet is what a reader makes of `s`.
    pub open spec fn payload_matches(&self, s: Seq<u8>) -> bool {
        self.ignored_data@ == s
    }

    /// Writes the payload fields in wire order.
    pub fn encode(&self, enc: &mut Encoder)
        ensures
            final(enc).bytes() == old(enc).bytes() + self.payload_spec(),
    {
        enc.write_slice(self.ignored_data.as_slice());
    }

    /// Reads the payload: the rest of the frame.
    pub fn decode(dec: &mut Decoder<'_>) -> (r: SetPlayerOnGround)
        ensures
            r.payload_matches(old(dec).remaining()),
        {
        SetPlayerOnGround { ignored_data: dec.read_rest() }
    }
}

/// `MoveVehicle` packet; its payload is carried through opaquely.
#[derive(Debug)]
pub struct MoveVehicle {
    pub ignored_data: Vec<u8>,
}

impl MoveVehicle {
    /// The payload bytes this packet writes.
    pub open spec fn payload_spec(&self) -> Seq<u8> {
        self.ignored_data@
    }

    /// Whether this packet is what a reader makes of `s`.
    pub open spec fn payload_matches(&self, s: Seq<u8>) -> bool {
        self.ignored_data@ == s
    }

    /// Writes the payload fields in wire order.
    pub fn encode(&self, enc: &mut Encoder)
        ensures
            final(enc).bytes() == old(enc).bytes() + self.payload_spec(),
    {
        enc.write_slice(self.ignored_data.as_slice());
    }

    /// Reads the payload: the rest of the frame.
    pub fn decode(dec: &mut Decoder<'_>) -> (r: MoveVehicle)
        ensures
            r.payload_matches(old(dec).remaining()),
        {
        MoveVehicle { ignored_data: dec.read_rest() }
    }
}

/// `PaddleBoat` packet; its payload is carried through opaquely.
#[derive(Debug)]
pub struct PaddleBoat {
    pub ignored_data: Vec<u8>,
}

impl PaddleBoat {
    /// The payload bytes this packet writes.
    pub open spec fn payload_spec(&self) -> Seq<u8> {
        self.ignored_data@
    }

    /// Whether this packet is what a reader makes of `s`.
    pub open spec fn payload_matches(&self, s: Seq<u8>) -> bool {
        self.ignored_data@ == s
    }

    /// Writes the payload fields in wire order.
    pub fn encode(&self, enc: &mut Encoder)
        ensures
            final(enc).bytes() == old(enc).bytes() + self.payload_spec(),
    {
        enc.write_slice(self.ignored_data.as_slice());
    }

    /// Reads the payload: the rest of the frame.
    pub fn decode(dec: &mut Decoder<'_>) -> (r: PaddleBoat)
        ensures
            r.payload_matches(old(dec).remaining()),
        {
        PaddleBoat { ignored_data: dec.read_rest() }
    }
}

/// `PickItem` packet; its payload is carried through opaquely.
#[derive(Debug)]
pub struct PickItem {
    pub ignored_data: Vec<u8>,
}

impl PickItem {
    /// The payload bytes this packet writes.
    pub open spec fn payload_spec(&self) -> Seq<u8> {
        self.ignored_data@
    }

    /// Whether this packet is what a reader makes of `s`.
    pub open spec fn payload_matches(&self, s: Seq<u8>) -> bool {
        self.ignored_data@ == s
    }

    /// Writes the payload fields in wire order.
    pub fn encode(&self, enc: &mut Encoder)
        ensures
            final(enc).bytes() == old(enc).bytes() + self.payload_spec(),
    {
        enc.write_slice(self.ignored_data.as_slice());
    }

    /// Reads the payload: the rest of the frame.
    pub fn decode(dec: &mut Decoder<'_>) -> (r: PickItem)
        ensures
            r.payload_matches(old(dec).remaining()),
        {
        PickItem { ignored_data: dec.read_rest() }
    }
}

/// `PingRequest` packet; its payload is carried through opaquely.
#[derive(Debug)]
pub struct PingRequest {
    pub ignored_data: Vec<u8>,
}

impl PingRequest {
    /// The payload bytes this packet writes.
    pub open spec fn payload_spec(&self) -> Seq<u8> {
        self.ignored_data@
    }

    /// Whether this packet is what a reader makes of `s`.
    pub open spec fn payload_matches(&self, s: Seq<u8>) -> bool {
        self.ignored_data@ == s
    }

    /// Writes the payload fields in wire order.
    pub fn encode(&self, enc: &mut Encoder)
        ensures
            final(enc).bytes() == old(enc).bytes() + self.payload_spec(),
    {
        enc.write_slice(self.ignored_data.as_slice());
    }

    /// Reads the payload: the rest of the frame.
    pub fn decode(dec: &mut Decoder<'_>) -> (r: PingRequest)
        ensures
            r.payload_matches(old(dec).remaining()),
        {
        PingRequest { ignored_data: dec.read_rest() }
    }
}

/// `PlaceRecipe` packet; its payload is carried through opaquely.
#[derive(Debug)]
pub struct PlaceRecipe {
    pub ignored_data: Vec<u8>,
}

impl PlaceRecipe {
    /// The payload bytes this packet writes.
    pub open spec fn payload_spec(&self) -> Seq<u8> {
        self.ignored_data@
    }

    /// Whether this packet is what a reader makes of `s`.
    pub open spec fn payload_matches(&self, s: Seq<u8>) -> bool {
        self.ignored_data@ == s
    }

    /// Writes the payload fields in wire order.
    pub fn encode(&self, enc: &mut Encoder)
        ensures
            final(enc).bytes() == old(enc).bytes() + self.payload_spec(),
    {
        enc.write_slice(self.ignored_data.as_slice());
    }

    /// Reads the payload: the rest of the frame.
    pub fn decode(dec: &mut Decoder<'_>) -> (r: PlaceRecipe)
        ensures
            r.payload_matches(old(dec).remaining()),
        {
        PlaceRecipe { ignored_data: dec.read_rest() }
    }
}

/// `PlayerAbilityState` packet; its payload is carried through opaquely.
#[derive(Debug)]
pub struct PlayerAbilityState {
    pub ignored_data: Vec<u8>,
}

impl PlayerAbilityState {
    /// The payload bytes this packet writes.
    pub open spec fn payload_spec(&self) -> Seq<u8> {
        self.ignored_data@
    }

    /// Whether this packet is what a reader makes of `s`.
    pub open spec fn payload_matches(&self, s: Seq<u8>) -> bool {
        self.ignored_data@ == s
    }

    /// Writes the payload fields in wire order.
    pub fn encode(&self, enc: &mut Encoder)
        ensures
            final(enc).bytes() == old(enc).bytes() + self.payload_spec(),
    {
        enc.write_slice(self.ignored_data.as_slice());
    }

    /// Reads the payload: the rest of the frame.
    pub fn decode(dec: &mut Decoder<'_>) -> (r: PlayerAbilityState)
        ensures
            r.payload_matches(old(dec).remaining()),
        {
        PlayerAbilityState { ignored_data: dec.read_rest() }
    }
}

/// `PlayerAction` packet; its payload is carried through opaquely.
#[derive(Debug)]
pub struct PlayerAction {
    pub ignored_data: Vec<u8>,
}

impl PlayerAction {
    /// The payload bytes this packet writes.
    pub open spec fn payload_spec(&self) -> Seq<u8> {
        self.ignored_data@
    }

    /// Whether this packet is what a reader makes of `s`.
    pub open spec fn payload_matches(&self, s: Seq<u8>) -> bool {
        self.ignored_data@ == s
    }

    /// Writes the payload fields in wire order.
    pub fn encode(&self, enc: &mut Encoder)
        ensures
            final(enc).bytes() == old(enc).bytes() + self.payload_spec(),
    {
        enc.write_slice(self.ignored_data.as_slice());
    }

    /// Reads the payload: the rest of the frame.
    pub fn decode(dec: &mut Decoder<'_>) -> (r: PlayerAction)
        ensures
            r.payload_matches(old(dec).remaining()),
        {
        PlayerAction { ignored_data: dec.read_rest() }
    }
}

/// `PlayerCommand` packet; its payload is carried through opaquely.
#[derive(Debug)]
pub struct PlayerCommand {
    pub ignored_data: Vec<u8>,
}

impl PlayerCommand {
    /// The payload bytes this packet writes.
    pub open spec fn payload_spec(&self) -> Seq<u8> {
        self.ignored_data@
    }

    /// Whether this packet is what a reader makes of `s`.
    pub open spec fn payload_matches(&self, s: Seq<u8>) -> bool {
        self.ignored_data@ == s
    }

    /// Writes the payload fields in wire order.
    pub fn encode(&self, enc: &mut Encoder)
        ensures
            final(enc).bytes() == old(enc).bytes() + self.payload_spec(),
    {
        enc.write_slice(self.ignored_data.as_slice());
    }

    /// Reads the payload: the rest of the frame.
    pub fn decode(dec: &mut Decoder<'_>) -> (r: PlayerCommand)
        ensures
            r.payload_matches(old(dec).remaining()),
        {
        PlayerCommand { ignored_data: dec.read_rest() }
    }
}

/// `PlayerInput` packet; its payload is carried through opaquely.
#[derive(Debug)]
pub struct PlayerInput {
    pub ignored_data: Vec<u8>,
}

impl PlayerInput {
    /// The payload bytes this packet writes.
    pub open spec fn payload_spec(&self) -> Seq<u8> {
        self.ignored_data@
    }

    /// Whether this packet is what a reader makes of `s`.
    pub open spec fn payload_matches(&self, s: Seq<u8>) -> bool {
        self.ignored_data@ == s
    }

    /// Writes the payload fields in wire order.
    pub fn encode(&self, enc: &mut Encoder)
        ensures
            final(enc).bytes() == old(enc).bytes() + self.payload_spec(),
    {
        enc.write_slice(self.ignored_data.as_slice());
    }

    /// Reads the payload: the rest of the frame.
    pub fn decode(dec: &mut Decoder<'_>) -> (r: PlayerInput)
        ensures
            r.payload_matches(old(dec).remaining()),
        {
        PlayerInput { ignored_data: dec.read_rest() }
    }
}

/// `Pong` packet; its payload is carried through opaquely.
#[derive(Debug)]
pub struct Pong {
    pub ignored_data: Vec<u8>,
}

impl Pong {
    /// The payload bytes this packet writes.
    pub open spec fn payload_spec(&self) -> Seq<u8> {
        self.ignored_data@
    }

    /// Whether this packet is what a reader makes of `s`.
    pub open spec fn payload_matches(&self, s: Seq<u8>) -> bool {
        self.ignored_data@ == s
    }

    /// Writes the payload fields in wire order.
    pub fn encode(&self, enc: &mut Encoder)
        ensures
            final(enc).bytes() == old(enc).bytes() + self.payload_spec(),
    {
        enc.write_slice(self.ignored_data.as_slice());
    }

    /// Reads the payload: the rest of the frame.
    pub fn decode(dec: &mut Decoder<'_>) -> (r: Pong)
        ensures
            r.payload_matches(old(dec).remaining()),
        {
        Pong { ignored_data: dec.read_rest() }
    }
}

/// `ChangeRecipeBookSettings` packet; its payload is carried through opaquely.
#[derive(Debug)]
pub struct ChangeRecipeBookSettings {
    pub ignored_data: Vec<u8>,
}

impl ChangeRecipeBookSettings {
    /// The payload bytes this packet writes.
    pub open spec fn payload_spec(&self) -> Seq<u8> {
        self.ignored_data@
    }

    /// Whether this packet is what a reader makes of `s`.
    pub open spec fn payload_matches(&self, s: Seq<u8>) -> bool {
        self.ignored_data@ == s
    }

    /// Writes the payload fields in wire order.
    pub fn encode(&self, enc: &mut Encoder)
        ensures
            final(enc).bytes() == old(enc).bytes() + self.payload_spec(),
    {
        enc.write_slice(self.ignored_data.as_slice());
    }

    /// Reads the payload: the rest of the frame.
    pub fn decode(dec: &mut Decoder<'_>) -> (r: ChangeRecipeBookSettings)
        ensures
            r.payload_matches(old(dec).remaining()),
        {
        ChangeRecipeBookSettings { ignored_data: dec.read_rest() }
    }
}

/// `SetSeenRecipe` packet; its payload is carried through opaquely.
#[derive(Debug)]
pub struct SetSeenRecipe {
    pub ignored_data: Vec<u8>,
}

impl SetSeenRecipe {
    /// The payload bytes this packet writes.
    pub open spec fn payload_spec(&self) -> Seq<u8> {
        self.ignored_data@
    }

    /// Whether this packet is what a reader makes of `s`.
    pub open spec fn payload_matches(&self, s: Seq<u8>) -> bool {
        self.ignored_data@ == s
    }

    /// Writes the payload fields in wire order.
    pub fn encode(&self, enc: &mut Encoder)
        ensures
            final(enc).bytes() == old(enc).bytes() + self.payload_spec(),
    {
        enc.write_slice(self.ignored_data.as_slice());
    }

    /// Reads the payload: the rest of the frame.
    pub fn decode(dec: &mut Decoder<'_>) -> (r: SetSeenRecipe)
        ensures
            r.payload_matches(old(dec).remaining()),
        {
        SetSeenRecipe { ignored_data: dec.read_rest() }
    }
}

/// `RenameItem` packet; its payload is carried through opaquely.
#[derive(Debug)]
pub struct RenameItem {
    pub ignored_data: Vec<u8>,
}

impl RenameItem {
    /// The payload bytes this packet writes.
    pub open spec fn payload_spec(&self) -> Seq<u8> {
        self.ignored_data@
    }

    /// Whether this packet is what a reader makes of `s`.
    pub open spec fn payload_matches(&self, s: Seq<u8>) -> bool {
        self.ignored_data@ == s
    }

    /// Writes the payload fields in wire order.
    pub fn encode(&self, enc: &mut Encoder)
        ensures
            final(enc).bytes() == old(enc).bytes() + self.payload_spec(),
    {
        enc.write_slice(self.ignored_data.as_slice());
    }

    /// Reads the payload: the rest of the frame.
    pub fn decode(dec: &mut Decoder<'_>) -> (r: RenameItem)
        ensures
            r.payload_matches(old(dec).remaining()),
        {
        RenameItem { ignored_data: dec.read_rest() }
    }
}

/// `ResourcePackResponse` packet; its payload is carried through opaquely.
#[derive(Debug)]
pub struct ResourcePackResponse {
    pub ignored_data: Vec<u8>,
}

impl ResourcePackResponse {
    /// The payload bytes this packet writes.
    pub open spec fn payload_spec(&self) -> Seq<u8> {
        self.ignored_data@
    }

    /// Whether this packet is what a reader makes of `s`.
    pub open spec fn payload_matches(&self, s: Seq<u8>) -> bool {
        self.ignored_data@ == s
    }

    /// Writes the payload fields in wire order.
    pub fn encode(&self, enc: &mut Encoder)
        ensures
            final(enc).bytes() == old(enc).bytes() + self.payload_spec(),
    {
        enc.write_slice(self.ignored_data.as_slice());
    }

    /// Reads the payload: the rest of the frame.
    pub fn decode(dec: &mut Decoder<'_>) -> (r: ResourcePackResponse)
        ensures
            r.payload_matches(old(dec).remaining()),
        {
        ResourcePackResponse { ignored_data: dec.read_rest() }
    }
}

/// `SeenAdvancements` packet; its payload is carried through opaquely.
#[derive(Debug)]
pub struct SeenAdvancements {
    pub ignored_data: Vec<u8>,
}

impl SeenAdvancements {
    /// The payload bytes this packet writes.
    pub open spec fn payload_spec(&self) -> Seq<u8> {
        self.ignored_data@
    }

    /// Whether this packet is what a reader makes of `s`.
    pub open spec fn payload_matches(&self, s: Seq<u8>) -> bool {
        self.ignored_data@ == s
    }

    /// Writes the payload fields in wire order.
    pub fn encode(&self, enc: &mut Encoder)
        ensures
            final(enc).bytes() == old(enc).bytes() + self.payload_spec(),
    {
        enc.write_slice(self.ignored_data.as_slice());
    }

    /// Reads the payload: the rest of the frame.
    pub fn decode(dec: &mut Decoder<'_>) -> (r: SeenAdvancements)
        ensures
            r.payload_matches(old(dec).remaining()),
        {
        SeenAdvancements { ignored_data: dec.read_rest() }
    }
}

/// `SelectTrade` packet; its payload is carried through opaquely.
#[derive(Debug)]
pub struct SelectTrade {
    pub ignored_data: Vec<u8>,
}

impl SelectTrade {
    /// The payload bytes this packet writes.
    pub open spec fn payload_spec(&self) -> Seq<u8> {
        self.ignored_data@
    }

    /// Whether this packet is what a reader makes of `s`.
    pub open spec fn payload_matches(&self, s: Seq<u8>) -> bool {
        self.ignored_data@ == s
    }

    /// Writes the payload fields in wire order.
    pub fn encode(&self, enc: &mut Encoder)
        ensures
            final(enc).bytes() == old(enc).bytes() + self.payload_spec(),
    {
        enc.write_slice(self.ignored_data.as_slice());
    }

    /// Reads the payload: the rest of the frame.
    pub fn decode(dec: &mut Decoder<'_>) -> (r: SelectTrade)
        ensures
            r.payload_matches(old(dec).remaining()),
        {
        SelectTrade { ignored_data: dec.read_rest() }
    }
}

/// `SetBeaconEffect` packet; its payload is carried through opaquely.
#[derive(Debug)]
pub struct SetBeaconEffect {
    pub ignored_data: Vec<u8>,
}

impl SetBeaconEffect {
    /// The payload bytes this packet writes.
    pub open spec fn payload_spec(&self) -> Seq<u8> {
        self.ignored_data@
    }

    /// Whether this packet is what a reader makes of `s`.
    pub open spec fn payload_matches(&self, s: Seq<u8>) -> bool {
        self.ignored_data@ == s
    }

    /// Writes the payload fields in wire order.
    pub fn encode(&self, enc: &mut Encoder)
        ensures
            final(enc).bytes() == old(enc).bytes() + self.payload_spec(),
    {
        enc.write_slice(self.ignored_data.as_slice());
    }

    /// Reads the payload: the rest of the frame.
    pub fn decode(dec: &mut Decoder<'_>) -> (r: SetBeaconEffect)
        ensures
            r.payload_matches(old(dec).remaining()),
        {
        SetBeaconEffect { ignored_data: dec.read_rest() }
    }
}

/// `SetHeldItem` packet; its payload is carried through opaquely.
#[derive(Debug)]
pub struct SetHeldItem {
    pub ignored_data: Vec<u8>,
}

impl SetHeldItem {
    /// The payload bytes this packet writes.
    pub open spec fn payload_spec(&self) -> Seq<u8> {
        self.ignored_data@
    }

    /// Whether this packet is what a reader makes of `s`.
    pub open spec fn payload_matches(&self, s: Seq<u8>) -> bool {
        self.ignored_data@ == s
    }

    /// Writes the payload fields in wire order.
    pub fn encode(&self, enc: &mut Encoder)
        ensures
            final(enc).bytes() == old(enc).bytes() + self.payload_spec(),
    {
        enc.write_slice(self.ignored_data.as_slice());
    }

    /// Reads the payload: the rest of the frame.
    pub fn decode(dec: &mut Decoder<'_>) -> (r: SetHeldItem)
        ensures
            r.payload_matches(old(dec).remaining()),
        {
        SetHeldItem { ignored_data: dec.read_rest() }
    }
}

/// `ProgramCommandBlock` packet; its payload is carried through opaquely.
#[derive(Debug)]
pub struct ProgramCommandBlock {
    pub ignored_data: Vec<u8>,
}

impl ProgramCommandBlock {
    /// The payload bytes this packet writes.
    pub open spec fn payload_spec(&self) -> Seq<u8> {
        self.ignored_data@
    }

    /// Whether this packet is what a reader makes of `s`.
    pub open spec fn payload_matches(&self, s: Seq<u8>) -> bool {
        self.ignored_data@ == s
    }

    /// Writes the payload fields in wire order.
    pub fn encode(&self, enc: &mut Encoder)
        ensures
            final(enc).bytes() == old(enc).bytes() + self.payload_spec(),
    {
        enc.write_slice(self.ignored_data.as_slice());
    }

    /// Reads the payload: the rest of the frame.
    pub fn decode(dec: &mut Decoder<'_>) -> (r: ProgramCommandBlock)
        ensures
            r.payload_matches(old(dec).remaining()),
        {
        ProgramCommandBlock { ignored_data: dec.read_rest() }
    }
}

/// `ProgramCommandBlockMinecart` packet; its payload is carried through opaquely.
#[derive(Debug)]
pub struct ProgramCommandBlockMinecart {
    pub ignored_data: Vec<u8>,
}

impl ProgramCommandBlockMinecart {
    /// The payload bytes this packet writes.
    pub open spec fn payload_spec(&self) -> Seq<u8> {
        self.ignored_data@
    }

    /// Whether this packet is what a reader makes of `s`.
    pub open spec fn payload_matches(&self, s: Seq<u8>) -> bool {
        self.ignored_data@ == s
    }

    /// Writes the payload fields in wire order.
    pub fn encode(&self, enc: &mut Encoder)
        ensures
            final(enc).bytes() == old(enc).bytes() + self.payload_spec(),
    {
        enc.write_slice(self.ignored_data.as_slice());
    }

    /// Reads the payload: the rest of the frame.
    pub fn decode(dec: &mut Decoder<'_>) -> (r: ProgramCommandBlockMinecart)
        ensures
            r.payload_matches(old(dec).remaining()),
        {
        ProgramCommandBlockMinecart { ignored_data: dec.read_rest() }
    }
}

/// `SetCreativeModeSlot` packet; its payload is carried through opaquely.
#[derive(Debug)]
pub struct SetCreativeModeSlot {
    pub ignored_data: Vec<u8>,
}

impl SetCreativeModeSlot {
    /// The payload bytes this packet writes.
    pub open spec fn payload_spec(&self) -> Seq<u8> {
        self.ignored_data@
    }

    /// Whether this packet is what a reader makes of `s`.
    pub open spec fn payload_matches(&self, s: Seq<u8>) -> bool {
        self.ignored_data@ == s
    }

    /// Writes the payload fields in wire order.
    pub fn encode(&self, enc: &mut Encoder)
        ensures
            final(enc).bytes() == old(enc).bytes() + self.payload_spec(),
    {
        enc.write_slice(self.ignored_data.as_slice());
    }

    /// Reads the payload: the rest of the frame.
    pub fn decode(dec: &mut Decoder<'_>) -> (r: SetCreativeModeSlot)
        ensures
            r.payload_matches(old(dec).remaining()),
        {
        SetCreativeModeSlot { ignored_data: dec.read_rest() }
    }
}

/// `ProgramJigsawBlock` packet; its payload is carried through opaquely.
#[derive(Debug)]
pub struct ProgramJigsawBlock {
    pub ignored_data: Vec<u8>,
}

impl ProgramJigsawBlock {
    /// The payload bytes this packet writes.
    pub open spec fn payload_spec(&self) -> Seq<u8> {
        self.ignored_data@
    }

    /// Whether this packet is what a reader makes of `s`.
    pub open spec fn payload_matches(&self, s: Seq<u8>) -> bool {
        self.ignored_data@ == s
    }

    /// Writes the payload fields in wire order.
    pub fn encode(&self, enc: &mut Encoder)
        ensures
            final(enc).bytes() == old(enc).bytes() + self.payload_spec(),
    {
        enc.write_slice(self.ignored_data.as_slice());
    }

    /// Reads the payload: the rest of the frame.
    pub fn decode(dec: &mut Decoder<'_>) -> (r: ProgramJigsawBlock)
        ensures
            r.payload_matches(old(dec).remaining()),
        {
        ProgramJigsawBlock { ignored_data: dec.read_rest() }
    }
}

/// `ProgramStructureBlock` packet; its payload is carried through opaquely.
#[derive(Debug)]
pub struct ProgramStructureBlock {
    pub ignored_data: Vec<u8>,
}

impl ProgramStructureBlock {
    /// The payload bytes this packet writes.
    pub open spec fn payload_spec(&self) -> Seq<u8> {
        self.ignored_data@
    }

    /// Whether this packet is what a reader makes of `s`.
    pub open spec fn payload_matches(&self, s: Seq<u8>) -> bool {
        self.ignored_data@ == s
    }

    /// Writes the payload fields in wire order.
    pub fn encode(&self, enc: &mut Encoder)
        ensures
            final(enc).bytes() == old(enc).bytes() + self.payload_spec(),
    {
        enc.write_slice(self.ignored_data.as_slice());
    }

    /// Reads the payload: the rest of the frame.
    pub fn decode(dec: &mut Decoder<'_>) -> (r: ProgramStructureBlock)
        ensures
            r.payload_matches(old(dec).remaining()),
        {
        ProgramStructureBlock { ignored_data: dec.read_rest() }
    }
}

/// `UpdateSign` packet; its payload is carried through opaquely.
#[derive(Debug)]
pub struct UpdateSign {
    pub ignored_data: Vec<u8>,
}

impl UpdateSign {
    /// The payload bytes this packet writes.
    pub open spec fn payload_spec(&self) -> Seq<u8> {
        self.ignored_data@
    }

    /// Whether this packet is what a reader makes of `s`.
    pub open spec fn payload_matches(&self, s: Seq<u8>) -> bool {
        self.ignored_data@ == s
    }

    /// Writes the payload fields in wire order.
    pub fn encode(&self, enc: &mut Encoder)
        ensures
            final(enc).bytes() == old(enc).bytes() + self.payload_spec(),
    {
        enc.write_slice(self.ignored_data.as_slice());
    }

    /// Reads the payload: the rest of the frame.
    pub fn decode(dec: &mut Decoder<'_>) -> (r: UpdateSign)
        ensures
            r.payload_matches(old(dec).remaining()),
        {
        UpdateSign { ignored_data: dec.read_rest() }
    }
}

/// `SwingArm` packet; its payload is carried through opaquely.
#[derive(Debug)]
pub struct SwingArm {
    pub ignored_data: Vec<u8>,
}

impl SwingArm {
    /// The payload bytes this packet writes.
    pub open spec fn payload_spec(&self) -> Seq<u8> {
        self.ignored_data@
    }

    /// Whether this packet is what a reader makes of `s`.
    pub open spec fn payload_matches(&self, s: Seq<u8>) -> bool {
        self.ignored_data@ == s
    }

    /// Writes the payload fields in wire order.
    pub fn encode(&self, enc: &mut Encoder)
        ensures
            final(enc).bytes() == old(enc).bytes() + self.payload_spec(),
    {
        enc.write_slice(self.ignored_data.as_slice());
    }

    /// Reads the payload: the rest of the frame.
    pub fn decode(dec: &mut Decoder<'_>) -> (r: SwingArm)
        ensures
            r.payload_matches(old(dec).remaining()),
        {
        SwingArm { ignored_data: dec.read_rest() }
    }
}

/// `SpectatorTeleportToEntity` packet; its payload is carried through opaquely.
#[derive(Debug)]
pub struct SpectatorTeleportToEntity {
    pub ignored_data: Vec<u8>,
}

impl SpectatorTeleportToEntity {
    /// The payload bytes this packet writes.
    pub open spec fn payload_spec(&self) -> Seq<u8> {
        self.ignored_data@
    }

    /// Whether this packet is what a reader makes of `s`.
    pub open spec fn payload_matches(&self, s: Seq<u8>) -> bool {
        self.ignored_data@ == s
    }

    /// Writes the payload fields in wire order.
    pub fn encode(&self, enc: &mut Encoder)
        ensures
            final(enc).bytes() == old(enc).bytes() + self.payload_spec(),
    {
        enc.write_slice(self.ignored_data.as_slice());
    }

    /// Reads the payload: the rest of the frame.
    pub fn decode(dec: &mut Decoder<'_>) -> (r: SpectatorTeleportToEntity)
        ensures
            r.payload_matches(old(dec).remaining()),
        {
        SpectatorTeleportToEntity { ignored_data: dec.read_rest() }
    }
}

/// `UseItemOn` packet; its payload is carried through opaquely.
#[derive(Debug)]
pub struct UseItemOn {
    pub ignored_data: Vec<u8>,
}

impl UseItemOn {
    /// The payload bytes this packet writes.
    pub open spec fn payload_spec(&self) -> Seq<u8> {
        self.ignored_data@
    }

    /// Whether this packet is what a reader makes of `s`.
    pub open spec fn payload_matches(&self, s: Seq<u8>) -> bool {
        self.ignored_data@ == s
    }

    /// Writes the payload fields in wire order.
    pub fn encode(&self, enc: &mut Encoder)
        ensures
            final(enc).bytes() == old(enc).bytes() + self.payload_spec(),
    {
        enc.write_slice(self.ignored_data.as_slice());
    }

    /// Reads the payload: the rest of the frame.
    pub fn decode(dec: &mut Decoder<'_>) -> (r: UseItemOn)
        ensures
            r.payload_matches(old(dec).remaining()),
        {
        UseItemOn { ignored_data: dec.read_rest() }
    }
}

/// `UseItem` packet; its payload is carried through opaquely.
#[derive(Debug)]
pub struct UseItem {
    pub ignored_data: Vec<u8>,
}

impl UseItem {
    /// The payload bytes this packet writes.
    pub open spec fn payload_spec(&self) -> Seq<u8> {
        self.ignored_data@
    }

    /// Whether this packet is what a reader makes of `s`.
    pub open spec fn payload_matches(&self, s: Seq<u8>) -> bool {
        self.ignored_data@ == s
    }

    /// Writes the payload fields in wire order.
    pub fn encode(&self, enc: &mut Encoder)
        ensures
            final(enc).bytes() == old(enc).bytes() + self.payload_spec(),
    {
        enc.write_slice(self.ignored_data.as_slice());
    }

    /// Reads the payload: the rest of the frame.
    pub fn decode(dec: &mut Decoder<'_>) -> (r: UseItem)
        ensures
            r.payload_matches(old(dec).remaining()),
        {
        UseItem { ignored_data: dec.read_rest() }
    }
}

/// Client-to-server packets of the Play state.
#[derive(Debug)]
pub enum Packet {
    ConfirmTeleportation(ConfirmTeleportation),
    QueryBlockEntityTag(QueryBlockEntityTag),
    ChangeDifficulty(ChangeDifficulty),
    AcknowledgeMessage(AcknowledgeMessage),
    ChatCommand(ChatCommand),
    ChatMessage(ChatMessage),
    PlayerSession(PlayerSession),
    ChunkBatchReceived(ChunkBatchReceived),
    ClientStatus(ClientStatus),
    ClientInformation(ClientInformation),
    RequestCommandSuggestions(RequestCommandSuggestions),
    AcknowledgeConfiguration(AcknowledgeConfiguration),
    ClickContainerButton(ClickContainerButton),
    ClickContainer(ClickContainer),
    CloseContainer(CloseContainer),
    ChangeContainerSlotState(ChangeContainerSlotState),
    PluginMessage(PluginMessage),
    EditBook(EditBook),
    QueryEntityTag(QueryEntityTag),
    Interact(Interact),
    JigsawGenerate(JigsawGenerate),
    KeepAlive(KeepAlive),
    LockDifficulty(LockDifficulty),
    SetPlayerPosition(SetPlayerPosition),
    SetPlayerPositionAndRotation(SetPlayerPositionAndRotation),
    SetPlayerRotation(SetPlayerRotation),
    SetPlayerOnGround(SetPlayerOnGround),
    MoveVehicle(MoveVehicle),
    PaddleBoat(PaddleBoat),
    PickItem(PickItem),
    PingRequest(PingRequest),
    PlaceRecipe(PlaceRecipe),
    PlayerAbilityState(PlayerAbilityState),
    PlayerAction(PlayerAction),
    PlayerCommand(PlayerCommand),
    PlayerInput(PlayerInput),
    Pong(Pong),
    ChangeRecipeBookSettings(ChangeRecipeBookSettings),
    SetSeenRecipe(SetSeenRecipe),
    RenameItem(RenameItem),
    ResourcePackResponse(ResourcePackResponse),
    SeenAdvancements(SeenAdvancements),
    SelectTrade(SelectTrade),
    SetBeaconEffect(SetBeaconEffect),
    SetHeldItem(SetHeldItem),
    ProgramCommandBlock(ProgramCommandBlock),
    ProgramCommandBlockMinecart(ProgramCommandBlockMinecart),
    SetCreativeModeSlot(SetCreativeModeSlot),
    ProgramJigsawBlock(ProgramJigsawBlock),
    ProgramStructureBlock(ProgramStructureBlock),
    UpdateSign(UpdateSign),
    SwingArm(SwingArm),
    SpectatorTeleportToEntity(SpectatorTeleportToEntity),
    UseItemOn(UseItemOn),
    UseItem(UseItem),
}

impl Packet {
    /// The VarInt discriminant of this packet on the wire.
    pub open spec fn wire_id(&self) -> u32 {
        match self {
            Packet::ConfirmTeleportation(_) => 0x0,
            Packet::QueryBlockEntityTag(_) => 0x1,
            Packet::ChangeDifficulty(_) => 0x2,
            Packet::AcknowledgeMessage(_) => 0x3,
            Packet::ChatCommand(_) => 0x4,
            Packet::ChatMessage(_) => 0x5,
            Packet::PlayerSession(_) => 0x6,
            Packet::ChunkBatchReceived(_) => 0x7,
            Packet::ClientStatus(_) => 0x8,
            Packet::ClientInformation(_) => 0x9,
            Packet::RequestCommandSuggestions(_) => 0xa,
            Packet::AcknowledgeConfiguration(_) => 0xb,
            Packet::ClickContainerButton(_) => 0xc,
            Packet::ClickContainer(_) => 0xd,
            Packet::CloseContainer(_) => 0xe,
            Packet::ChangeContainerSlotState(_) => 0xf,
            Packet::PluginMessage(_) => 0x10,
            Packet::EditBook(_) => 0x11,
            Packet::QueryEntityTag(_) => 0x12,
            Packet::Interact(_) => 0x13,
            Packet::JigsawGenerate(_) => 0x14,
            Packet::KeepAlive(_) => 0x15,
            Packet::LockDifficulty(_) => 0x16,
            Packet::SetPlayerPosition(_) => 0x17,
            Packet::SetPlayerPositionAndRotation(_) => 0x18,
            Packet::SetPlayerRotation(_) => 0x19,
            Packet::SetPlayerOnGround(_) => 0x1a,
            Packet::MoveVehicle(_) => 0x1b,
            Packet::PaddleBoat(_) => 0x1c,
            Packet::PickItem(_) => 0x1d,
            Packet::PingRequest(_) => 0x1e,
            Packet::PlaceRecipe(_) => 0x1f,
            Packet::PlayerAbilityState(_) => 0x20,
            Packet::PlayerAction(_) => 0x21,
            Packet::PlayerCommand(_) => 0x22,
            Packet::PlayerInput(_) => 0x23,
            Packet::Pong(_) => 0x24,
            Packet::ChangeRecipeBookSettings(_) => 0x25,
            Packet::SetSeenRecipe(_) => 0x26,
            Packet::RenameItem(_) => 0x27,
            Packet::ResourcePackResponse(_) => 0x28,
            Packet::SeenAdvancements(_) => 0x29,
            Packet::SelectTrade(_) => 0x2a,
            Packet::SetBeaconEffect(_) => 0x2b,
            Packet::SetHeldItem(_) => 0x2c,
            Packet::ProgramCommandBlock(_) => 0x2d,
            Packet::ProgramCommandBlockMinecart(_) => 0x2e,
            Packet::SetCreativeModeSlot(_) => 0x2f,
            Packet::ProgramJigsawBlock(_) => 0x30,
            Packet::ProgramStructureBlock(_) => 0x31,
            Packet::UpdateSign(_) => 0x32,
            Packet::SwingArm(_) => 0x33,
            Packet::SpectatorTeleportToEntity(_) => 0x34,
            Packet::UseItemOn(_) => 0x35,
            Packet::UseItem(_) => 0x36,
        }
    }

    /// The payload bytes after the discriminant.
    pub open spec fn payload_spec(&self) -> Seq<u8> {
        match self {
            Packet::ConfirmTeleportation(x) => x.payload_spec(),
            Packet::QueryBlockEntityTag(x) => x.payload_spec(),
            Packet::ChangeDifficulty(x) => x.payload_spec(),
            Packet::AcknowledgeMessage(x) => x.payload_spec(),
            Packet::ChatCommand(x) => x.payload_spec(),
            Packet::ChatMessage(x) => x.payload_spec(),
            Packet::PlayerSession(x) => x.payload_spec(),
            Packet::ChunkBatchReceived(x) => x.payload_spec(),
            Packet::ClientStatus(x) => x.payload_spec(),
            Packet::ClientInformation(x) => x.payload_spec(),
            Packet::RequestCommandSuggestions(x) => x.payload_spec(),
            Packet::AcknowledgeConfiguration(x) => x.payload_spec(),
            Packet::ClickContainerButton(x) => x.payload_spec(),
            Packet::ClickContainer(x) => x.payload_spec(),
            Packet::CloseContainer(x) => x.payload_spec(),
            Packet::ChangeContainerSlotState(x) => x.payload_spec(),
            Packet::PluginMessage(x) => x.payload_spec(),
            Packet::EditBook(x) => x.payload_spec(),
            Packet::QueryEntityTag(x) => x.payload_spec(),
            Packet::Interact(x) => x.payload_spec(),
            Packet::JigsawGenerate(x) => x.payload_spec(),
            Packet::KeepAlive(x) => x.payload_spec(),
            Packet::LockDifficulty(x) => x.payload_spec(),
            Packet::SetPlayerPosition(x) => x.payload_spec(),
            Packet::SetPlayerPositionAndRotation(x) => x.payload_spec(),
            Packet::SetPlayerRotation(x) => x.payload_spec(),
            Packet::SetPlayerOnGround(x) => x.payload_spec(),
            Packet::MoveVehicle(x) => x.payload_spec(),
            Packet::PaddleBoat(x) => x.payload_spec(),
            Packet::PickItem(x) => x.payload_spec(),
            Packet::PingRequest(x) => x.payload_spec(),
            Packet::PlaceRecipe(x) => x.payload_spec(),
            Packet::PlayerAbilityState(x) => x.payload_spec(),
            Packet::PlayerAction(x) => x.payload_spec(),
            Packet::PlayerCommand(x) => x.payload_spec(),
            Packet::PlayerInput(x) => x.payload_spec(),
            Packet::Pong(x) => x.payload_spec(),
            Packet::ChangeRecipeBookSettings(x) => x.payload_spec(),
            Packet::SetSeenRecipe(x) => x.payload_spec(),
            Packet::RenameItem(x) => x.payload_spec(),
            Packet::ResourcePackResponse(x) => x.payload_spec(),
            Packet::SeenAdvancements(x) => x.payload_spec(),
            Packet::SelectTrade(x) => x.payload_spec(),
            Packet::SetBeaconEffect(x) => x.payload_spec(),
            Packet::SetHeldItem(x) => x.payload_spec(),
            Packet::ProgramCommandBlock(x) => x.payload_spec(),
            Packet::ProgramCommandBlockMinecart(x) => x.payload_spec(),
            Packet::SetCreativeModeSlot(x) => x.payload_spec(),
            Packet::ProgramJigsawBlock(x) => x.payload_spec(),
            Packet::ProgramStructureBlock(x) => x.payload_spec(),
            Packet::UpdateSign(x) => x.payload_spec(),
            Packet::SwingArm(x) => x.payload_spec(),
            Packet::SpectatorTeleportToEntity(x) => x.payload_spec(),
            Packet::UseItemOn(x) => x.payload_spec(),
            Packet::UseItem(x) => x.payload_spec(),
        }
    }

    /// The whole wire form: discriminant, then payload.
    pub open spec fn wire_spec(&self) -> Seq<u8> {
        var_int_bytes(self.wire_id()) + self.payload_spec()
    }

    /// Whether this packet is what a reader makes of `s`.
    pub open spec fn matches_wire(&self, s: Seq<u8>) -> bool {
        match parse_var_int(s, 4) {
            None => false,
            Some((id, n)) => id == self.wire_id() && match self {
                Packet::ConfirmTeleportation(x) => x.payload_matches(s.skip(n)),
                Packet::QueryBlockEntityTag(x) => x.payload_matches(s.skip(n)),
                Packet::ChangeDifficulty(x) => x.payload_matches(s.skip(n)),
                Packet::AcknowledgeMessage(x) => x.payload_matches(s.skip(n)),
                Packet::ChatCommand(x) => x.payload_matches(s.skip(n)),
                Packet::ChatMessage(x) => x.payload_matches(s.skip(n)),
                Packet::PlayerSession(x) => x.payload_matches(s.skip(n)),
                Packet::ChunkBatchReceived(x) => x.payload_matches(s.skip(n)),
                Packet::ClientStatus(x) => x.payload_matches(s.skip(n)),
                Packet::ClientInformation(x) => x.payload_matches(s.skip(n)),
                Packet::RequestCommandSuggestions(x) => x.payload_matches(s.skip(n)),
                Packet::AcknowledgeConfiguration(x) => x.payload_matches(s.skip(n)),
                Packet::ClickContainerButton(x) => x.payload_matches(s.skip(n)),
                Packet::ClickContainer(x) => x.payload_matches(s.skip(n)),
                Packet::CloseContainer(x) => x.payload_matches(s.skip(n)),
                Packet::ChangeContainerSlotState(x) => x.payload_matches(s.skip(n)),
                Packet::PluginMessage(x) => x.payload_matches(s.skip(n)),
                Packet::EditBook(x) => x.payload_matches(s.skip(n)),
                Packet::QueryEntityTag(x) => x.payload_matches(s.skip(n)),
                Packet::Interact(x) => x.payload_matches(s.skip(n)),
                Packet::JigsawGenerate(x) => x.payload_matches(s.skip(n)),
                Packet::KeepAlive(x) => x.payload_matches(s.skip(n)),
                Packet::LockDifficulty(x) => x.payload_matches(s.skip(n)),
                Packet::SetPlayerPosition(x) => x.payload_matches(s.skip(n)),
                Packet::SetPlayerPositionAndRotation(x) => x.payload_matches(s.skip(n)),
                Packet::SetPlayerRotation(x) => x.payload_matches(s.skip(n)),
                Packet::SetPlayerOnGround(x) => x.payload_matches(s.skip(n)),
                Packet::MoveVehicle(x) => x.payload_matches(s.skip(n)),
                Packet::PaddleBoat(x) => x.payload_matches(s.skip(n)),
                Packet::PickItem(x) => x.payload_matches(s.skip(n)),
                Packet::PingRequest(x) => x.payload_matches(s.skip(n)),
                Packet::PlaceRecipe(x) => x.payload_matches(s.skip(n)),
                Packet::PlayerAbilityState(x) => x.payload_matches(s.skip(n)),
                Packet::PlayerAction(x) => x.payload_matches(s.skip(n)),
                Packet::PlayerCommand(x) => x.payload_matches(s.skip(n)),
                Packet::PlayerInput(x) => x.payload_matches(s.skip(n)),
                Packet::Pong(x) => x.payload_matches(s.skip(n)),
                Packet::ChangeRecipeBookSettings(x) => x.payload_matches(s.skip(n)),
                Packet::SetSeenRecipe(x) => x.payload_matches(s.skip(n)),
                Packet::RenameItem(x) => x.payload_matches(s.skip(n)),
                Packet::ResourcePackResponse(x) => x.payload_matches(s.skip(n)),
                Packet::SeenAdvancements(x) => x.payload_matches(s.skip(n)),
                Packet::SelectTrade(x) => x.payload_matches(s.skip(n)),
                Packet::SetBeaconEffect(x) => x.payload_matches(s.skip(n)),
                Packet::SetHeldItem(x) => x.payload_matches(s.skip(n)),
                Packet::ProgramCommandBlock(x) => x.payload_matches(s.skip(n)),
                Packet::ProgramCommandBlockMinecart(x) => x.payload_matches(s.skip(n)),
                Packet::SetCreativeModeSlot(x) => x.payload_matches(s.skip(n)),
                Packet::ProgramJigsawBlock(x) => x.payload_matches(s.skip(n)),
                Packet::ProgramStructureBlock(x) => x.payload_matches(s.skip(n)),
                Packet::UpdateSign(x) => x.payload_matches(s.skip(n)),
                Packet::SwingArm(x) => x.payload_matches(s.skip(n)),
                Packet::SpectatorTeleportToEntity(x) => x.payload_matches(s.skip(n)),
                Packet::UseItemOn(x) => x.payload_matches(s.skip(n)),
                Packet::UseItem(x) => x.payload_matches(s.skip(n)),
            },
        }
    }

    /// Whether a reader can make any packet of `s`.
    pub open spec fn wire_parses(s: Seq<u8>) -> bool {
        match parse_var_int(s, 4) {
            None => false,
            Some((id, n)) => {
                let body = s.skip(n);
                if id == 0x0 {
                    true
                } else if id == 0x1 {
                    true
                } else if id == 0x2 {
                    true
                } else if id == 0x3 {
                    true
                } else if id == 0x4 {
                    true
                } else if id == 0x5 {
                    true
                } else if id == 0x6 {
                    true
                } else if id == 0x7 {
                    true
                } else if id == 0x8 {
                    true
                } else if id == 0x9 {
                    true
                } else if id == 0xa {
                    true
                } else if id == 0xb {
                    true
                } else if id == 0xc {
                    true
                } else if id == 0xd {
                    true
                } else if id == 0xe {
                    true
                } else if id == 0xf {
                    true
                } else if id == 0x10 {
                    true
                } else if id == 0x11 {
                    true
                } else if id == 0x12 {
                    true
                } else if id == 0x13 {
                    true
                } else if id == 0x14 {
                    true
                } else if id == 0x15 {
                    true
                } else if id == 0x16 {
                    true
                } else if id == 0x17 {
                    true
                } else if id == 0x18 {
                    true
                } else if id == 0x19 {
                    true
                } else if id == 0x1a {
                    true
                } else if id == 0x1b {
                    true
                } else if id == 0x1c {
                    true
                } else if id == 0x1d {
                    true
                } else if id == 0x1e {
                    true
                } else if id == 0x1f {
                    true
                } else if id == 0x20 {
                    true
                } else if id == 0x21 {
                    true
                } else if id == 0x22 {
                    true
                } else if id == 0x23 {
                    true
                } else if id == 0x24 {
                    true
                } else if id == 0x25 {
                    true
                } else if id == 0x26 {
                    true
                } else if id == 0x27 {
                    true
                } else if id == 0x28 {
                    true
                } else if id == 0x29 {
                    true
                } else if id == 0x2a {
                    true
                } else if id == 0x2b {
                    true
                } else if id == 0x2c {
                    true
                } else if id == 0x2d {
                    true
                } else if id == 0x2e {
                    true
                } else if id == 0x2f {
                    true
                } else if id == 0x30 {
                    true
                } else if id == 0x31 {
                    true
                } else if id == 0x32 {
                    true
                } else if id == 0x33 {
                    true
                } else if id == 0x34 {
                    true
                } else if id == 0x35 {
                    true
                } else if id == 0x36 {
                    true
                } else {
                    false
                }
            },
        }
    }

    /// Writes the discriminant, then the payload.
    #[verifier::rlimit(60)]
    pub fn encode(&self, enc: &mut Encoder)
        ensures
            final(enc).bytes() == old(enc).bytes() + self.wire_spec(),
    {
        match self {
            Packet::ConfirmTeleportation(x) => {
                enc.write_var_int(0x0);
                x.encode(enc);
                proof {
                    assert_seqs_equal!(
                        enc.bytes() == old(enc).bytes() + self.wire_spec()
                    );
                }
            },
            Packet::QueryBlockEntityTag(x) => {
                enc.write_var_int(0x1);
                x.encode(enc);
                proof {
                    assert_seqs_equal!(
                        enc.bytes() == old(enc).bytes() + self.wire_spec()
                    );
                }
            },
            Packet::ChangeDifficulty(x) => {
                enc.write_var_int(0x2);
                x.encode(enc);
                proof {
                    assert_seqs_equal!(
                        enc.bytes() == old(enc).bytes() + self.wire_spec()
                    );
                }
            },
            Packet::AcknowledgeMessage(x) => {
                enc.write_var_int(0x3);
                x.encode(enc);
                proof {
                    assert_seqs_equal!(
                        enc.bytes() == old(enc).bytes() + self.wire_spec()
                    );
                }
            },
            Packet::ChatCommand(x) => {
                enc.write_var_int(0x4);
                x.encode(enc);
                proof {
                    assert_seqs_equal!(
                        enc.bytes() == old(enc).bytes() + self.wire_spec()
                    );
                }
            },
            Packet::ChatMessage(x) => {
                enc.write_var_int(0x5);
                x.encode(enc);
                proof {
                    assert_seqs_equal!(
                        enc.bytes() == old(enc).bytes() + self.wire_spec()
                    );
                }
            },
            Packet::PlayerSession(x) => {
                enc.write_var_int(0x6);
                x.encode(enc);
                proof {
                    assert_seqs_equal!(
                        enc.bytes() == old(enc).bytes() + self.wire_spec()
                    );
                }
            },
            Packet::ChunkBatchReceived(x) => {
                enc.write_var_int(0x7);
                x.encode(enc);
                proof {
                    assert_seqs_equal!(
                        enc.bytes() == old(enc).bytes() + self.wire_spec()
                    );
                }
            },
            Packet::ClientStatus(x) => {
                enc.write_var_int(0x8);
                x.encode(enc);
                proof {
                    assert_seqs_equal!(
                        enc.bytes() == old(enc).bytes() + self.wire_spec()
                    );
                }
            },
            Packet::ClientInformation(x) => {
                enc.write_var_int(0x9);
                x.encode(enc);
                proof {
                    assert_seqs_equal!(
                        enc.bytes() == old(enc).bytes() + self.wire_spec()
                    );
                }
            },
            Packet::RequestCommandSuggestions(x) => {
                enc.write_var_int(0xa);
                x.encode(enc);
                proof {
                    assert_seqs_equal!(
                        enc.bytes() == old(enc).bytes() + self.wire_spec()
                    );
                }
            },
            Packet::AcknowledgeConfiguration(x) => {
                enc.write_var_int(0xb);
                x.encode(enc);
                proof {
                    assert_seqs_equal!(
                        enc.bytes() == old(enc).bytes() + self.wire_spec()
                    );
                }
            },
            Packet::ClickContainerButton(x) => {
                enc.write_var_int(0xc);
                x.encode(enc);
                proof {
                    assert_seqs_equal!(
                        enc.bytes() == old(enc).bytes() + self.wire_spec()
                    );
                }
            },
            Packet::ClickContainer(x) => {
                enc.write_var_int(0xd);
                x.encode(enc);
                proof {
                    assert_seqs_equal!(
                        enc.bytes() == old(enc).bytes() + self.wire_spec()
                    );
                }
            },
            Packet::CloseContainer(x) => {
                enc.write_var_int(0xe);
                x.encode(enc);
                proof {
                    assert_seqs_equal!(
                        enc.bytes() == old(enc).bytes() + self.wire_spec()
                    );
                }
            },
            Packet::ChangeContainerSlotState(x) => {
                enc.write_var_int(0xf);
                x.encode(enc);
                proof {
                    assert_seqs_equal!(
                        enc.bytes() == old(enc).bytes() + self.wire_spec()
                    );
                }
            },
            Packet::PluginMessage(x) => {
                enc.write_var_int(0x10);
                x.encode(enc);
                proof {
                    assert_seqs_equal!(
                        enc.bytes() == old(enc).bytes() + self.wire_spec()
                    );
                }
            },
            Packet::EditBook(x) => {
                enc.write_var_int(0x11);
                x.encode(enc);
                proof {
                    assert_seqs_equal!(
                        enc.bytes() == old(enc).bytes() + self.wire_spec()
                    );
                }
            },
            Packet::QueryEntityTag(x) => {
                enc.write_var_int(0x12);
                x.encode(enc);
                proof {
                    assert_seqs_equal!(
                        enc.bytes() == old(enc).bytes() + self.wire_spec()
                    );
                }
            },
            Packet::Interact(x) => {
                enc.write_var_int(0x13);
                x.encode(enc);
                proof {
                    assert_seqs_equal!(
                        enc.bytes() == old(enc).bytes() + self.wire_spec()
                    );
                }
            },
            Packet::JigsawGenerate(x) => {
                enc.write_var_int(0x14);
                x.encode(enc);
                proof {
                    assert_seqs_equal!(
                        enc.bytes() == old(enc).bytes() + self.wire_spec()
                    );
                }
            },
            Packet::KeepAlive(x) => {
                enc.write_var_int(0x15);
                x.encode(enc);
                proof {
                    assert_seqs_equal!(
                        enc.bytes() == old(enc).bytes() + self.wire_spec()
                    );
                }
            },
            Packet::LockDifficulty(x) => {
                enc.write_var_int(0x16);
                x.encode(enc);
                proof {
                    assert_seqs_equal!(
                        enc.bytes() == old(enc).bytes() + self.wire_spec()
                    );
                }
            },
            Packet::SetPlayerPosition(x) => {
                enc.write_var_int(0x17);
                x.encode(enc);
                proof {
                    assert_seqs_equal!(
                        enc.bytes() == old(enc).bytes() + self.wire_spec()
                    );
                }
            },
            Packet::SetPlayerPositionAndRotation(x) => {
                enc.write_var_int(0x18);
                x.encode(enc);
                proof {
                    assert_seqs_equal!(
                        enc.bytes() == old(enc).bytes() + self.wire_spec()
                    );
                }
            },
            Packet::SetPlayerRotation(x) => {
                enc.write_var_int(0x19);
                x.encode(enc);
                proof {
                    assert_seqs_equal!(
                        enc.bytes() == old(enc).bytes() + self.wire_spec()
                    );
                }
            },
            Packet::SetPlayerOnGround(x) => {
                enc.write_var_int(0x1a);
                x.encode(enc);
                proof {
                    assert_seqs_equal!(
                        enc.bytes() == old(enc).bytes() + self.wire_spec()
                    );
                }
            },
            Packet::MoveVehicle(x) => {
                enc.write_var_int(0x1b);
                x.encode(enc);
                proof {
                    assert_seqs_equal!(
                        enc.bytes() == old(enc).bytes() + self.wire_spec()
                    );
                }
            },
            Packet::PaddleBoat(x) => {
                enc.write_var_int(0x1c);
                x.encode(enc);
                proof {
                    assert_seqs_equal!(
                        enc.bytes() == old(enc).bytes() + self.wire_spec()
                    );
                }
            },
            Packet::PickItem(x) => {
                enc.write_var_int(0x1d);
                x.encode(enc);
                proof {
                    assert_seqs_equal!(
                        enc.bytes() == old(enc).bytes() + self.wire_spec()
                    );
                }
            },
            Packet::PingRequest(x) => {
                enc.write_var_int(0x1e);
                x.encode(enc);
                proof {
                    assert_seqs_equal!(
                        enc.bytes() == old(enc).bytes() + self.wire_spec()
                    );
                }
            },
            Packet::PlaceRecipe(x) => {
                enc.write_var_int(0x1f);
                x.encode(enc);
                proof {
                    assert_seqs_equal!(
                        enc.bytes() == old(enc).bytes() + self.wire_spec()
                    );
                }
            },
            Packet::PlayerAbilityState(x) => {
                enc.write_var_int(0x20);
                x.encode(enc);
                proof {
                    assert_seqs_equal!(
                        enc.bytes() == old(enc).bytes() + self.wire_spec()
                    );
                }
            },
            Packet::PlayerAction(x) => {
                enc.write_var_int(0x21);
                x.encode(enc);
                proof {
                    assert_seqs_equal!(
                        enc.bytes() == old(enc).bytes() + self.wire_spec()
                    );
                }
            },
            Packet::PlayerCommand(x) => {
                enc.write_var_int(0x22);
                x.encode(enc);
                proof {
                    assert_seqs_equal!(
                        enc.bytes() == old(enc).bytes() + self.wire_spec()
                    );
                }
            },
            Packet::PlayerInput(x) => {
                enc.write_var_int(0x23);
                x.encode(enc);
                proof {
                    assert_seqs_equal!(
                        enc.bytes() == old(enc).bytes() + self.wire_spec()
                    );
                }
            },
            Packet::Pong(x) => {
                enc.write_var_int(0x24);
                x.encode(enc);
                proof {
                    assert_seqs_equal!(
                        enc.bytes() == old(enc).bytes() + self.wire_spec()
                    );
                }
            },
            Packet::ChangeRecipeBookSettings(x) => {
                enc.write_var_int(0x25);
                x.encode(enc);
                proof {
                    assert_seqs_equal!(
                        enc.bytes() == old(enc).bytes() + self.wire_spec()
                    );
                }
            },
            Packet::SetSeenRecipe(x) => {
                enc.write_var_int(0x26);
                x.encode(enc);
                proof {
                    assert_seqs_equal!(
                        enc.bytes() == old(enc).bytes() + self.wire_spec()
                    );
                }
            },
            Packet::RenameItem(x) => {
                enc.write_var_int(0x27);
                x.encode(enc);
                proof {
                    assert_seqs_equal!(
                        enc.bytes() == old(enc).bytes() + self.wire_spec()
                    );
                }
            },
            Packet::ResourcePackResponse(x) => {
                enc.write_var_int(0x28);
                x.encode(enc);
                proof {
                    assert_seqs_equal!(
                        enc.bytes() == old(enc).bytes() + self.wire_spec()
                    );
                }
            },
            Packet::SeenAdvancements(x) => {
                enc.write_var_int(0x29);
                x.encode(enc);
                proof {
                    assert_seqs_equal!(
                        enc.bytes() == old(enc).bytes() + self.wire_spec()
                    );
                }
            },
            Packet::SelectTrade(x) => {
                enc.write_var_int(0x2a);
                x.encode(enc);
                proof {
                    assert_seqs_equal!(
                        enc.bytes() == old(enc).bytes() + self.wire_spec()
                    );
                }
            },
            Packet::SetBeaconEffect(x) => {
                enc.write_var_int(0x2b);
                x.encode(enc);
                proof {
                    assert_seqs_equal!(
                        enc.bytes() == old(enc).bytes() + self.wire_spec()
                    );
                }
            },
            Packet::SetHeldItem(x) => {
                enc.write_var_int(0x2c);
                x.encode(enc);
                proof {
                    assert_seqs_equal!(
                        enc.bytes() == old(enc).bytes() + self.wire_spec()
                    );
                }
            },
            Packet::ProgramCommandBlock(x) => {
                enc.write_var_int(0x2d);
                x.encode(enc);
                proof {
                    assert_seqs_equal!(
                        enc.bytes() == old(enc).bytes() + self.wire_spec()
                    );
                }
            },
            Packet::ProgramCommandBlockMinecart(x) => {
                enc.write_var_int(0x2e);
                x.encode(enc);
                proof {
                    assert_seqs_equal!(
                        enc.bytes() == old(enc).bytes() + self.wire_spec()
                    );
                }
            },
            Packet::SetCreativeModeSlot(x) => {
                enc.write_var_int(0x2f);
                x.encode(enc);
                proof {
                    assert_seqs_equal!(
                        enc.bytes() == old(enc).bytes() + self.wire_spec()
                    );
                }
            },
            Packet::ProgramJigsawBlock(x) => {
                enc.write_var_int(0x30);
                x.encode(enc);
                proof {
                    assert_seqs_equal!(
                        enc.bytes() == old(enc).bytes() + self.wire_spec()
                    );
                }
            },
            Packet::ProgramStructureBlock(x) => {
                enc.write_var_int(0x31);
                x.encode(enc);
                proof {
                    assert_seqs_equal!(
                        enc.bytes() == old(enc).bytes() + self.wire_spec()
                    );
                }
            },
            Packet::UpdateSign(x) => {
                enc.write_var_int(0x32);
                x.encode(enc);
                proof {
                    assert_seqs_equal!(
                        enc.bytes() == old(enc).bytes() + self.wire_spec()
                    );
                }
            },
            Packet::SwingArm(x) => {
                enc.write_var_int(0x33);
                x.encode(enc);
                proof {
                    assert_seqs_equal!(
                        enc.bytes() == old(enc).bytes() + self.wire_spec()
                    );
                }
            },
            Packet::SpectatorTeleportToEntity(x) => {
                enc.write_var_int(0x34);
                x.encode(enc);
                proof {
                    assert_seqs_equal!(
                        enc.bytes() == old(enc).bytes() + self.wire_spec()
                    );
                }
            },
            Packet::UseItemOn(x) => {
                enc.write_var_int(0x35);
                x.encode(enc);
                proof {
                    assert_seqs_equal!(
                        enc.bytes() == old(enc).bytes() + self.wire_spec()
                    );
                }
            },
            Packet::UseItem(x) => {
                enc.write_var_int(0x36);
                x.encode(enc);
                proof {
                    assert_seqs_equal!(
                        enc.bytes() == old(enc).bytes() + self.wire_spec()
                    );
                }
            },
        }
    }

    /// Reads the discriminant and dispatches to the variant.
    #[verifier::rlimit(60)]
    pub fn decode(dec: &mut Decoder<'_>) -> (r: Result<Packet, DecodeError>)
        ensures
            match r {
                Ok(p) => {
                    &&& p.matches_wire(old(dec).remaining())
                },
                Err(_) => !Packet::wire_parses(old(dec).remaining()),
            },
    {
        let id = dec.read_var_int()?;
        let uid = id as u32;
        match uid {
            0x0u32 => Ok(Packet::ConfirmTeleportation(ConfirmTeleportation::decode(dec))),
            0x1u32 => Ok(Packet::QueryBlockEntityTag(QueryBlockEntityTag::decode(dec))),
            0x2u32 => Ok(Packet::ChangeDifficulty(ChangeDifficulty::decode(dec))),
            0x3u32 => Ok(Packet::AcknowledgeMessage(AcknowledgeMessage::decode(dec))),
            0x4u32 => Ok(Packet::ChatCommand(ChatCommand::decode(dec))),
            0x5u32 => Ok(Packet::ChatMessage(ChatMessage::decode(dec))),
            0x6u32 => Ok(Packet::PlayerSession(PlayerSession::decode(dec))),
            0x7u32 => Ok(Packet::ChunkBatchReceived(ChunkBatchReceived::decode(dec))),
            0x8u32 => Ok(Packet::ClientStatus(ClientStatus::decode(dec))),
            0x9u32 => Ok(Packet::ClientInformation(ClientInformation::decode(dec))),
            0xau32 => Ok(Packet::RequestCommandSuggestions(RequestCommandSuggestions::decode(dec))),
            0xbu32 => Ok(Packet::AcknowledgeConfiguration(AcknowledgeConfiguration::decode(dec))),
            0xcu32 => Ok(Packet::ClickContainerButton(ClickContainerButton::decode(dec))),
            0xdu32 => Ok(Packet::ClickContainer(ClickContainer::decode(dec))),
            0xeu32 => Ok(Packet::CloseContainer(CloseContainer::decode(dec))),
            0xfu32 => Ok(Packet::ChangeContainerSlotState(ChangeContainerSlotState::decode(dec))),
            0x10u32 => Ok(Packet::PluginMessage(PluginMessage::decode(dec))),
            0x11u32 => Ok(Packet::EditBook(EditBook::decode(dec))),
            0x12u32 => Ok(Packet::QueryEntityTag(QueryEntityTag::decode(dec))),
            0x13u32 => Ok(Packet::Interact(Interact::decode(dec))),
            0x14u32 => Ok(Packet::JigsawGenerate(JigsawGenerate::decode(dec))),
            0x15u32 => Ok(Packet::KeepAlive(KeepAlive::decode(dec))),
            0x16u32 => Ok(Packet::LockDifficulty(LockDifficulty::decode(dec))),
            0x17u32 => Ok(Packet::SetPlayerPosition(SetPlayerPosition::decode(dec))),
            0x18u32 => Ok(Packet::SetPlayerPositionAndRotation(SetPlayerPositionAndRotation::decode(dec))),
            0x19u32 => Ok(Packet::SetPlayerRotation(SetPlayerRotation::decode(dec))),
            0x1au32 => Ok(Packet::SetPlayerOnGround(SetPlayerOnGround::decode(dec))),
            0x1bu32 => Ok(Packet::MoveVehicle(MoveVehicle::decode(dec))),
            0x1cu32 => Ok(Packet::PaddleBoat(PaddleBoat::decode(dec))),
            0x1du32 => Ok(Packet::PickItem(PickItem::decode(dec))),
            0x1eu32 => Ok(Packet::PingRequest(PingRequest::decode(dec))),
            0x1fu32 => Ok(Packet::PlaceRecipe(PlaceRecipe::decode(dec))),
            0x20u32 => Ok(Packet::PlayerAbilityState(PlayerAbilityState::decode(dec))),
            0x21u32 => Ok(Packet::PlayerAction(PlayerAction::decode(dec))),
            0x22u32 => Ok(Packet::PlayerCommand(PlayerCommand::decode(dec))),
            0x23u32 => Ok(Packet::PlayerInput(PlayerInput::decode(dec))),
            0x24u32 => Ok(Packet::Pong(Pong::decode(dec))),
            0x25u32 => Ok(Packet::ChangeRecipeBookSettings(ChangeRecipeBookSettings::decode(dec))),
            0x26u32 => Ok(Packet::SetSeenRecipe(SetSeenRecipe::decode(dec))),
            0x27u32 => Ok(Packet::RenameItem(RenameItem::decode(dec))),
            0x28u32 => Ok(Packet::ResourcePackResponse(ResourcePackResponse::decode(dec))),
            0x29u32 => Ok(Packet::SeenAdvancements(SeenAdvancements::decode(dec))),
            0x2au32 => Ok(Packet::SelectTrade(SelectTrade::decode(dec))),
            0x2bu32 => Ok(Packet::SetBeaconEffect(SetBeaconEffect::decode(dec))),
            0x2cu32 => Ok(Packet::SetHeldItem(SetHeldItem::decode(dec))),
            0x2du32 => Ok(Packet::ProgramCommandBlock(ProgramCommandBlock::decode(dec))),
            0x2eu32 => Ok(Packet::ProgramCommandBlockMinecart(ProgramCommandBlockMinecart::decode(dec))),
            0x2fu32 => Ok(Packet::SetCreativeModeSlot(SetCreativeModeSlot::decode(dec))),
            0x30u32 => Ok(Packet::ProgramJigsawBlock(ProgramJigsawBlock::decode(dec))),
            0x31u32 => Ok(Packet::ProgramStructureBlock(ProgramStructureBlock::decode(dec))),
            0x32u32 => Ok(Packet::UpdateSign(UpdateSign::decode(dec))),
            0x33u32 => Ok(Packet::SwingArm(SwingArm::decode(dec))),
            0x34u32 => Ok(Packet::SpectatorTeleportToEntity(SpectatorTeleportToEntity::decode(dec))),
            0x35u32 => Ok(Packet::UseItemOn(UseItemOn::decode(dec))),
            0x36u32 => Ok(Packet::UseItem(UseItem::decode(dec))),
            _ => Err(DecodeError::UnknownDiscriminant(id as i64)),
        }
    }
}

/// Parsing the wire form of a packet yields that packet back.
#[verifier::rlimit(60)]
pub proof fn lemma_wire_round_trip(p: Packet)
    ensures
        p.matches_wire(p.wire_spec()),
{
    lemma_var_int_bytes_len(p.wire_id());
    lemma_parse_var_int_of_encoding(p.wire_id(), p.payload_spec(), 4);
    assert_seqs_equal!(
        p.wire_spec().skip(var_int_bytes(p.wire_id()).len() as int)
            == p.payload_spec()
    );
    match p {
        Packet::ConfirmTeleportation(_) => {},
        Packet::QueryBlockEntityTag(_) => {},
        Packet::ChangeDifficulty(_) => {},
        Packet::AcknowledgeMessage(_) => {},
        Packet::ChatCommand(_) => {},
        Packet::ChatMessage(_) => {},
        Packet::PlayerSession(_) => {},
        Packet::ChunkBatchReceived(_) => {},
        Packet::ClientStatus(_) => {},
        Packet::ClientInformation(_) => {},
        Packet::RequestCommandSuggestions(_) => {},
        Packet::AcknowledgeConfiguration(_) => {},
        Packet::ClickContainerButton(_) => {},
        Packet::ClickContainer(_) => {},
        Packet::CloseContainer(_) => {},
        Packet::ChangeContainerSlotState(_) => {},
        Packet::PluginMessage(_) => {},
        Packet::EditBook(_) => {},
        Packet::QueryEntityTag(_) => {},
        Packet::Interact(_) => {},
        Packet::JigsawGenerate(_) => {},
        Packet::KeepAlive(_) => {},
        Packet::LockDifficulty(_) => {},
        Packet::SetPlayerPosition(_) => {},
        Packet::SetPlayerPositionAndRotation(_) => {},
        Packet::SetPlayerRotation(_) => {},
        Packet::SetPlayerOnGround(_) => {},
        Packet::MoveVehicle(_) => {},
        Packet::PaddleBoat(_) => {},
        Packet::PickItem(_) => {},
        Packet::PingRequest(_) => {},
        Packet::PlaceRecipe(_) => {},
        Packet::PlayerAbilityState(_) => {},
        Packet::PlayerAction(_) => {},
        Packet::PlayerCommand(_) => {},
        Packet::PlayerInput(_) => {},
        Packet::Pong(_) => {},
        Packet::ChangeRecipeBookSettings(_) => {},
        Packet::SetSeenRecipe(_) => {},
        Packet::RenameItem(_) => {},
        Packet::ResourcePackResponse(_) => {},
        Packet::SeenAdvancements(_) => {},
        Packet::SelectTrade(_) => {},
        Packet::SetBeaconEffect(_) => {},
        Packet::SetHeldItem(_) => {},
        Packet::ProgramCommandBlock(_) => {},
        Packet::ProgramCommandBlockMinecart(_) => {},
        Packet::SetCreativeModeSlot(_) => {},
        Packet::ProgramJigsawBlock(_) => {},
        Packet::ProgramStructureBlock(_) => {},
        Packet::UpdateSign(_) => {},
        Packet::SwingArm(_) => {},
        Packet::SpectatorTeleportToEntity(_) => {},
        Packet::UseItemOn(_) => {},
        Packet::UseItem(_) => {},
    }
}

} // verus!
