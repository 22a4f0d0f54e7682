//! The bookkeeping records that a node keeps in the metadata column of its store, and
//! the canonical bytes under which each is stored.

use crate::codec::{
    decode_bool, decode_hash256, decode_option_u64, decode_u64, encode_bool, encode_hash256,
    encode_offset, encode_option_u64, encode_u64, lemma_bool_round_trip, lemma_hash_of, lemma_offset_round_trip, lemma_option_u64_round_trip, lemma_u64_round_trip,
    read_offset, spec_decode_bool, spec_decode_option_u64, spec_decode_u64, spec_encode_bool,
    spec_encode_offset, spec_encode_option_u64, spec_encode_u64, spec_hash_of, spec_read_offset,
    DecodeFailure,
};
use crate::errors::Error;
use crate::types::{hash_eq, Checkpoint, Epoch, Hash256, Slot, ZERO_HASH};
use vstd::bytes::{
    lemma_auto_spec_u32_to_from_le_bytes, lemma_auto_spec_u64_to_from_le_bytes,
    spec_u64_from_le_bytes,
};
use vstd::pervasive::unreached;
use vstd::prelude::*;
use vstd::slice::slice_subrange;

verus! {

/// The schema version that this build reads and writes.
pub const CURRENT_SCHEMA_VERSION: u64 = 21;

/// The key under which the schema version is stored.
pub const SCHEMA_VERSION_KEY: Hash256 = [
    0, 0, 0, 0, 0, 0, 0, 0, 0, 0, 0, 0, 0, 0, 0, 0,
    0, 0, 0, 0, 0, 0, 0, 0, 0, 0, 0, 0, 0, 0, 0, 0,
];

/// The key under which the store's configuration is stored.
pub const CONFIG_KEY: Hash256 = [
    1, 1, 1, 1, 1, 1, 1, 1, 1, 1, 1, 1, 1, 1, 1, 1,
    1, 1, 1, 1, 1, 1, 1, 1, 1, 1, 1, 1, 1, 1, 1, 1,
];

/// The key under which the split between hot and cold data is stored.
pub const SPLIT_KEY: Hash256 = [
    2, 2, 2, 2, 2, 2, 2, 2, 2, 2, 2, 2, 2, 2, 2, 2,
    2, 2, 2, 2, 2, 2, 2, 2, 2, 2, 2, 2, 2, 2, 2, 2,
];

/// The key under which the pruning checkpoint is stored.
pub const PRUNING_CHECKPOINT_KEY: Hash256 = [
    3, 3, 3, 3, 3, 3, 3, 3, 3, 3, 3, 3, 3, 3, 3, 3,
    3, 3, 3, 3, 3, 3, 3, 3, 3, 3, 3, 3, 3, 3, 3, 3,
];

/// The key under which the time of the last compaction is stored.
pub const COMPACTION_TIMESTAMP_KEY: Hash256 = [
    4, 4, 4, 4, 4, 4, 4, 4, 4, 4, 4, 4, 4, 4, 4, 4,
    4, 4, 4, 4, 4, 4, 4, 4, 4, 4, 4, 4, 4, 4, 4, 4,
];

/// The key under which the anchor record is stored.
pub const ANCHOR_INFO_KEY: Hash256 = [
    5, 5, 5, 5, 5, 5, 5, 5, 5, 5, 5, 5, 5, 5, 5, 5,
    5, 5, 5, 5, 5, 5, 5, 5, 5, 5, 5, 5, 5, 5, 5, 5,
];

/// The key under which the blob record is stored.
pub const BLOB_INFO_KEY: Hash256 = [
    6, 6, 6, 6, 6, 6, 6, 6, 6, 6, 6, 6, 6, 6, 6, 6,
    6, 6, 6, 6, 6, 6, 6, 6, 6, 6, 6, 6, 6, 6, 6, 6,
];

/// A column of the store.
#[derive(Clone, Copy, Debug, PartialEq, Eq, Structural)]
pub enum DBColumn {
    /// The column of the node's own bookkeeping records.
    BeaconMeta,
}

/// Lifts a decoding result into a store result.
pub open spec fn spec_store_result<T>(decoded: Result<T, DecodeFailure>) -> Result<T, Error> {
    match decoded {
        Ok(value) => Ok(value),
        Err(failure) => Err(Error::SszDecodeError(failure)),
    }
}

/// A record that is stored under one key of one column, as canonical bytes.
pub trait StoreItem: Sized {
    /// The canonical bytes of the record.
    spec fn spec_as_store_bytes(&self) -> Seq<u8>;

    /// The record that `bytes` stand for, or why they stand for none.
    spec fn spec_from_store_bytes(bytes: Seq<u8>) -> Result<Self, Error>;

    /// The key of the record.
    spec fn spec_db_key() -> Hash256;

    /// The column that holds the record.
    fn db_column() -> (column: DBColumn)
        ensures
            column == DBColumn::BeaconMeta,
    ;

    /// The key under which the record is stored.
    fn db_key() -> (key: Hash256)
        ensures
            key == Self::spec_db_key(),
    ;

    /// Writes the record in canonical form.
    fn as_store_bytes(&self) -> (bytes: Vec<u8>)
        ensures
            bytes@ == self.spec_as_store_bytes(),
    ;

    /// Reads a record from its canonical form.
    fn from_store_bytes(bytes: &[u8]) -> (item: Result<Self, Error>)
        ensures
            item == Self::spec_from_store_bytes(bytes@),
    ;

    /// Reading what was written gives the record back.
    proof fn lemma_round_trip(&self)
        ensures
            Self::spec_from_store_bytes(self.spec_as_store_bytes()) == Ok::<Self, Error>(*self),
    ;
}

/// The version of the layout in which the store was written.
#[derive(Debug, Clone, Copy, PartialEq, Eq, Structural, PartialOrd, Ord)]
pub struct SchemaVersion(pub u64);

impl SchemaVersion {
    pub fn as_u64(self) -> (version: u64)
        ensures
            version == self.0,
    {
        self.0
    }
}

impl StoreItem for SchemaVersion {
    open spec fn spec_as_store_bytes(&self) -> Seq<u8> {
        spec_encode_u64(self.0)
    }

    open spec fn spec_from_store_bytes(bytes: Seq<u8>) -> Result<Self, Error> {
        match spec_decode_u64(bytes) {
            Ok(version) => Ok(SchemaVersion(version)),
            Err(failure) => Err(Error::SszDecodeError(failure)),
        }
    }

    open spec fn spec_db_key() -> Hash256 {
        SCHEMA_VERSION_KEY
    }

    fn db_column() -> (column: DBColumn) {
        DBColumn::BeaconMeta
    }

    fn db_key() -> (key: Hash256) {
        SCHEMA_VERSION_KEY
    }

    fn as_store_bytes(&self) -> (bytes: Vec<u8>) {
        encode_u64(self.0)
    }

    fn from_store_bytes(bytes: &[u8]) -> (item: Result<Self, Error>) {
        match decode_u64(bytes) {
            Ok(version) => Ok(SchemaVersion(version)),
            Err(failure) => Err(Error::SszDecodeError(failure)),
        }
    }

    proof fn lemma_round_trip(&self) {
        lemma_u64_round_trip(self.0);
    }
}

/// The last time the database was compacted, in seconds since the UNIX epoch.
#[derive(Debug, Clone, Copy, PartialEq, Eq, Structural)]
pub struct CompactionTimestamp(pub u64);

impl Default for CompactionTimestamp {
    /// The record of a fresh database: never compacted.
    fn default() -> (item: CompactionTimestamp)
        ensures
            item.0 == 0,
    {
        CompactionTimestamp(0)
    }
}

impl StoreItem for CompactionTimestamp {
    open spec fn spec_as_store_bytes(&self) -> Seq<u8> {
        spec_encode_u64(self.0)
    }

    open spec fn spec_from_store_bytes(bytes: Seq<u8>) -> Result<Self, Error> {
        match spec_decode_u64(bytes) {
            Ok(seconds) => Ok(CompactionTimestamp(seconds)),
            Err(failure) => Err(Error::SszDecodeError(failure)),
        }
    }

    open spec fn spec_db_key() -> Hash256 {
        COMPACTION_TIMESTAMP_KEY
    }

    fn db_column() -> (column: DBColumn) {
        DBColumn::BeaconMeta
    }

    fn db_key() -> (key: Hash256) {
        COMPACTION_TIMESTAMP_KEY
    }

    fn as_store_bytes(&self) -> (bytes: Vec<u8>) {
        encode_u64(self.0)
    }

    fn from_store_bytes(bytes: &[u8]) -> (item: Result<Self, Error>) {
        match decode_u64(bytes) {
            Ok(seconds) => Ok(CompactionTimestamp(seconds)),
            Err(failure) => Err(Error::SszDecodeError(failure)),
        }
    }

    proof fn lemma_round_trip(&self) {
        lemma_u64_round_trip(self.0);
    }
}

/// The integer that the eight bytes from `start` on stand for.
pub open spec fn spec_u64_at(bytes: Seq<u8>, start: int) -> u64 {
    spec_u64_from_le_bytes(bytes.subrange(start, start + 8))
}

/// The hash that the 32 bytes from `start` on stand for.
pub open spec fn spec_hash256_at(bytes: Seq<u8>, start: int) -> Hash256 {
    spec_hash_of(bytes.subrange(start, start + 32))
}

/// Reads the integer that stands at `start`.
fn decode_u64_at(bytes: &[u8], start: usize) -> (value: u64)
    requires
        start + 8 <= bytes@.len(),
    ensures
        value == spec_u64_at(bytes@, start as int),
{
    assert(start + 8 <= bytes.len());
    match decode_u64(slice_subrange(bytes, start, start + 8)) {
        Ok(value) => value,
        Err(_) => unreached(),
    }
}

/// Reads the hash that stands at `start`.
fn decode_hash256_at(bytes: &[u8], start: usize) -> (value: Hash256)
    requires
        start + 32 <= bytes@.len(),
    ensures
        value == spec_hash256_at(bytes@, start as int),
{
    assert(start + 32 <= bytes.len());
    match decode_hash256(slice_subrange(bytes, start, start + 32)) {
        Ok(value) => value,
        Err(_) => unreached(),
    }
}

/// The checkpoint up to which the database was last pruned.
#[derive(Debug, Clone, Copy, PartialEq, Eq)]
pub struct PruningCheckpoint {
    pub checkpoint: Checkpoint,
}

impl PruningCheckpoint {
    /// The record after a pruning pass up to `checkpoint`. Pruning never goes back:
    /// there is none for a checkpoint of an earlier epoch.
    pub open spec fn spec_advanced_to(&self, checkpoint: Checkpoint) -> Option<PruningCheckpoint> {
        if self.checkpoint.epoch.0 <= checkpoint.epoch.0 {
            Some(PruningCheckpoint { checkpoint })
        } else {
            None
        }
    }

    /// The record to write once a pruning pass up to `checkpoint` is complete, or
    /// `None` if the database is already pruned beyond the epoch of `checkpoint`.
    pub fn advanced_to(&self, checkpoint: Checkpoint) -> (next: Option<PruningCheckpoint>)
        ensures
            next == self.spec_advanced_to(checkpoint),
            next matches Some(record) ==> self.checkpoint.epoch.0 <= record.checkpoint.epoch.0,
    {
        if self.checkpoint.epoch.0 <= checkpoint.epoch.0 {
            Some(PruningCheckpoint { checkpoint })
        } else {
            None
        }
    }
}

impl Default for PruningCheckpoint {
    /// The record of a fresh database: nothing pruned, the checkpoint at genesis.
    fn default() -> (item: PruningCheckpoint)
        ensures
            item.checkpoint.epoch.0 == 0,
            item.checkpoint.root == ZERO_HASH,
    {
        PruningCheckpoint { checkpoint: Checkpoint { epoch: Epoch(0), root: ZERO_HASH } }
    }
}

impl StoreItem for PruningCheckpoint {
    /// The epoch, then the root.
    open spec fn spec_as_store_bytes(&self) -> Seq<u8> {
        spec_encode_u64(self.checkpoint.epoch.0) + self.checkpoint.root@
    }

    open spec fn spec_from_store_bytes(bytes: Seq<u8>) -> Result<Self, Error> {
        if bytes.len() != 40 {
            Err(
                Error::SszDecodeError(
                    DecodeFailure::InvalidByteLength { len: bytes.len() as usize, expected: 40 },
                ),
            )
        } else {
            Ok(
                PruningCheckpoint {
                    checkpoint: Checkpoint {
                        epoch: Epoch(spec_u64_at(bytes, 0)),
                        root: spec_hash256_at(bytes, 8),
                    },
                },
            )
        }
    }

    open spec fn spec_db_key() -> Hash256 {
        PRUNING_CHECKPOINT_KEY
    }

    fn db_column() -> (column: DBColumn) {
        DBColumn::BeaconMeta
    }

    fn db_key() -> (key: Hash256) {
        PRUNING_CHECKPOINT_KEY
    }

    fn as_store_bytes(&self) -> (bytes: Vec<u8>) {
        let mut bytes = encode_u64(self.checkpoint.epoch.0);
        let mut root = encode_hash256(&self.checkpoint.root);
        bytes.append(&mut root);
        bytes
    }

    fn from_store_bytes(bytes: &[u8]) -> (item: Result<Self, Error>) {
        if bytes.len() != 40 {
            return Err(
                Error::SszDecodeError(
                    DecodeFailure::InvalidByteLength { len: bytes.len(), expected: 40 },
                ),
            );
        }
        let epoch = decode_u64_at(bytes, 0);
        let root = decode_hash256_at(bytes, 8);
        Ok(PruningCheckpoint { checkpoint: Checkpoint { epoch: Epoch(epoch), root } })
    }

    proof fn lemma_round_trip(&self) {
        let bytes = self.spec_as_store_bytes();
        lemma_u64_round_trip(self.checkpoint.epoch.0);
        lemma_hash_of(self.checkpoint.root@);
        assert(bytes.subrange(0, 8) =~= spec_encode_u64(self.checkpoint.epoch.0));
        assert(bytes.subrange(8, 40) =~= self.checkpoint.root@);
    }
}

/// How far back the node's blocks and states reach, for a node that started from a
/// checkpoint instead of genesis.
#[derive(Debug, PartialEq, Eq, Clone)]
pub struct AnchorInfo {
    /// The slot at which the anchor state is present and which cannot be reverted.
    pub anchor_slot: Slot,
    /// The slot from which historical blocks are available (>=).
    pub oldest_block_slot: Slot,
    /// The block root of the next block that needs to be added to fill in the history.
    ///
    /// Zero if all blocks back to genesis are known.
    pub oldest_block_parent: Hash256,
    /// The slot from which historical states are available (>=).
    pub state_upper_limit: Slot,
    /// The slot before which historical states are available (<=).
    pub state_lower_limit: Slot,
}

impl AnchorInfo {
    /// What holds of every anchor record: the oldest block is no later than the anchor,
    /// and the states below the lower limit and above the upper limit do not overlap.
    pub open spec fn spec_well_formed(&self) -> bool {
        &&& self.oldest_block_slot.0 <= self.anchor_slot.0
        &&& self.state_lower_limit.0 <= self.state_upper_limit.0
    }

    /// Whether all blocks back to genesis are known: no parent is left to fetch.
    pub open spec fn spec_block_history_complete(&self) -> bool {
        self.oldest_block_parent == ZERO_HASH
    }

    /// The record of a node that starts from genesis and has nothing to backfill.
    pub fn genesis() -> (info: AnchorInfo)
        ensures
            info.spec_well_formed(),
            info.spec_block_history_complete(),
            info.anchor_slot.0 == 0,
            info.oldest_block_slot.0 == 0,
            info.state_upper_limit.0 == 0,
            info.state_lower_limit.0 == 0,
            forall|target_slot: Slot| info.spec_block_backfill_complete(target_slot),
    {
        AnchorInfo {
            anchor_slot: Slot(0),
            oldest_block_slot: Slot(0),
            oldest_block_parent: ZERO_HASH,
            state_upper_limit: Slot(0),
            state_lower_limit: Slot(0),
        }
    }

    /// Checks what holds of every anchor record.
    pub fn is_well_formed(&self) -> (well_formed: bool)
        ensures
            well_formed == self.spec_well_formed(),
    {
        self.oldest_block_slot.0 <= self.anchor_slot.0 && self.state_lower_limit.0
            <= self.state_upper_limit.0
    }

    /// Returns true if all blocks back to genesis are known.
    pub fn block_history_complete(&self) -> (complete: bool)
        ensures
            complete == self.spec_block_history_complete(),
    {
        hash_eq(&self.oldest_block_parent, &ZERO_HASH)
    }

    /// The record after blocks back to `oldest_block_slot` have been stored, the
    /// earliest of them with the parent `oldest_block_parent`. Backfill only goes
    /// back: there is none for a slot later than the one already reached.
    pub open spec fn spec_backfilled_to(
        &self,
        oldest_block_slot: Slot,
        oldest_block_parent: Hash256,
    ) -> Option<AnchorInfo> {
        if oldest_block_slot.0 <= self.oldest_block_slot.0 {
            Some(
                AnchorInfo {
                    anchor_slot: self.anchor_slot,
                    oldest_block_slot,
                    oldest_block_parent,
                    state_upper_limit: self.state_upper_limit,
                    state_lower_limit: self.state_lower_limit,
                },
            )
        } else {
            None
        }
    }

    /// The record to write once blocks back to `oldest_block_slot` have been stored, or
    /// `None` if the blocks already reach further back. What was complete stays complete.
    pub fn backfilled_to(&self, oldest_block_slot: Slot, oldest_block_parent: Hash256) -> (next:
        Option<AnchorInfo>)
        ensures
            next == self.spec_backfilled_to(oldest_block_slot, oldest_block_parent),
            next matches Some(record) ==> {
                &&& self.spec_well_formed() ==> record.spec_well_formed()
                &&& forall|target_slot: Slot|
                    self.spec_block_backfill_complete(target_slot)
                        ==> record.spec_block_backfill_complete(target_slot)
            },
    {
        if oldest_block_slot.0 <= self.oldest_block_slot.0 {
            Some(
                AnchorInfo {
                    anchor_slot: self.anchor_slot,
                    oldest_block_slot,
                    oldest_block_parent,
                    state_upper_limit: self.state_upper_limit,
                    state_lower_limit: self.state_lower_limit,
                },
            )
        } else {
            None
        }
    }

    /// Whether the blocks reach back to `target_slot`.
    pub open spec fn spec_block_backfill_complete(&self, target_slot: Slot) -> bool {
        self.oldest_block_slot.0 <= target_slot.0
    }

    /// Returns true if the block backfill has reached `target_slot`.
    pub fn block_backfill_complete(&self, target_slot: Slot) -> (complete: bool)
        ensures
            complete == self.spec_block_backfill_complete(target_slot),
    {
        self.oldest_block_slot.0 <= target_slot.0
    }
}

impl StoreItem for AnchorInfo {
    /// The five fields in the order of their declaration.
    open spec fn spec_as_store_bytes(&self) -> Seq<u8> {
        spec_encode_u64(self.anchor_slot.0) + spec_encode_u64(self.oldest_block_slot.0)
            + self.oldest_block_parent@ + spec_encode_u64(self.state_upper_limit.0)
            + spec_encode_u64(self.state_lower_limit.0)
    }

    open spec fn spec_from_store_bytes(bytes: Seq<u8>) -> Result<Self, Error> {
        if bytes.len() != 64 {
            Err(
                Error::SszDecodeError(
                    DecodeFailure::InvalidByteLength { len: bytes.len() as usize, expected: 64 },
                ),
            )
        } else {
            Ok(
                AnchorInfo {
                    anchor_slot: Slot(spec_u64_at(bytes, 0)),
                    oldest_block_slot: Slot(spec_u64_at(bytes, 8)),
                    oldest_block_parent: spec_hash256_at(bytes, 16),
                    state_upper_limit: Slot(spec_u64_at(bytes, 48)),
                    state_lower_limit: Slot(spec_u64_at(bytes, 56)),
                },
            )
        }
    }

    open spec fn spec_db_key() -> Hash256 {
        ANCHOR_INFO_KEY
    }

    fn db_column() -> (column: DBColumn) {
        DBColumn::BeaconMeta
    }

    fn db_key() -> (key: Hash256) {
        ANCHOR_INFO_KEY
    }

    fn as_store_bytes(&self) -> (bytes: Vec<u8>) {
        let mut bytes = encode_u64(self.anchor_slot.0);
        let mut oldest_block_slot = encode_u64(self.oldest_block_slot.0);
        let mut oldest_block_parent = encode_hash256(&self.oldest_block_parent);
        let mut state_upper_limit = encode_u64(self.state_upper_limit.0);
        let mut state_lower_limit = encode_u64(self.state_lower_limit.0);
        bytes.append(&mut oldest_block_slot);
        bytes.append(&mut oldest_block_parent);
        bytes.append(&mut state_upper_limit);
        bytes.append(&mut state_lower_limit);
        bytes
    }

    fn from_store_bytes(bytes: &[u8]) -> (item: Result<Self, Error>) {
        if bytes.len() != 64 {
            return Err(
                Error::SszDecodeError(
                    DecodeFailure::InvalidByteLength { len: bytes.len(), expected: 64 },
                ),
            );
        }
        Ok(
            AnchorInfo {
                anchor_slot: Slot(decode_u64_at(bytes, 0)),
                oldest_block_slot: Slot(decode_u64_at(bytes, 8)),
                oldest_block_parent: decode_hash256_at(bytes, 16),
                state_upper_limit: Slot(decode_u64_at(bytes, 48)),
                state_lower_limit: Slot(decode_u64_at(bytes, 56)),
            },
        )
    }

    proof fn lemma_round_trip(&self) {
        let bytes = self.spec_as_store_bytes();
        lemma_u64_round_trip(self.anchor_slot.0);
        lemma_u64_round_trip(self.oldest_block_slot.0);
        lemma_u64_round_trip(self.state_upper_limit.0);
        lemma_u64_round_trip(self.state_lower_limit.0);
        lemma_hash_of(self.oldest_block_parent@);
        assert(bytes.subrange(0, 8) =~= spec_encode_u64(self.anchor_slot.0));
        assert(bytes.subrange(8, 16) =~= spec_encode_u64(self.oldest_block_slot.0));
        assert(bytes.subrange(16, 48) =~= self.oldest_block_parent@);
        assert(bytes.subrange(48, 56) =~= spec_encode_u64(self.state_upper_limit.0));
        assert(bytes.subrange(56, 64) =~= spec_encode_u64(self.state_lower_limit.0));
    }
}

/// From where on the node has, or will have, blobs.
#[derive(Debug, PartialEq, Eq, Clone)]
pub struct BlobInfo {
    /// The slot after which blobs are or *will be* available (>=).
    ///
    /// A slot in the future is the first slot of the fork that brings blobs. `None`
    /// means that the epoch of that fork is not yet known.
    pub oldest_blob_slot: Option<Slot>,
    /// A separate blobs database is in use (deprecated, always `true`).
    pub blobs_db: bool,
}

/// The number of bytes of a blob record that come before its optional slot: an
/// offset and a flag.
pub const BLOB_INFO_FIXED_LEN: usize = 5;

/// The slot number of an optional slot.
pub open spec fn spec_slot_number(slot: Option<Slot>) -> Option<u64> {
    match slot {
        None => None,
        Some(slot) => Some(slot.0),
    }
}

/// The optional slot of a slot number.
pub open spec fn spec_slot_of(number: Option<u64>) -> Option<Slot> {
    match number {
        None => None,
        Some(number) => Some(Slot(number)),
    }
}

impl Default for BlobInfo {
    /// The record of a fresh database: no boundary known yet.
    fn default() -> (info: BlobInfo)
        ensures
            info.oldest_blob_slot is None,
            info.blobs_db,
    {
        BlobInfo { oldest_blob_slot: None, blobs_db: true }
    }
}

impl StoreItem for BlobInfo {
    /// The offset at which the optional slot begins, the flag, and the optional slot.
    open spec fn spec_as_store_bytes(&self) -> Seq<u8> {
        spec_encode_offset(BLOB_INFO_FIXED_LEN) + spec_encode_bool(self.blobs_db)
            + spec_encode_option_u64(spec_slot_number(self.oldest_blob_slot))
    }

    /// The bytes must begin with an offset that lies within them and points just
    /// behind the flag. The optional slot is read before the flag.
    open spec fn spec_from_store_bytes(bytes: Seq<u8>) -> Result<Self, Error> {
        match spec_read_offset(bytes) {
            Err(failure) => Err(Error::SszDecodeError(failure)),
            Ok(offset) => if offset > bytes.len() {
                Err(Error::SszDecodeError(DecodeFailure::OffsetOutOfBounds(offset)))
            } else if bytes.len() < BLOB_INFO_FIXED_LEN {
                Err(
                    Error::SszDecodeError(
                        DecodeFailure::InvalidByteLength {
                            len: bytes.len() as usize,
                            expected: BLOB_INFO_FIXED_LEN,
                        },
                    ),
                )
            } else if offset < BLOB_INFO_FIXED_LEN {
                Err(Error::SszDecodeError(DecodeFailure::OffsetIntoFixedPortion(offset)))
            } else if offset > BLOB_INFO_FIXED_LEN {
                Err(Error::SszDecodeError(DecodeFailure::OffsetSkipsVariableBytes(offset)))
            } else {
                match spec_decode_option_u64(bytes.subrange(5, bytes.len() as int)) {
                    Err(failure) => Err(Error::SszDecodeError(failure)),
                    Ok(number) => match spec_decode_bool(bytes.subrange(4, 5)) {
                        Err(failure) => Err(Error::SszDecodeError(failure)),
                        Ok(blobs_db) => Ok(
                            BlobInfo { oldest_blob_slot: spec_slot_of(number), blobs_db },
                        ),
                    },
                }
            },
        }
    }

    open spec fn spec_db_key() -> Hash256 {
        BLOB_INFO_KEY
    }

    fn db_column() -> (column: DBColumn) {
        DBColumn::BeaconMeta
    }

    fn db_key() -> (key: Hash256) {
        BLOB_INFO_KEY
    }

    fn as_store_bytes(&self) -> (bytes: Vec<u8>) {
        let number = match self.oldest_blob_slot {
            None => None,
            Some(slot) => Some(slot.0),
        };
        let offset = encode_offset(BLOB_INFO_FIXED_LEN);
        let mut flag = encode_bool(self.blobs_db);
        let mut slot = encode_option_u64(number);
        let mut bytes: Vec<u8> = Vec::new();
        bytes.extend_from_slice(offset.as_slice());
        bytes.append(&mut flag);
        bytes.append(&mut slot);
        bytes
    }

    fn from_store_bytes(bytes: &[u8]) -> (item: Result<Self, Error>) {
        let offset = match read_offset(bytes) {
            Ok(offset) => offset,
            Err(failure) => { return Err(Error::SszDecodeError(failure)); },
        };
        if offset > bytes.len() {
            return Err(Error::SszDecodeError(DecodeFailure::OffsetOutOfBounds(offset)));
        }
        if bytes.len() < BLOB_INFO_FIXED_LEN {
            return Err(
                Error::SszDecodeError(
                    DecodeFailure::InvalidByteLength {
                        len: bytes.len(),
                        expected: BLOB_INFO_FIXED_LEN,
                    },
                ),
            );
        }
        if offset < BLOB_INFO_FIXED_LEN {
            return Err(Error::SszDecodeError(DecodeFailure::OffsetIntoFixedPortion(offset)));
        }
        if offset > BLOB_INFO_FIXED_LEN {
            return Err(Error::SszDecodeError(DecodeFailure::OffsetSkipsVariableBytes(offset)));
        }
        let number = match decode_option_u64(slice_subrange(bytes, 5, bytes.len())) {
            Ok(number) => number,
            Err(failure) => { return Err(Error::SszDecodeError(failure)); },
        };
        let blobs_db = match decode_bool(slice_subrange(bytes, 4, 5)) {
            Ok(blobs_db) => blobs_db,
            Err(failure) => { return Err(Error::SszDecodeError(failure)); },
        };
        let oldest_blob_slot = match number {
            None => None,
            Some(number) => Some(Slot(number)),
        };
        Ok(BlobInfo { oldest_blob_slot, blobs_db })
    }

    proof fn lemma_round_trip(&self) {
        let bytes = self.spec_as_store_bytes();
        let number = spec_slot_number(self.oldest_blob_slot);
        lemma_offset_round_trip(BLOB_INFO_FIXED_LEN);
        lemma_bool_round_trip(self.blobs_db);
        lemma_option_u64_round_trip(number);
        assert(bytes.subrange(0, 4) =~= spec_encode_offset(BLOB_INFO_FIXED_LEN));
        assert(bytes.subrange(0, 4) =~= spec_encode_offset(BLOB_INFO_FIXED_LEN).subrange(0, 4));
        assert(bytes.subrange(4, 5) =~= spec_encode_bool(self.blobs_db));
        assert(bytes.subrange(5, bytes.len() as int) =~= spec_encode_option_u64(number));
        assert(spec_slot_of(number) == self.oldest_blob_slot);
    }
}

/// Only the canonical bytes of a schema version are read as that version.
pub proof fn lemma_schema_version_bytes_are_canonical(bytes: Seq<u8>)
    ensures
        SchemaVersion::spec_from_store_bytes(bytes) matches Ok(item)
            ==> item.spec_as_store_bytes() == bytes,
{
    lemma_auto_spec_u64_to_from_le_bytes();
}

/// Only the canonical bytes of a compaction timestamp are read as that timestamp.
pub proof fn lemma_compaction_timestamp_bytes_are_canonical(bytes: Seq<u8>)
    ensures
        CompactionTimestamp::spec_from_store_bytes(bytes) matches Ok(item)
            ==> item.spec_as_store_bytes() == bytes,
{
    lemma_auto_spec_u64_to_from_le_bytes();
}

/// Only the canonical bytes of a pruning checkpoint are read as that checkpoint.
pub proof fn lemma_pruning_checkpoint_bytes_are_canonical(bytes: Seq<u8>)
    ensures
        PruningCheckpoint::spec_from_store_bytes(bytes) matches Ok(item)
            ==> item.spec_as_store_bytes() == bytes,
{
    if bytes.len() == 40 {
        lemma_auto_spec_u64_to_from_le_bytes();
        lemma_hash_of(bytes.subrange(8, 40));
        let item = PruningCheckpoint::spec_from_store_bytes(bytes).unwrap();
        assert(item.spec_as_store_bytes() =~= bytes.subrange(0, 8) + bytes.subrange(8, 40));
        assert(bytes =~= bytes.subrange(0, 8) + bytes.subrange(8, 40));
    }
}

/// Only the canonical bytes of an anchor record are read as that record.
pub proof fn lemma_anchor_info_bytes_are_canonical(bytes: Seq<u8>)
    ensures
        AnchorInfo::spec_from_store_bytes(bytes) matches Ok(item) ==> item.spec_as_store_bytes()
            == bytes,
{
    if bytes.len() == 64 {
        lemma_auto_spec_u64_to_from_le_bytes();
        lemma_hash_of(bytes.subrange(16, 48));
        let item = AnchorInfo::spec_from_store_bytes(bytes).unwrap();
        let parts = bytes.subrange(0, 8) + bytes.subrange(8, 16) + bytes.subrange(16, 48)
            + bytes.subrange(48, 56) + bytes.subrange(56, 64);
        assert(item.spec_as_store_bytes() =~= parts);
        assert(bytes =~= parts);
    }
}

/// The bytes that are read as a blob record are its canonical bytes, but for bytes
/// that follow the selector of an absent slot.
pub proof fn lemma_blob_info_bytes_are_canonical(bytes: Seq<u8>)
    ensures
        BlobInfo::spec_from_store_bytes(bytes) matches Ok(item) ==> {
            &&& item.oldest_blob_slot is Some ==> item.spec_as_store_bytes() == bytes
            &&& item.oldest_blob_slot is None ==> item.spec_as_store_bytes() == bytes.subrange(
                0,
                6,
            )
        },
{
    if BlobInfo::spec_from_store_bytes(bytes) is Ok {
        lemma_auto_spec_u32_to_from_le_bytes();
        lemma_auto_spec_u64_to_from_le_bytes();
        let item = BlobInfo::spec_from_store_bytes(bytes).unwrap();
        let head = bytes.subrange(0, 4);
        let flag = bytes.subrange(4, 5);
        let tail = bytes.subrange(5, bytes.len() as int);
        assert(spec_encode_offset(BLOB_INFO_FIXED_LEN) == head);
        assert(spec_encode_bool(item.blobs_db) =~= flag);
        if item.oldest_blob_slot is Some {
            assert(tail.len() == 9);
            assert(spec_encode_option_u64(spec_slot_number(item.oldest_blob_slot)) =~= tail) by {
                assert(tail.subrange(1, 9) =~= tail.subrange(1, tail.len() as int));
                assert(tail =~= seq![1u8] + tail.subrange(1, 9));
            }
            assert(bytes =~= head + flag + tail);
        } else {
            assert(spec_encode_option_u64(spec_slot_number(item.oldest_blob_slot)) =~= tail.subrange(
                0,
                1,
            ));
            assert(bytes.subrange(0, 6) =~= head + flag + tail.subrange(0, 1));
        }
    }
}

} // verus!
