//! Aggregation of chunk parts and receipts received out of order.
//!
//! The cache keeps, for each chunk hash, the parts and receipts received so
//! far; an index of the chunks by the height they were created at, used to
//! drop chunks that fall behind the horizon; an index of the incomplete
//! chunks by the hash of their previous block; and the chunk headers that are
//! ready to be included in the block after a given block.
use std::collections::{HashMap, HashSet};
use vstd::prelude::*;

use crate::clock::{utc_now_millis, UtcMillis};
use crate::primitives::{
    AccountId, BlockHeight, ChunkHash, CryptoHash, PartView, PartialEncodedChunkPart,
    PartialEncodedChunkV2, ReceiptProof, ReceiptView, ShardChunkHeader, ShardId,
};

verus! {

broadcast use vstd::std_specs::hash::group_hash_axioms;

/// A chunk is out of horizon if its height + HEIGHT_HORIZON < largest_seen_height.
pub const HEIGHT_HORIZON: u64 = 1024;

/// A chunk is out of horizon if its height > largest_seen_height + MAX_HEIGHTS_AHEAD.
pub const MAX_HEIGHTS_AHEAD: u64 = 5;

/// A ready chunk header is out of horizon if its height + CHUNK_HEADER_HEIGHT_HORIZON
/// < largest_seen_height.
pub const CHUNK_HEADER_HEIGHT_HORIZON: u64 = 10;

/// What is kept of a ready chunk header: the header, when it arrived, and who produced it.
pub type ReadyHeader = (ShardChunkHeader, UtcMillis, AccountId);

/// Abstract value of a cache entry.
pub struct EntryView {
    pub header: ShardChunkHeader,
    pub parts: Map<u64, PartView>,
    pub receipts: Map<ShardId, ReceiptView>,
    pub complete: bool,
    pub header_fully_validated: bool,
}

/// The parts and receipts received so far for one chunk.
pub struct EncodedChunksCacheEntry {
    pub header: ShardChunkHeader,
    pub parts: HashMap<u64, PartialEncodedChunkPart>,
    pub receipts: HashMap<ShardId, ReceiptProof>,
    /// Whether this entry has all parts and receipts.
    pub complete: bool,
    /// Whether the header has been fully validated (every entry is partially
    /// validated before it enters the cache).
    pub header_fully_validated: bool,
}

/// The entry that a header starts with: nothing received, nothing validated.
pub open spec fn empty_entry(header: ShardChunkHeader) -> EntryView {
    EntryView {
        header,
        parts: Map::empty(),
        receipts: Map::empty(),
        complete: false,
        header_fully_validated: false,
    }
}

/// `known` after each of `parts` was merged in, in order; the first part seen
/// for an ord is kept.
pub open spec fn merge_parts(known: Map<u64, PartView>, parts: Seq<PartView>) -> Map<u64, PartView>
    decreases parts.len(),
{
    if parts.len() == 0 {
        known
    } else {
        let m = merge_parts(known, parts.drop_last());
        let p = parts.last();
        if m.contains_key(p.part_ord) {
            m
        } else {
            m.insert(p.part_ord, p)
        }
    }
}

/// `known` after each of `receipts` was merged in, in order; the first receipt
/// seen for a destination shard is kept.
pub open spec fn merge_receipts(
    known: Map<ShardId, ReceiptView>,
    receipts: Seq<ReceiptView>,
) -> Map<ShardId, ReceiptView>
    decreases receipts.len(),
{
    if receipts.len() == 0 {
        known
    } else {
        let m = merge_receipts(known, receipts.drop_last());
        let r = receipts.last();
        if m.contains_key(r.to_shard_id) {
            m
        } else {
            m.insert(r.to_shard_id, r)
        }
    }
}

/// The ords of a sequence of parts.
pub open spec fn part_ords(parts: Seq<PartView>) -> Set<u64> {
    Set::new(|o: u64| exists|i: int| 0 <= i < parts.len() && #[trigger] parts[i].part_ord == o)
}

/// Views of the parts of a message.
pub open spec fn parts_of(msg: &PartialEncodedChunkV2) -> Seq<PartView> {
    msg.parts@.map_values(|p: PartialEncodedChunkPart| p@)
}

/// Views of the receipts of a message.
pub open spec fn receipts_of(msg: &PartialEncodedChunkV2) -> Seq<ReceiptView> {
    msg.receipts@.map_values(|r: ReceiptProof| r@)
}

/// `e` after the parts and receipts of `msg` were merged in.
pub open spec fn merged_entry(e: EntryView, msg: &PartialEncodedChunkV2) -> EntryView {
    EntryView {
        parts: merge_parts(e.parts, parts_of(msg)),
        receipts: merge_receipts(e.receipts, receipts_of(msg)),
        ..e
    }
}

/// Merging adds to the known ords exactly the ords presented.
pub proof fn lemma_merge_parts_dom(known: Map<u64, PartView>, parts: Seq<PartView>)
    ensures
        merge_parts(known, parts).dom() == known.dom().union(part_ords(parts)),
        forall|o: u64| #[trigger]
            known.contains_key(o) ==> merge_parts(known, parts)[o] == known[o],
    decreases parts.len(),
{
    if parts.len() > 0 {
        let prefix = parts.drop_last();
        lemma_merge_parts_dom(known, prefix);
        assert(part_ords(parts) =~= part_ords(prefix).insert(parts.last().part_ord)) by {
            assert forall|o: u64| part_ords(parts).contains(o) implies
                part_ords(prefix).insert(parts.last().part_ord).contains(o) by {
                let i = choose|i: int| 0 <= i < parts.len() && #[trigger] parts[i].part_ord == o;
                if i < parts.len() - 1 {
                    assert(prefix[i].part_ord == o);
                }
            }
            assert forall|o: u64| part_ords(prefix).contains(o) implies part_ords(parts).contains(o) by {
                let i = choose|i: int| 0 <= i < prefix.len() && #[trigger] prefix[i].part_ord == o;
                assert(parts[i].part_ord == o);
            }
            assert(parts[parts.len() - 1].part_ord == parts.last().part_ord);
        }
        assert(merge_parts(known, parts).dom() =~= known.dom().union(part_ords(parts)));
    } else {
        assert(part_ords(parts) =~= Set::empty());
        assert(known.dom().union(part_ords(parts)) =~= known.dom());
    }
}

impl View for EncodedChunksCacheEntry {
    type V = EntryView;

    open spec fn view(&self) -> EntryView {
        EntryView {
            header: self.header,
            parts: self.parts@.map_values(|p: PartialEncodedChunkPart| p@),
            receipts: self.receipts@.map_values(|r: ReceiptProof| r@),
            complete: self.complete,
            header_fully_validated: self.header_fully_validated,
        }
    }
}

impl EncodedChunksCacheEntry {
    pub fn from_chunk_header(header: ShardChunkHeader) -> (r: Self)
        ensures
            r@ == empty_entry(header),
    {
        let r = EncodedChunksCacheEntry {
            header,
            parts: HashMap::new(),
            receipts: HashMap::new(),
            complete: false,
            header_fully_validated: false,
        };
        proof {
            assert(r@.parts =~= Map::empty());
            assert(r@.receipts =~= Map::empty());
        }
        r
    }

    /// Inserts the parts and receipts not known yet (the first one received
    /// for a key wins) and returns the ords of the parts that were missing.
    pub fn merge_in_partial_encoded_chunk(
        &mut self,
        partial_encoded_chunk: &PartialEncodedChunkV2,
    ) -> (r: HashSet<u64>)
        ensures
            final(self)@ == merged_entry(old(self)@, partial_encoded_chunk),
            r@ == part_ords(parts_of(partial_encoded_chunk)).difference(old(self)@.parts.dom()),
    {
        let ghost start = self@;
        let ghost parts = parts_of(partial_encoded_chunk);
        let mut previously_missing_part_ords: HashSet<u64> = HashSet::new();
        let mut i: usize = 0;
        while i < partial_encoded_chunk.parts.len()
            invariant
                0 <= i <= partial_encoded_chunk.parts.len(),
                parts == parts_of(partial_encoded_chunk),
                self@.parts == merge_parts(start.parts, parts.take(i as int)),
                self@.receipts == start.receipts,
                self.header == start.header,
                self.complete == start.complete,
                self.header_fully_validated == start.header_fully_validated,
                previously_missing_part_ords@ == part_ords(parts.take(i as int)).difference(
                    start.parts.dom(),
                ),
            decreases partial_encoded_chunk.parts.len() - i,
        {
            let part_info = &partial_encoded_chunk.parts[i];
            let part_ord = part_info.part_ord;
            proof {
                assert(parts.take(i + 1).drop_last() =~= parts.take(i as int));
                assert(parts.take(i + 1).last() == part_info@);
                lemma_merge_parts_dom(start.parts, parts.take(i as int));
                lemma_merge_parts_dom(start.parts, parts.take(i + 1));
            }
            if !self.parts.contains_key(&part_ord) {
                previously_missing_part_ords.insert(part_ord);
                let copy = part_info.clone();
                self.parts.insert(part_ord, copy);
            }
            proof {
                assert(self@.parts =~= merge_parts(start.parts, parts.take(i + 1)));
                assert(previously_missing_part_ords@ =~= part_ords(parts.take(i + 1)).difference(
                    start.parts.dom(),
                ));
            }
            i = i + 1;
        }
        proof {
            assert(parts.take(i as int) =~= parts);
        }
        let ghost receipts = receipts_of(partial_encoded_chunk);
        let mut j: usize = 0;
        while j < partial_encoded_chunk.receipts.len()
            invariant
                0 <= j <= partial_encoded_chunk.receipts.len(),
                receipts == receipts_of(partial_encoded_chunk),
                self@.receipts == merge_receipts(start.receipts, receipts.take(j as int)),
                self@.parts == merge_parts(start.parts, parts),
                self.header == start.header,
                self.complete == start.complete,
                self.header_fully_validated == start.header_fully_validated,
            decreases partial_encoded_chunk.receipts.len() - j,
        {
            let receipt = &partial_encoded_chunk.receipts[j];
            let shard_id = receipt.to_shard_id;
            proof {
                assert(receipts.take(j + 1).drop_last() =~= receipts.take(j as int));
                assert(receipts.take(j + 1).last() == receipt@);
            }
            if !self.receipts.contains_key(&shard_id) {
                let copy = receipt.clone();
                self.receipts.insert(shard_id, copy);
            }
            proof {
                assert(self@.receipts =~= merge_receipts(start.receipts, receipts.take(j + 1)));
            }
            j = j + 1;
        }
        proof {
            assert(receipts.take(j as int) =~= receipts);
        }
        previously_missing_part_ords
    }
}

/// Aggregates the parts and receipts of chunks; see the module documentation.
pub struct EncodedChunksCache {
    /// Largest height seen at the head of the chain.
    largest_seen_height: BlockHeight,
    /// Chunk hash to the entry of the chunk.
    encoded_chunks: HashMap<u64, EncodedChunksCacheEntry>,
    /// Height to the hashes of the chunks created at that height.
    height_map: HashMap<BlockHeight, HashSet<u64>>,
    /// Previous block hash to the incomplete chunks built on that block.
    incomplete_chunks: HashMap<u64, HashSet<u64>>,
    /// Previous block hash to the headers, by shard, that are ready to be
    /// included in the next block.
    block_hash_to_chunk_headers: HashMap<u64, HashMap<ShardId, ReadyHeader>>,
}

/// The larger of two heights.
pub open spec fn max_height(a: u64, b: u64) -> u64 {
    if a >= b {
        a
    } else {
        b
    }
}

/// `H - d`, or 0 when `d > H`.
pub open spec fn floor_sub(h: u64, d: u64) -> int {
    if h >= d {
        h - d
    } else {
        0
    }
}

impl EncodedChunksCache {
    /// The largest height seen.
    pub closed spec fn largest_seen(&self) -> BlockHeight {
        self.largest_seen_height
    }

    /// The entries, by chunk hash.
    pub closed spec fn entries(&self) -> Map<u64, EntryView> {
        self.encoded_chunks@.map_values(|e: EncodedChunksCacheEntry| e@)
    }

    /// The chunk hashes, by the height they were created at.
    pub closed spec fn height_index(&self) -> Map<BlockHeight, Set<u64>> {
        self.height_map@.map_values(|s: HashSet<u64>| s@)
    }

    /// The incomplete chunk hashes, by previous block hash.
    pub closed spec fn incomplete_index(&self) -> Map<u64, Set<u64>> {
        self.incomplete_chunks@.map_values(|s: HashSet<u64>| s@)
    }

    /// The ready headers, by previous block hash and then by shard.
    pub closed spec fn ready_headers(&self) -> Map<u64, Map<ShardId, ReadyHeader>> {
        self.block_hash_to_chunk_headers@.map_values(|m: HashMap<ShardId, ReadyHeader>| m@)
    }

    /// Each entry sits under its header's chunk hash; the incomplete index
    /// lists exactly the entries that are not complete, under the hash of
    /// their previous block; and neither it nor the ready headers hold an
    /// empty set.
    pub open spec fn wf(&self) -> bool {
        &&& forall|h: u64| #[trigger]
            self.entries().contains_key(h) ==> self.entries()[h].header.chunk_hash.0 == h
        &&& forall|p: u64| #[trigger]
            self.incomplete_index().contains_key(p) ==> self.incomplete_index()[p] != Set::<
                u64,
            >::empty()
        &&& forall|p: u64, h: u64|
            self.incomplete_index().contains_key(p) && #[trigger] self.incomplete_index()[p].contains(
                h,
            ) ==> self.entries().contains_key(h) && !self.entries()[h].complete
                && self.entries()[h].header.prev_block_hash.0 == p
        &&& forall|p: u64| #[trigger]
            self.ready_headers().contains_key(p) ==> self.ready_headers()[p] != Map::<
                ShardId,
                ReadyHeader,
            >::empty()
        &&& forall|h: u64| #[trigger]
            self.entries().contains_key(h) && !self.entries()[h].complete ==> {
                let p = self.entries()[h].header.prev_block_hash.0;
                self.incomplete_index().contains_key(p) && self.incomplete_index()[p].contains(h)
            }
    }

    /// Every entry is listed in the height index under its height.
    pub open spec fn indexed_by_height(&self) -> bool {
        forall|h: u64| #[trigger]
            self.entries().contains_key(h) ==> self.height_index().contains_key(
                self.entries()[h].header.height_created,
            ) && self.height_index()[self.entries()[h].header.height_created].contains(h)
    }

    pub fn new() -> (r: Self)
        ensures
            r.wf(),
            r.indexed_by_height(),
            r.largest_seen() == 0,
            r.entries() == Map::<u64, EntryView>::empty(),
            r.height_index() == Map::<BlockHeight, Set<u64>>::empty(),
            r.incomplete_index() == Map::<u64, Set<u64>>::empty(),
            r.ready_headers() == Map::<u64, Map<ShardId, ReadyHeader>>::empty(),
    {
        let r = EncodedChunksCache {
            largest_seen_height: 0,
            encoded_chunks: HashMap::new(),
            height_map: HashMap::new(),
            incomplete_chunks: HashMap::new(),
            block_hash_to_chunk_headers: HashMap::new(),
        };
        proof {
            assert(r.entries() =~= Map::empty());
            assert(r.height_index() =~= Map::empty());
            assert(r.incomplete_index() =~= Map::empty());
            assert(r.ready_headers() =~= Map::empty());
        }
        r
    }

    pub fn get(&self, chunk_hash: &ChunkHash) -> (r: Option<&EncodedChunksCacheEntry>)
        ensures
            match r {
                Some(e) => self.entries().contains_key(chunk_hash.0) && e@ == self.entries()[chunk_hash.0],
                None => !self.entries().contains_key(chunk_hash.0),
            },
    {
        self.encoded_chunks.get(&chunk_hash.0)
    }

    /// The number of entries.
    pub fn entry_count(&self) -> (r: usize)
        ensures
            r == self.entries().len(),
    {
        proof {
            assert(self.entries().dom() =~= self.encoded_chunks@.dom());
        }
        self.encoded_chunks.len()
    }

    /// The number of heights listed in the height index.
    pub fn indexed_height_count(&self) -> (r: usize)
        ensures
            r == self.height_index().len(),
    {
        proof {
            assert(self.height_index().dom() =~= self.height_map@.dom());
        }
        self.height_map.len()
    }

    /// Marks an entry as complete: it has all the parts and receipts needed.
    pub fn mark_entry_complete(&mut self, chunk_hash: &ChunkHash)
        requires
            old(self).wf(),
        ensures
            final(self).wf(),
            old(self).indexed_by_height() ==> final(self).indexed_by_height(),
            final(self).entries() == (if old(self).entries().contains_key(chunk_hash.0) {
                old(self).entries().insert(
                    chunk_hash.0,
                    EntryView { complete: true, ..old(self).entries()[chunk_hash.0] },
                )
            } else {
                old(self).entries()
            }),
            final(self).largest_seen() == old(self).largest_seen(),
            final(self).height_index() == old(self).height_index(),
            final(self).ready_headers() == old(self).ready_headers(),
    {
        let h = chunk_hash.0;
        if let Some(mut entry) = self.encoded_chunks.remove(&h) {
            entry.complete = true;
            let previous_block_hash = entry.header.prev_block_hash.0;
            self.encoded_chunks.insert(h, entry);
            self.remove_chunk_from_incomplete_chunks(previous_block_hash, h);
            proof {
                assert(self.entries() =~= old(self).entries().insert(
                    h,
                    EntryView { complete: true, ..old(self).entries()[h] },
                ));
                self.lemma_wf_after_index_removal(*old(self), previous_block_hash, h);
                assert(self.wf());
            }
        } else {
            proof {
                assert(self.entries() =~= old(self).entries());
                assert(self.incomplete_index() == old(self).incomplete_index());
                assert(self.ready_headers() == old(self).ready_headers());
            }
        }
    }

    /// Marks the header of an entry as fully validated.
    pub fn mark_entry_validated(&mut self, chunk_hash: &ChunkHash)
        requires
            old(self).wf(),
        ensures
            final(self).wf(),
            old(self).indexed_by_height() ==> final(self).indexed_by_height(),
            final(self).entries() == (if old(self).entries().contains_key(chunk_hash.0) {
                old(self).entries().insert(
                    chunk_hash.0,
                    EntryView { header_fully_validated: true, ..old(self).entries()[chunk_hash.0] },
                )
            } else {
                old(self).entries()
            }),
            final(self).largest_seen() == old(self).largest_seen(),
            final(self).height_index() == old(self).height_index(),
            final(self).incomplete_index() == old(self).incomplete_index(),
            final(self).ready_headers() == old(self).ready_headers(),
    {
        let h = chunk_hash.0;
        if let Some(mut entry) = self.encoded_chunks.remove(&h) {
            entry.header_fully_validated = true;
            self.encoded_chunks.insert(h, entry);
            proof {
                assert(self.entries() =~= old(self).entries().insert(
                    h,
                    EntryView { header_fully_validated: true, ..old(self).entries()[h] },
                ));
                assert(self.entries().dom() =~= old(self).entries().dom());
                self.lemma_wf_same_status(*old(self));
            }
        } else {
            proof {
                assert(self.entries() =~= old(self).entries());
                assert(self.incomplete_index() == old(self).incomplete_index());
                assert(self.ready_headers() == old(self).ready_headers());
            }
        }
    }

    /// The incomplete chunks whose previous block is `prev_block_hash`.
    pub fn get_incomplete_chunks(&self, prev_block_hash: &CryptoHash) -> (r: Option<&HashSet<u64>>)
        ensures
            match r {
                Some(s) => self.incomplete_index().contains_key(prev_block_hash.0)
                    && s@ == self.incomplete_index()[prev_block_hash.0],
                None => !self.incomplete_index().contains_key(prev_block_hash.0),
            },
    {
        self.incomplete_chunks.get(&prev_block_hash.0)
    }

    /// Removes an entry and takes it out of the incomplete index; the height
    /// index is left as it is.
    pub fn remove(&mut self, chunk_hash: &ChunkHash) -> (r: Option<EncodedChunksCacheEntry>)
        requires
            old(self).wf(),
        ensures
            final(self).wf(),
            old(self).indexed_by_height() ==> final(self).indexed_by_height(),
            match r {
                Some(e) => old(self).entries().contains_key(chunk_hash.0)
                    && e@ == old(self).entries()[chunk_hash.0],
                None => !old(self).entries().contains_key(chunk_hash.0),
            },
            final(self).entries() == old(self).entries().remove(chunk_hash.0),
            final(self).largest_seen() == old(self).largest_seen(),
            final(self).height_index() == old(self).height_index(),
            final(self).ready_headers() == old(self).ready_headers(),
    {
        let h = chunk_hash.0;
        if let Some(entry) = self.encoded_chunks.remove(&h) {
            let prev = entry.header.prev_block_hash.0;
            self.remove_chunk_from_incomplete_chunks(prev, h);
            proof {
                assert(self.entries() =~= old(self).entries().remove(h));
                self.lemma_wf_after_index_removal(*old(self), prev, h);
            }
            Some(entry)
        } else {
            proof {
                assert(self.entries() =~= old(self).entries().remove(h));
                assert(self.incomplete_index() == old(self).incomplete_index());
                assert(self.ready_headers() == old(self).ready_headers());
            }
            None
        }
    }

    /// A change that keeps the incomplete index, the keys of the entries and
    /// each entry's completeness and previous block keeps the cache well formed.
    proof fn lemma_wf_same_status(&self, before: Self)
        requires
            before.wf(),
            self.ready_headers() == before.ready_headers(),
            self.incomplete_index() == before.incomplete_index(),
            self.entries().dom() == before.entries().dom(),
            forall|k: u64| #[trigger] self.entries().contains_key(k) ==> {
                &&& self.entries()[k].complete == before.entries()[k].complete
                &&& self.entries()[k].header == before.entries()[k].header
            },
        ensures
            self.wf(),
    {
        assert forall|k: u64| #[trigger] before.entries().contains_key(k) implies self.entries().contains_key(k) by {}
    }

    /// Creates an empty entry from the header unless the chunk has one, and
    /// returns the chunk's entry.
    pub fn get_or_insert_from_header(&mut self, chunk_header: &ShardChunkHeader) -> (r:
        &EncodedChunksCacheEntry)
        requires
            old(self).wf(),
        ensures
            final(self).wf(),
            old(self).indexed_by_height() ==> final(self).indexed_by_height(),
            final(self).entries() == (if old(self).entries().contains_key(chunk_header.chunk_hash.0) {
                old(self).entries()
            } else {
                old(self).entries().insert(chunk_header.chunk_hash.0, empty_entry(*chunk_header))
            }),
            final(self).height_index() == (if old(self).entries().contains_key(
                chunk_header.chunk_hash.0,
            ) {
                old(self).height_index()
            } else {
                index_with(
                    old(self).height_index(),
                    chunk_header.height_created,
                    chunk_header.chunk_hash.0,
                )
            }),
            r@ == final(self).entries()[chunk_header.chunk_hash.0],
            final(self).largest_seen() == old(self).largest_seen(),
            final(self).ready_headers() == old(self).ready_headers(),
    {
        let chunk_hash = chunk_header.chunk_hash.0;
        if !self.encoded_chunks.contains_key(&chunk_hash) {
            insert_into_index(&mut self.height_map, chunk_header.height_created, chunk_hash);
            let prev = chunk_header.prev_block_hash.0;
            insert_into_index(&mut self.incomplete_chunks, prev, chunk_hash);
            self.encoded_chunks.insert(chunk_hash, EncodedChunksCacheEntry::from_chunk_header(*chunk_header));
            proof {
                assert(self.entries() =~= old(self).entries().insert(chunk_hash, empty_entry(*chunk_header)));
                self.lemma_wf_after_insert(*old(self), chunk_header.prev_block_hash.0, chunk_hash);
                if old(self).indexed_by_height() {
                    assert forall|h: u64| #[trigger] self.entries().contains_key(h) implies
                        self.height_index().contains_key(self.entries()[h].header.height_created)
                        && self.height_index()[self.entries()[h].header.height_created].contains(h) by {
                        if h != chunk_hash {
                            assert(old(self).entries().contains_key(h));
                        }
                    }
                }
            }
        } else {
            proof {
                assert(self.entries() =~= old(self).entries());
            }
        }
        self.encoded_chunks.get(&chunk_hash).unwrap()
    }

    /// Adds the parts and receipts of a partial chunk to the chunk's entry,
    /// creating the entry if needed, and returns the ords of the parts that
    /// were not known before.
    pub fn merge_in_partial_encoded_chunk(
        &mut self,
        partial_encoded_chunk: &PartialEncodedChunkV2,
    ) -> (r: HashSet<u64>)
        requires
            old(self).wf(),
        ensures
            ({
                let h = partial_encoded_chunk.header.chunk_hash.0;
                let base = if old(self).entries().contains_key(h) {
                    old(self).entries()[h]
                } else {
                    empty_entry(partial_encoded_chunk.header)
                };
                &&& final(self).entries() == old(self).entries().insert(
                    h,
                    merged_entry(base, partial_encoded_chunk),
                )
                &&& r@ == part_ords(parts_of(partial_encoded_chunk)).difference(base.parts.dom())
                &&& final(self).height_index() == (if old(self).entries().contains_key(h) {
                    old(self).height_index()
                } else {
                    index_with(
                        old(self).height_index(),
                        partial_encoded_chunk.header.height_created,
                        h,
                    )
                })
            }),
            final(self).wf(),
            old(self).indexed_by_height() ==> final(self).indexed_by_height(),
            final(self).largest_seen() == old(self).largest_seen(),
            final(self).ready_headers() == old(self).ready_headers(),
    {
        let h = partial_encoded_chunk.header.chunk_hash.0;
        self.get_or_insert_from_header(&partial_encoded_chunk.header);
        let ghost inserted = *self;
        proof {
            assert(self.entries().contains_key(h));
            assert(self.encoded_chunks@.contains_key(h));
        }
        let mut entry = self.encoded_chunks.remove(&h).unwrap();
        let r = entry.merge_in_partial_encoded_chunk(partial_encoded_chunk);
        self.encoded_chunks.insert(h, entry);
        proof {
            assert(self.entries() =~= inserted.entries().insert(h, entry@));
            assert(inserted.entries()[h] == (if old(self).entries().contains_key(h) {
                old(self).entries()[h]
            } else {
                empty_entry(partial_encoded_chunk.header)
            }));
            assert(self.entries().dom() =~= inserted.entries().dom());
            self.lemma_wf_same_status(inserted);
        }
        r
    }

    pub fn height_within_front_horizon(&self, height: BlockHeight) -> (r: bool)
        ensures
            r == (self.largest_seen() <= height <= self.largest_seen() + MAX_HEIGHTS_AHEAD),
    {
        height >= self.largest_seen_height && height - self.largest_seen_height <= MAX_HEIGHTS_AHEAD
    }

    pub fn height_within_rear_horizon(&self, height: BlockHeight) -> (r: bool)
        ensures
            r == (self.largest_seen() - HEIGHT_HORIZON <= height <= self.largest_seen()),
    {
        height <= self.largest_seen_height && self.largest_seen_height - height <= HEIGHT_HORIZON
    }

    pub fn height_within_horizon(&self, height: BlockHeight) -> (r: bool)
        ensures
            r == within_horizon(self.largest_seen(), height),
    {
        self.height_within_front_horizon(height) || self.height_within_rear_horizon(height)
    }

    /// Removes a chunk from the cache if its height is outside the horizon.
    pub fn remove_from_cache_if_outside_horizon(&mut self, chunk_hash: &ChunkHash)
        requires
            old(self).wf(),
        ensures
            final(self).wf(),
            old(self).indexed_by_height() ==> final(self).indexed_by_height(),
            final(self).entries() == (if old(self).entries().contains_key(chunk_hash.0)
                && !within_horizon(
                old(self).largest_seen(),
                old(self).entries()[chunk_hash.0].header.height_created,
            ) {
                old(self).entries().remove(chunk_hash.0)
            } else {
                old(self).entries()
            }),
            final(self).largest_seen() == old(self).largest_seen(),
            final(self).height_index() == old(self).height_index(),
            final(self).ready_headers() == old(self).ready_headers(),
    {
        let outside = match self.encoded_chunks.get(&chunk_hash.0) {
            Some(entry) => !self.height_within_horizon(entry.header.height_created),
            None => false,
        };
        if outside {
            self.remove(chunk_hash);
        }
    }

    /// Advances the largest seen height `H` to `new_height` (it never goes
    /// down) and drops the chunks listed in the height index at the heights
    /// that fall out of the rear horizon, that is
    /// `[old H - HEIGHT_HORIZON, new H - HEIGHT_HORIZON)`,
    /// except those in `requested_chunks`; the ready headers of the dropped
    /// chunks go too. The index entries of those heights are cleared.
    pub fn update_largest_seen_height<T>(
        &mut self,
        new_height: BlockHeight,
        requested_chunks: &HashMap<u64, T>,
    )
        requires
            old(self).wf(),
        ensures
            final(self).wf(),
            old(self).indexed_by_height() && (forall|h: u64| #[trigger] old(self).entries().contains_key(h)
                ==> !requested_chunks@.contains_key(h)) ==> final(self).indexed_by_height(),
            final(self).largest_seen() == max_height(old(self).largest_seen(), new_height),
            ({
                let evicted = listed_between(
                    old(self).height_index(),
                    floor_sub(old(self).largest_seen(), HEIGHT_HORIZON),
                    floor_sub(max_height(old(self).largest_seen(), new_height), HEIGHT_HORIZON),
                    requested_chunks@.dom(),
                );
                &&& final(self).entries() == old(self).entries().remove_keys(evicted)
                &&& final(self).ready_headers() == ready_without(
                    old(self).ready_headers(),
                    header_keys(old(self).entries(), evicted),
                )
            }),
            final(self).height_index() == old(self).height_index().remove_keys(
                heights_between(
                    floor_sub(old(self).largest_seen(), HEIGHT_HORIZON),
                    floor_sub(max_height(old(self).largest_seen(), new_height), HEIGHT_HORIZON),
                ),
            ),
    {
        let old_largest_seen_height = self.largest_seen_height;
        let largest = if new_height > old_largest_seen_height {
            new_height
        } else {
            old_largest_seen_height
        };
        self.largest_seen_height = largest;
        let lo: u64 = if old_largest_seen_height >= HEIGHT_HORIZON {
            old_largest_seen_height - HEIGHT_HORIZON
        } else {
            0
        };
        let hi: u64 = if largest >= HEIGHT_HORIZON {
            largest - HEIGHT_HORIZON
        } else {
            0
        };
        let ghost start = *self;
        let ghost req = requested_chunks@.dom();
        proof {
            assert(start.entries() == old(self).entries());
            assert(start.incomplete_index() == old(self).incomplete_index());
            assert(start.ready_headers() == old(self).ready_headers());
            assert(start.height_index() == old(self).height_index());
            assert(start.entries().remove_keys(listed_between(start.height_index(), lo as int, lo as int, req)) =~= start.entries());
            assert(start.height_index().remove_keys(heights_between(lo as int, lo as int)) =~= start.height_index());
            assert(header_keys(start.entries(), listed_between(start.height_index(), lo as int, lo as int, req)) =~= Set::empty());
            lemma_ready_without_nothing(start.ready_headers());
        }
        let mut height: u64 = lo;
        while height < hi
            invariant
                lo <= height,
                height <= hi || height == lo,
                self.wf(),
                self.largest_seen() == largest,
                requested_chunks@.dom() == req,
                self.entries() == start.entries().remove_keys(
                    listed_between(start.height_index(), lo as int, height as int, req),
                ),
                self.height_index() == start.height_index().remove_keys(
                    heights_between(lo as int, height as int),
                ),
                self.ready_headers() == ready_without(
                    start.ready_headers(),
                    header_keys(
                        start.entries(),
                        listed_between(start.height_index(), lo as int, height as int, req),
                    ),
                ),
            decreases hi - height,
        {
            let ghost hidx = start.height_index();
            let ghost base = listed_between(hidx, lo as int, height as int, req);
            let ghost next = listed_between(hidx, lo as int, height + 1, req);
            let ghost cur = self.height_index();
            let ghost before_removal = *self;
            let bucket = self.height_map.remove(&height);
            proof {
                assert(self.entries() == before_removal.entries());
                assert(self.incomplete_index() == before_removal.incomplete_index());
                assert(self.ready_headers() == before_removal.ready_headers());
                assert(self.height_index() =~= cur.remove(height));
                assert(self.height_index() =~= start.height_index().remove_keys(
                    heights_between(lo as int, height + 1),
                ));
                assert(cur.contains_key(height) == hidx.contains_key(height));
                if cur.contains_key(height) {
                    assert(cur[height] == hidx[height]);
                }
                assert(base.subset_of(next)) by {
                    assert forall|h: u64| base.contains(h) implies next.contains(h) by {
                        let ht = choose|ht: u64|
                            lo <= ht < height && hidx.contains_key(ht) && #[trigger] hidx[ht].contains(h)
                                && !req.contains(h);
                    }
                }
            }
            match bucket {
                Some(chunks_to_remove) => {
                    proof {
                        assert(hidx.contains_key(height));
                        assert(chunks_to_remove@ == hidx[height]);
                    }
                    let ghost mut done: Set<u64> = base;
                    for ch in it: chunks_to_remove.iter()
                        invariant
                            self.wf(),
                            self.largest_seen() == largest,
                            requested_chunks@.dom() == req,
                            self.height_index() == start.height_index().remove_keys(
                                heights_between(lo as int, height + 1),
                            ),
                            lo <= height < hi,
                            chunks_to_remove@ == hidx[height],
                            it.seq().unref().to_set() == chunks_to_remove@,
                            hidx.contains_key(height),
                            hidx == start.height_index(),
                            base == listed_between(hidx, lo as int, height as int, req),
                            next == listed_between(hidx, lo as int, height + 1, req),
                            base.subset_of(done),
                            done.subset_of(next),
                            forall|j: int|
                                0 <= j < it.index() && !req.contains(*it.seq()[j]) ==> done.contains(
                                    *#[trigger] it.seq()[j],
                                ),
                            forall|v: u64| #[trigger]
                                chunks_to_remove@.contains(v) ==> exists|j: int|
                                    0 <= j < it.seq().len() && *it.seq()[j] == v,
                            it.index() == it.seq().len() ==> done =~= next,
                            self.entries() == start.entries().remove_keys(done),
                            self.ready_headers() == ready_without(
                                start.ready_headers(),
                                header_keys(start.entries(), done),
                            ),
                    {
                        let chunk_hash = *ch;
                        proof {
                            assert(chunks_to_remove@.contains(chunk_hash)) by {
                                assert(it.seq().unref().to_set() == chunks_to_remove@);
                                assert(it.seq().unref()[it.index() as int] == chunk_hash);
                            }
                        }
                        if !requested_chunks.contains_key(&chunk_hash) {
                            let ghost e = start.entries();
                            let ghost gone = header_keys(e, done);
                            proof {
                                lemma_header_keys_insert(e, done, chunk_hash);
                                assert(hidx[height].contains(chunk_hash));
                                assert(!req.contains(chunk_hash));
                                assert(next.contains(chunk_hash));
                            }
                            if let Some(entry) = self.remove(&ChunkHash(chunk_hash)) {
                                proof {
                                    assert(!done.contains(chunk_hash));
                                    assert(e.contains_key(chunk_hash));
                                    assert(entry@ == e[chunk_hash]);
                                }
                                self.remove_chunk_header(&entry.header);
                                proof {
                                    lemma_ready_without_twice(
                                        start.ready_headers(),
                                        gone,
                                        header_key(entry.header),
                                    );
                                }
                            } else {
                                proof {
                                    assert(!e.contains_key(chunk_hash) || done.contains(chunk_hash));
                                    if done.contains(chunk_hash) {
                                        assert(done.insert(chunk_hash) =~= done);
                                    }
                                }
                            }
                            proof {
                                done = done.insert(chunk_hash);
                                assert(self.entries() =~= start.entries().remove_keys(done));
                            }
                        }
                    }
                },
                None => {
                    proof {
                        assert(next =~= base) by {
                            assert forall|h: u64| next.contains(h) implies base.contains(h) by {
                                let ht = choose|ht: u64|
                                    lo <= ht < height + 1 && hidx.contains_key(ht) && #[trigger] hidx[ht].contains(h)
                                        && !req.contains(h);
                                assert(ht != height);
                            }
                        }
                    }
                },
            }
            height = height + 1;
        }
        proof {
            if old(self).indexed_by_height() && (forall|h: u64| #[trigger] old(self).entries().contains_key(h)
                ==> !requested_chunks@.contains_key(h)) {
                let hidx = start.height_index();
                assert forall|h: u64| #[trigger] self.entries().contains_key(h) implies
                    self.height_index().contains_key(self.entries()[h].header.height_created)
                    && self.height_index()[self.entries()[h].header.height_created].contains(h) by {
                    assert(start.entries().contains_key(h));
                    let ht = start.entries()[h].header.height_created;
                    assert(hidx.contains_key(ht) && hidx[ht].contains(h));
                    if lo <= ht < height {
                        assert(listed_between(hidx, lo as int, height as int, req).contains(h));
                    }
                }
            }
            if hi < lo {
                assert(heights_between(lo as int, hi as int) =~= heights_between(lo as int, lo as int));
                assert(listed_between(start.height_index(), lo as int, hi as int, req) =~= listed_between(
                    start.height_index(),
                    lo as int,
                    lo as int,
                    req,
                ));
            }
        }
    }

    /// Records that `header` can be included in the block after its previous
    /// block, stamped with the current time, if its height is within
    /// `[H - CHUNK_HEADER_HEIGHT_HORIZON, H + MAX_HEIGHTS_AHEAD]`.
    pub fn insert_chunk_header(&mut self, shard_id: ShardId, header: ShardChunkHeader, chunk_producer: AccountId)
        requires
            old(self).wf(),
        ensures
            final(self).wf(),
            old(self).indexed_by_height() ==> final(self).indexed_by_height(),
            final(self).entries() == old(self).entries(),
            final(self).largest_seen() == old(self).largest_seen(),
            final(self).height_index() == old(self).height_index(),
            final(self).incomplete_index() == old(self).incomplete_index(),
            exists|now: UtcMillis|
                final(self).ready_headers() == ready_with(
                    old(self).ready_headers(),
                    old(self).largest_seen(),
                    shard_id,
                    (header, now, chunk_producer),
                ),
    {
        let now = utc_now_millis();
        self.insert_chunk_header_at(shard_id, header, chunk_producer, now);
    }

    /// `insert_chunk_header` with the arrival time given.
    pub fn insert_chunk_header_at(
        &mut self,
        shard_id: ShardId,
        header: ShardChunkHeader,
        chunk_producer: AccountId,
        now: UtcMillis,
    )
        requires
            old(self).wf(),
        ensures
            final(self).wf(),
            old(self).indexed_by_height() ==> final(self).indexed_by_height(),
            final(self).ready_headers() == ready_with(
                old(self).ready_headers(),
                old(self).largest_seen(),
                shard_id,
                (header, now, chunk_producer),
            ),
            final(self).entries() == old(self).entries(),
            final(self).largest_seen() == old(self).largest_seen(),
            final(self).height_index() == old(self).height_index(),
            final(self).incomplete_index() == old(self).incomplete_index(),
    {
        let height = header.height_created;
        let h = self.largest_seen_height;
        let low = if h >= CHUNK_HEADER_HEIGHT_HORIZON {
            h - CHUNK_HEADER_HEIGHT_HORIZON
        } else {
            0
        };
        if height >= low && (height <= h || height - h <= MAX_HEIGHTS_AHEAD) {
            let prev_block_hash = header.prev_block_hash.0;
            let mut headers = match self.block_hash_to_chunk_headers.remove(&prev_block_hash) {
                Some(headers) => headers,
                None => HashMap::new(),
            };
            headers.insert(shard_id, (header, now, chunk_producer));
            self.block_hash_to_chunk_headers.insert(prev_block_hash, headers);
            proof {
                assert(self.ready_headers() =~= ready_with(
                    old(self).ready_headers(),
                    old(self).largest_seen(),
                    shard_id,
                    (header, now, chunk_producer),
                ));
                assert(self.ready_headers()[prev_block_hash].contains_key(shard_id));
                self.lemma_wf_ready_changed(*old(self));
                assert(self.entries() == old(self).entries());
                assert(self.height_index() == old(self).height_index());
            }
        }
    }

    /// The headers ready to be included in the block after `prev_block_hash`,
    /// by shard. They stay in the cache, since another block may be produced
    /// on the same previous block.
    pub fn get_chunk_headers_for_block(&self, prev_block_hash: &CryptoHash) -> (r: HashMap<
        ShardId,
        ReadyHeader,
    >)
        ensures
            r@ == (if self.ready_headers().contains_key(prev_block_hash.0) {
                self.ready_headers()[prev_block_hash.0]
            } else {
                Map::empty()
            }),
    {
        match self.block_hash_to_chunk_headers.get(&prev_block_hash.0) {
            Some(headers) => headers.clone(),
            None => HashMap::new(),
        }
    }

    /// Drops the ready header under the previous block and shard of `header`
    /// if it is the header of the same chunk.
    fn remove_chunk_header(&mut self, header: &ShardChunkHeader)
        requires
            old(self).wf(),
        ensures
            final(self).wf(),
            final(self).ready_headers() == ready_without(
                old(self).ready_headers(),
                set![header_key(*header)],
            ),
            final(self).entries() == old(self).entries(),
            final(self).largest_seen() == old(self).largest_seen(),
            final(self).height_index() == old(self).height_index(),
            final(self).incomplete_index() == old(self).incomplete_index(),
    {
        let prev_block_hash = header.prev_block_hash.0;
        let shard_id = header.shard_id;
        let ghost gone = set![header_key(*header)];
        let ghost ready = old(self).ready_headers();
        let ghost target = ready_without(ready, gone);
        proof {
            assert forall|p: u64| p != prev_block_hash implies
                (#[trigger] target.contains_key(p) <==> ready.contains_key(p)) by {
                if ready.contains_key(p) {
                    if !(exists|s: ShardId| ready[p].contains_key(s)) {
                        assert(ready[p] =~= Map::empty());
                    }
                    let s = choose|s: ShardId| ready[p].contains_key(s);
                    assert(ready_kept(ready, gone, p, s));
                }
            }
            assert forall|p: u64| p != prev_block_hash && #[trigger] target.contains_key(p) implies
                target[p] == ready[p] by {
                assert(target[p] =~= ready[p]);
            }
        }
        if let Some(mut chunk_headers) = self.block_hash_to_chunk_headers.remove(&prev_block_hash) {
            let same_chunk = match chunk_headers.get(&shard_id) {
                Some(ready_header) => ready_header.0.chunk_hash == header.chunk_hash,
                None => false,
            };
            if same_chunk {
                chunk_headers.remove(&shard_id);
            }
            let keep = !chunk_headers.is_empty();
            if keep {
                self.block_hash_to_chunk_headers.insert(prev_block_hash, chunk_headers);
            }
            proof {
                let cur = self.ready_headers();
                assert forall|s: ShardId|
                    #[trigger] chunk_headers@.contains_key(s) <==> ready_kept(ready, gone, prev_block_hash, s) by {
                    if s == shard_id && ready[prev_block_hash].contains_key(s) {
                        if ready[prev_block_hash][s].0.chunk_hash.0 == header.chunk_hash.0 {
                            assert(ready[prev_block_hash][s].0.chunk_hash == header.chunk_hash);
                        }
                    }
                }
                if !keep {
                    assert(chunk_headers@ =~= Map::empty());
                    assert(!target.contains_key(prev_block_hash));
                    assert(cur =~= ready.remove(prev_block_hash));
                } else {
                    if !(exists|s: ShardId| chunk_headers@.contains_key(s)) {
                        assert(chunk_headers@ =~= Map::empty());
                    }
                    let s = choose|s: ShardId| chunk_headers@.contains_key(s);
                    assert(ready_kept(ready, gone, prev_block_hash, s));
                    assert(target[prev_block_hash] =~= chunk_headers@);
                    assert(cur =~= ready.insert(prev_block_hash, chunk_headers@));
                    assert(cur[prev_block_hash] != Map::<ShardId, ReadyHeader>::empty()) by {
                        assert(cur[prev_block_hash].contains_key(s));
                    }
                }
                assert forall|p: u64| #[trigger] cur.contains_key(p) <==> target.contains_key(p) by {
                    if p != prev_block_hash {
                        assert(target.contains_key(p) <==> ready.contains_key(p));
                    }
                }
                assert forall|p: u64| #[trigger] cur.contains_key(p) implies cur[p] == target[p] by {
                    if p != prev_block_hash {
                        assert(target[p] == ready[p]);
                    }
                }
                assert(cur =~= target);
                self.lemma_wf_ready_changed(*old(self));
            }
        } else {
            proof {
                assert(!target.contains_key(prev_block_hash));
                assert(self.ready_headers() =~= target);
                assert(self.ready_headers() == old(self).ready_headers());
                assert(self.entries() == old(self).entries());
                assert(self.incomplete_index() == old(self).incomplete_index());
            }
        }
    }

    /// After a new entry was added, with its hash added to the incomplete
    /// index under its previous block, the cache is well formed again.
    proof fn lemma_wf_after_insert(&self, before: Self, p: u64, h: u64)
        requires
            before.wf(),
            self.ready_headers() == before.ready_headers(),
            !before.entries().contains_key(h),
            self.entries().contains_key(h),
            !self.entries()[h].complete,
            self.entries()[h].header.prev_block_hash.0 == p,
            self.entries()[h].header.chunk_hash.0 == h,
            self.entries() == before.entries().insert(h, self.entries()[h]),
            self.incomplete_index() == index_with(before.incomplete_index(), p, h),
        ensures
            self.wf(),
    {
        let idx = self.incomplete_index();
        let old_idx = before.incomplete_index();
        assert forall|q: u64| #[trigger] idx.contains_key(q) implies idx[q] != Set::<u64>::empty() by {
            if q == p {
                assert(idx[q].contains(h));
            }
        }
        assert forall|q: u64, k: u64| idx.contains_key(q) && #[trigger] idx[q].contains(k) implies
            self.entries().contains_key(k) && !self.entries()[k].complete
                && self.entries()[k].header.prev_block_hash.0 == q by {
            if k != h {
                if q == p && old_idx.contains_key(p) {
                    assert(old_idx[p].contains(k));
                } else if q != p {
                    assert(old_idx[q].contains(k));
                }
                assert(before.entries().contains_key(k));
            } else if q != p {
                assert(old_idx[q].contains(k));
            }
        }
        assert forall|k: u64| #[trigger] self.entries().contains_key(k) && !self.entries()[k].complete
            implies {
                let q = self.entries()[k].header.prev_block_hash.0;
                idx.contains_key(q) && idx[q].contains(k)
            } by {
            if k != h {
                assert(before.entries().contains_key(k));
                let q = before.entries()[k].header.prev_block_hash.0;
                assert(old_idx.contains_key(q) && old_idx[q].contains(k));
            }
        }
    }

    /// A change of the ready headers alone keeps the cache well formed if no
    /// block is left with an empty map.
    proof fn lemma_wf_ready_changed(&self, before: Self)
        requires
            before.wf(),
            self.entries() == before.entries(),
            self.incomplete_index() == before.incomplete_index(),
            forall|p: u64| #[trigger]
                self.ready_headers().contains_key(p) ==> self.ready_headers()[p] != Map::<
                    ShardId,
                    ReadyHeader,
                >::empty(),
        ensures
            self.wf(),
    {
    }

    /// After an entry left the incomplete index (by being removed or marked
    /// complete), the cache is well formed again.
    proof fn lemma_wf_after_index_removal(&self, before: Self, p: u64, h: u64)
        requires
            before.wf(),
            self.ready_headers() == before.ready_headers(),
            before.entries().contains_key(h),
            before.entries()[h].header.prev_block_hash.0 == p,
            self.incomplete_index() == index_without(before.incomplete_index(), p, h),
            !self.entries().contains_key(h) || self.entries()[h].complete,
            self.entries().contains_key(h) ==> before.entries().contains_key(h)
                && self.entries()[h].header == before.entries()[h].header,
            forall|k: u64| k != h ==> (#[trigger] self.entries().contains_key(k)
                <==> before.entries().contains_key(k)),
            forall|k: u64| k != h && #[trigger] self.entries().contains_key(k) ==>
                self.entries()[k] == before.entries()[k],
        ensures
            self.wf(),
    {
        let idx = self.incomplete_index();
        let old_idx = before.incomplete_index();
        assert forall|q: u64| #[trigger] idx.contains_key(q) implies idx[q] != Set::<u64>::empty() by {
            if q == p && old_idx.contains_key(p) {
                assert(idx[q] == old_idx[p].remove(h));
            }
        }
        assert forall|q: u64, k: u64| idx.contains_key(q) && #[trigger] idx[q].contains(k) implies
            self.entries().contains_key(k) && !self.entries()[k].complete
                && self.entries()[k].header.prev_block_hash.0 == q by {
            if q == p && old_idx.contains_key(p) {
                assert(old_idx[p].remove(h).contains(k));
            } else {
                assert(old_idx[q].contains(k));
            }
            assert(k != h);
            assert(before.entries().contains_key(k));
            assert(self.entries().contains_key(k));
            assert(self.entries()[k] == before.entries()[k]);
        }
        assert forall|k: u64| #[trigger] self.entries().contains_key(k) && !self.entries()[k].complete
            implies {
                let q = self.entries()[k].header.prev_block_hash.0;
                idx.contains_key(q) && idx[q].contains(k)
            } by {
            assert(before.entries().contains_key(k));
            let q = before.entries()[k].header.prev_block_hash.0;
            assert(old_idx.contains_key(q) && old_idx[q].contains(k));
            if q == p {
                assert(old_idx[p].remove(h).contains(k));
            }
        }
    }

    /// Takes `chunk_hash` out of the incomplete index under `prev_block_hash`,
    /// dropping the key when its set becomes empty.
    fn remove_chunk_from_incomplete_chunks(&mut self, prev_block_hash: u64, chunk_hash: u64)
        ensures
            final(self).incomplete_index() == index_without(
                old(self).incomplete_index(),
                prev_block_hash,
                chunk_hash,
            ),
            final(self).entries() == old(self).entries(),
            final(self).largest_seen() == old(self).largest_seen(),
            final(self).height_index() == old(self).height_index(),
            final(self).ready_headers() == old(self).ready_headers(),
    {
        if let Some(mut chunks) = self.incomplete_chunks.remove(&prev_block_hash) {
            chunks.remove(&chunk_hash);
            if chunks.is_empty() {
                proof {
                    assert(chunks@ =~= Set::<u64>::empty());
                    assert(self.incomplete_index() =~= index_without(
                        old(self).incomplete_index(),
                        prev_block_hash,
                        chunk_hash,
                    ));
                }
            } else {
                self.incomplete_chunks.insert(prev_block_hash, chunks);
                proof {
                    assert(chunks@ != Set::<u64>::empty()) by {
                        if chunks@ == Set::<u64>::empty() {
                            assert(chunks@.len() == 0);
                        }
                    }
                    assert(self.incomplete_index() =~= index_without(
                        old(self).incomplete_index(),
                        prev_block_hash,
                        chunk_hash,
                    ));
                }
            }
        }
    }
}

/// `idx` with `h` taken out of the set under `p`; a set left empty is dropped.
pub open spec fn index_without(idx: Map<u64, Set<u64>>, p: u64, h: u64) -> Map<u64, Set<u64>> {
    if idx.contains_key(p) {
        let s = idx[p].remove(h);
        if s == Set::<u64>::empty() {
            idx.remove(p)
        } else {
            idx.insert(p, s)
        }
    } else {
        idx
    }
}


/// Adds `h` to the set under `k`, creating the set if needed.
fn insert_into_index(index: &mut HashMap<u64, HashSet<u64>>, k: u64, h: u64)
    ensures
        final(index)@.map_values(|s: HashSet<u64>| s@) == index_with(
            old(index)@.map_values(|s: HashSet<u64>| s@),
            k,
            h,
        ),
{
    let mut set = match index.remove(&k) {
        Some(set) => set,
        None => HashSet::new(),
    };
    set.insert(h);
    index.insert(k, set);
    proof {
        assert(final(index)@.map_values(|s: HashSet<u64>| s@) =~= index_with(
            old(index)@.map_values(|s: HashSet<u64>| s@),
            k,
            h,
        ));
    }
}

/// `ready` after a header was offered under `shard_id`: recorded, replacing
/// any header for the same block and shard, if its height lies within
/// `[h - CHUNK_HEADER_HEIGHT_HORIZON, h + MAX_HEIGHTS_AHEAD]`.
pub open spec fn ready_with(
    ready: Map<u64, Map<ShardId, ReadyHeader>>,
    h: u64,
    shard_id: ShardId,
    item: ReadyHeader,
) -> Map<u64, Map<ShardId, ReadyHeader>> {
    let header = item.0;
    if floor_sub(h, CHUNK_HEADER_HEIGHT_HORIZON) <= header.height_created <= h + MAX_HEIGHTS_AHEAD {
        let p = header.prev_block_hash.0;
        let headers = if ready.contains_key(p) {
            ready[p]
        } else {
            Map::empty()
        };
        ready.insert(p, headers.insert(shard_id, item))
    } else {
        ready
    }
}

/// Dropping no header keeps the ready headers as they are.
pub proof fn lemma_ready_without_nothing(ready: Map<u64, Map<ShardId, ReadyHeader>>)
    requires
        forall|p: u64| #[trigger] ready.contains_key(p) ==> ready[p] != Map::<ShardId, ReadyHeader>::empty(),
    ensures
        ready_without(ready, Set::empty()) == ready,
{
    let r = ready_without(ready, Set::empty());
    assert forall|p: u64| #[trigger] ready.contains_key(p) implies r.contains_key(p) && r[p] == ready[p] by {
        if !(exists|s: ShardId| ready[p].contains_key(s)) {
            assert(ready[p] =~= Map::empty());
        }
        let s = choose|s: ShardId| ready[p].contains_key(s);
        assert(ready_kept(ready, Set::empty(), p, s));
        assert(r[p] =~= ready[p]);
    }
    assert(r =~= ready);
}

/// Dropping the headers keyed in `gone` and then the one keyed `t` is
/// dropping those keyed in `gone` with `t`.
pub proof fn lemma_ready_without_twice(
    ready: Map<u64, Map<ShardId, ReadyHeader>>,
    gone: Set<(u64, ShardId, u64)>,
    t: (u64, ShardId, u64),
)
    ensures
        ready_without(ready_without(ready, gone), set![t]) == ready_without(ready, gone.insert(t)),
{
    let r1 = ready_without(ready, gone);
    let a = ready_without(r1, set![t]);
    let b = ready_without(ready, gone.insert(t));
    assert forall|p: u64, s: ShardId| ready_kept(r1, set![t], p, s) <==> ready_kept(ready, gone.insert(t), p, s) by {
        if ready_kept(ready, gone.insert(t), p, s) {
            assert(ready_kept(ready, gone, p, s));
            assert(r1.contains_key(p));
        }
    }
    assert forall|p: u64| #[trigger] a.contains_key(p) <==> b.contains_key(p) by {
        if a.contains_key(p) {
            let s = choose|s: ShardId| ready_kept(r1, set![t], p, s);
            assert(ready_kept(ready, gone.insert(t), p, s));
        }
        if b.contains_key(p) {
            let s = choose|s: ShardId| ready_kept(ready, gone.insert(t), p, s);
            assert(ready_kept(r1, set![t], p, s));
        }
    }
    assert forall|p: u64| #[trigger] a.contains_key(p) implies a[p] == b[p] by {
        assert(a[p] =~= b[p]);
    }
    assert(a =~= b);
}

/// Adding a hash adds the key of its entry's header, if it has an entry.
pub proof fn lemma_header_keys_insert(entries: Map<u64, EntryView>, hashes: Set<u64>, h: u64)
    ensures
        entries.contains_key(h) ==> header_keys(entries, hashes.insert(h)) == header_keys(
            entries,
            hashes,
        ).insert(header_key(entries[h].header)),
        !entries.contains_key(h) ==> header_keys(entries, hashes.insert(h)) == header_keys(
            entries,
            hashes,
        ),
{
    if entries.contains_key(h) {
        assert(header_keys(entries, hashes.insert(h)) =~= header_keys(entries, hashes).insert(
            header_key(entries[h].header),
        ));
    } else {
        assert(header_keys(entries, hashes.insert(h)) =~= header_keys(entries, hashes));
    }
}

/// `idx` with `h` added to the set under `k`.
pub open spec fn index_with(idx: Map<u64, Set<u64>>, k: u64, h: u64) -> Map<u64, Set<u64>> {
    idx.insert(k, if idx.contains_key(k) { idx[k].insert(h) } else { set![h] })
}

/// Whether `height` lies in the window kept around the largest seen height `h`.
pub open spec fn within_horizon(h: u64, height: u64) -> bool {
    ||| h <= height <= h + MAX_HEIGHTS_AHEAD
    ||| h - HEIGHT_HORIZON <= height <= h
}

/// The key that identifies a ready header: previous block, shard and chunk hash.
pub open spec fn header_key(header: ShardChunkHeader) -> (u64, ShardId, u64) {
    (header.prev_block_hash.0, header.shard_id, header.chunk_hash.0)
}

/// Whether the ready header under `p` and `s` is kept when the headers keyed
/// in `gone` are dropped.
pub open spec fn ready_kept(
    ready: Map<u64, Map<ShardId, ReadyHeader>>,
    gone: Set<(u64, ShardId, u64)>,
    p: u64,
    s: ShardId,
) -> bool {
    &&& ready.contains_key(p)
    &&& ready[p].contains_key(s)
    &&& !gone.contains((p, s, ready[p][s].0.chunk_hash.0))
}

/// `ready` without the headers keyed in `gone`; a block left with none is dropped.
pub open spec fn ready_without(
    ready: Map<u64, Map<ShardId, ReadyHeader>>,
    gone: Set<(u64, ShardId, u64)>,
) -> Map<u64, Map<ShardId, ReadyHeader>> {
    Map::new(
        |p: u64| exists|s: ShardId| ready_kept(ready, gone, p, s),
        |p: u64| Map::new(|s: ShardId| ready_kept(ready, gone, p, s), |s: ShardId| ready[p][s]),
    )
}

/// The keys of the headers of the entries under the hashes in `hashes`.
pub open spec fn header_keys(entries: Map<u64, EntryView>, hashes: Set<u64>) -> Set<(u64, ShardId, u64)> {
    Set::new(
        |t: (u64, ShardId, u64)|
            exists|h: u64|
                hashes.contains(h) && entries.contains_key(h) && #[trigger] header_key(entries[h].header)
                    == t,
    )
}

/// The hashes listed in `idx` at a height in `[lo, hi)` that are not in `pinned`.
pub open spec fn listed_between(idx: Map<u64, Set<u64>>, lo: int, hi: int, pinned: Set<u64>) -> Set<u64> {
    Set::new(
        |h: u64|
            exists|ht: u64|
                lo <= ht < hi && idx.contains_key(ht) && #[trigger] idx[ht].contains(h) && !pinned.contains(h),
    )
}

/// The heights in `[lo, hi)`.
pub open spec fn heights_between(lo: int, hi: int) -> Set<u64> {
    Set::new(|ht: u64| lo <= ht < hi)
}

/// The incomplete index holds only entries that are not complete, and no
/// complete entry is listed in it. Every operation of the cache keeps this.
pub proof fn lemma_incomplete_index_sound(cache: &EncodedChunksCache)
    requires
        cache.wf(),
    ensures
        forall|p: u64, h: u64|
            cache.incomplete_index().contains_key(p) && #[trigger] cache.incomplete_index()[p].contains(h)
                ==> cache.entries().contains_key(h) && !cache.entries()[h].complete,
        forall|p: u64, h: u64|
            cache.entries().contains_key(h) && cache.entries()[h].complete
                && cache.incomplete_index().contains_key(p) ==> !#[trigger] cache.incomplete_index()[p].contains(h),
{
}

/// After the largest seen height advances to `H'` (the larger of the old one
/// and `new_height`), every entry left lies within
/// `[H' - HEIGHT_HORIZON, H' + MAX_HEIGHTS_AHEAD]` or is requested; this
/// holds when, before the update, every entry was listed in the height index
/// under its height and lay between the old rear horizon and
/// `H' + MAX_HEIGHTS_AHEAD`.
pub proof fn lemma_height_update_keeps_horizon(
    before: EncodedChunksCache,
    after: EncodedChunksCache,
    new_height: BlockHeight,
    requested: Set<u64>,
)
    requires
        before.wf(),
        before.indexed_by_height(),
        forall|h: u64| #[trigger]
            before.entries().contains_key(h) ==> floor_sub(before.largest_seen(), HEIGHT_HORIZON)
                <= before.entries()[h].header.height_created <= max_height(before.largest_seen(), new_height)
                + MAX_HEIGHTS_AHEAD,
        after.entries() == before.entries().remove_keys(
            listed_between(
                before.height_index(),
                floor_sub(before.largest_seen(), HEIGHT_HORIZON),
                floor_sub(max_height(before.largest_seen(), new_height), HEIGHT_HORIZON),
                requested,
            ),
        ),
    ensures
        forall|h: u64| #[trigger]
            after.entries().contains_key(h) ==> {
                ||| max_height(before.largest_seen(), new_height) - HEIGHT_HORIZON
                    <= after.entries()[h].header.height_created <= max_height(before.largest_seen(), new_height)
                    + MAX_HEIGHTS_AHEAD
                ||| requested.contains(h)
            },
{
    let lo = floor_sub(before.largest_seen(), HEIGHT_HORIZON);
    let hi = floor_sub(max_height(before.largest_seen(), new_height), HEIGHT_HORIZON);
    let evicted = listed_between(before.height_index(), lo, hi, requested);
    assert forall|h: u64| #[trigger] after.entries().contains_key(h) implies {
        ||| max_height(before.largest_seen(), new_height) - HEIGHT_HORIZON
            <= after.entries()[h].header.height_created <= max_height(before.largest_seen(), new_height)
            + MAX_HEIGHTS_AHEAD
        ||| requested.contains(h)
    } by {
        assert(before.entries().contains_key(h) && !evicted.contains(h));
        let ht = before.entries()[h].header.height_created;
        assert(before.height_index().contains_key(ht) && before.height_index()[ht].contains(h));
        if !requested.contains(h) && ht < hi {
            assert(evicted.contains(h));
        }
    }
}

/// Dropping the ready headers of evicted chunks keeps every ready header of
/// a chunk that was not evicted, unchanged.
pub proof fn lemma_eviction_spares_other_ready_headers(cache: &EncodedChunksCache, evicted: Set<u64>)
    requires
        cache.wf(),
    ensures
        forall|p: u64, s: ShardId|
            cache.ready_headers().contains_key(p) && #[trigger] cache.ready_headers()[p].contains_key(s)
                && !evicted.contains(cache.ready_headers()[p][s].0.chunk_hash.0) ==> {
                let after = ready_without(cache.ready_headers(), header_keys(cache.entries(), evicted));
                &&& after.contains_key(p)
                &&& after[p].contains_key(s)
                &&& after[p][s] == cache.ready_headers()[p][s]
            },
{
    let ready = cache.ready_headers();
    let gone = header_keys(cache.entries(), evicted);
    assert forall|p: u64, s: ShardId|
        ready.contains_key(p) && #[trigger] ready[p].contains_key(s) && !evicted.contains(
            ready[p][s].0.chunk_hash.0,
        ) implies ready_kept(ready, gone, p, s) by {
        let c = ready[p][s].0.chunk_hash.0;
        if gone.contains((p, s, c)) {
            let h = choose|h: u64|
                evicted.contains(h) && cache.entries().contains_key(h) && #[trigger] header_key(
                    cache.entries()[h].header,
                ) == (p, s, c);
            assert(cache.entries()[h].header.chunk_hash.0 == h);
        }
    }
}

/// The parts known after merging each batch of `batches` in turn.
pub open spec fn merge_batches(known: Map<u64, PartView>, batches: Seq<Seq<PartView>>) -> Map<u64, PartView>
    decreases batches.len(),
{
    if batches.len() == 0 {
        known
    } else {
        merge_parts(merge_batches(known, batches.drop_last()), batches.last())
    }
}

/// The union of the ords that the merges of `batches`, in turn, report as new.
pub open spec fn reported_new(known: Map<u64, PartView>, batches: Seq<Seq<PartView>>) -> Set<u64>
    decreases batches.len(),
{
    if batches.len() == 0 {
        Set::empty()
    } else {
        reported_new(known, batches.drop_last()).union(
            part_ords(batches.last()).difference(merge_batches(known, batches.drop_last()).dom()),
        )
    }
}

/// The ords presented in `batches`.
pub open spec fn presented_ords(batches: Seq<Seq<PartView>>) -> Set<u64>
    decreases batches.len(),
{
    if batches.len() == 0 {
        Set::empty()
    } else {
        presented_ords(batches.drop_last()).union(part_ords(batches.last()))
    }
}

/// Over a sequence of merges into one entry, the ords reported as new add up
/// to the distinct ords presented that were not known at the start (all of
/// them, for a new entry); merging a batch a second time reports nothing and
/// changes nothing.
pub proof fn lemma_merges_report_each_ord_once(known: Map<u64, PartView>, batches: Seq<Seq<PartView>>)
    ensures
        reported_new(known, batches) == presented_ords(batches).difference(known.dom()),
        merge_batches(known, batches).dom() == known.dom().union(presented_ords(batches)),
        forall|i: int| #![trigger batches[i]]
            0 <= i < batches.len() ==> part_ords(batches[i]).difference(
                merge_batches(known, batches).dom(),
            ) == Set::<u64>::empty(),
    decreases batches.len(),
{
    if batches.len() > 0 {
        let prefix = batches.drop_last();
        lemma_merges_report_each_ord_once(known, prefix);
        lemma_merge_parts_dom(merge_batches(known, prefix), batches.last());
        assert(reported_new(known, batches) =~= presented_ords(batches).difference(known.dom()));
        assert(merge_batches(known, batches).dom() =~= known.dom().union(presented_ords(batches)));
        assert forall|i: int| #![trigger batches[i]] 0 <= i < batches.len() implies part_ords(
            batches[i],
        ).difference(merge_batches(known, batches).dom()) == Set::<u64>::empty() by {
            if i < batches.len() - 1 {
                assert(prefix[i] == batches[i]);
                assert(part_ords(prefix[i]).difference(merge_batches(known, prefix).dom()) == Set::<
                    u64,
                >::empty());
                assert forall|o: u64| part_ords(batches[i]).contains(o) implies merge_batches(
                    known,
                    batches,
                ).dom().contains(o) by {
                    assert(!part_ords(prefix[i]).difference(merge_batches(known, prefix).dom()).contains(o));
                }
            }
            assert(part_ords(batches[i]).difference(merge_batches(known, batches).dom()) =~= Set::<
                u64,
            >::empty());
        }
    } else {
        assert(presented_ords(batches).difference(known.dom()) =~= Set::empty());
        assert(known.dom().union(presented_ords(batches)) =~= known.dom());
    }
}

/// What the `i`-th merge of `batches` reports as new: the ords of its
/// parts not known after the merges before it.
pub open spec fn report_of(known: Map<u64, PartView>, batches: Seq<Seq<PartView>>, i: int) -> Set<u64> {
    part_ords(batches[i]).difference(merge_batches(known, batches.take(i)).dom())
}

/// Every batch's ords are among those presented.
pub proof fn lemma_presented_contains(batches: Seq<Seq<PartView>>, i: int)
    requires
        0 <= i < batches.len(),
    ensures
        part_ords(batches[i]).subset_of(presented_ords(batches)),
    decreases batches.len(),
{
    if i < batches.len() - 1 {
        let prefix = batches.drop_last();
        lemma_presented_contains(prefix, i);
        assert(prefix[i] == batches[i]);
    }
}

/// In a sequence of merges into one entry, no ord is reported as new by two
/// different merges.
pub proof fn lemma_merge_reports_disjoint(known: Map<u64, PartView>, batches: Seq<Seq<PartView>>, i: int, j: int)
    requires
        0 <= i < j < batches.len(),
    ensures
        report_of(known, batches, i).disjoint(report_of(known, batches, j)),
{
    let before_j = batches.take(j);
    lemma_merges_report_each_ord_once(known, before_j);
    lemma_presented_contains(before_j, i);
    assert(before_j[i] == batches[i]);
}

/// Merging the same parts a second time changes nothing.
pub proof fn lemma_merge_parts_idempotent(known: Map<u64, PartView>, parts: Seq<PartView>)
    ensures
        merge_parts(merge_parts(known, parts), parts) == merge_parts(known, parts),
{
    let once = merge_parts(known, parts);
    lemma_merge_parts_dom(known, parts);
    lemma_merge_parts_dom(once, parts);
    assert(merge_parts(once, parts) =~= once);
}

} // verus!
