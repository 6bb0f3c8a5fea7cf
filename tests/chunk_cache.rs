use near_network_core::chunk_cache::EncodedChunksCache;
use near_network_core::primitives::{
    ChunkHash, CryptoHash, PartialEncodedChunkPart, PartialEncodedChunkV2, ReceiptProof,
    ShardChunkHeader,
};
use std::collections::{HashMap, HashSet};

fn create_chunk_header(height: u64, shard_id: u64) -> ShardChunkHeader {
    ShardChunkHeader::new(
        ChunkHash((height << 16) ^ shard_id ^ 0x5a5a_0000_0000),
        CryptoHash::default(),
        height,
        shard_id,
    )
}

fn part(part_ord: u64, byte: u8) -> PartialEncodedChunkPart {
    PartialEncodedChunkPart { part_ord, part: vec![byte; 4], merkle_proof: vec![] }
}

#[test]
fn test_incomplete_chunks() {
    let mut cache = EncodedChunksCache::new();
    let header0 = create_chunk_header(1, 0);
    let header1 = create_chunk_header(1, 1);
    cache.get_or_insert_from_header(&header0);
    cache.merge_in_partial_encoded_chunk(&PartialEncodedChunkV2 {
        header: header1.clone(),
        parts: vec![],
        receipts: vec![],
    });
    assert_eq!(
        cache.get_incomplete_chunks(&CryptoHash::default()).unwrap(),
        &HashSet::from([header0.chunk_hash().0, header1.chunk_hash().0])
    );
    cache.mark_entry_complete(&header0.chunk_hash());
    assert_eq!(
        cache.get_incomplete_chunks(&CryptoHash::default()).unwrap(),
        &vec![header1.chunk_hash().0].into_iter().collect::<HashSet<_>>()
    );
    cache.mark_entry_complete(&header1.chunk_hash());
    assert_eq!(cache.get_incomplete_chunks(&CryptoHash::default()), None);
}

#[test]
fn test_cache_removal() {
    let mut cache = EncodedChunksCache::new();
    let header = create_chunk_header(1, 0);
    let partial_encoded_chunk =
        PartialEncodedChunkV2 { header: header.clone(), parts: vec![], receipts: vec![] };
    cache.merge_in_partial_encoded_chunk(&partial_encoded_chunk);
    cache.insert_chunk_header(0, header.clone(), "irrelevant".to_string());
    assert!(cache.entry_count() != 0);
    assert!(cache.indexed_height_count() != 0);
    let headers = cache.get_chunk_headers_for_block(&CryptoHash::default());
    assert_eq!(headers.len(), 1);
    assert_eq!(headers.get(&0).unwrap().0, header);

    cache.update_largest_seen_height::<()>(2000, &HashMap::default());
    assert!(cache.entry_count() == 0);
    assert!(cache.indexed_height_count() == 0);
    assert!(cache.get_chunk_headers_for_block(&CryptoHash::default()).is_empty());
}

#[test]
fn merge_reports_each_part_ord_once() {
    let mut cache = EncodedChunksCache::new();
    let header = create_chunk_header(3, 2);
    let first = PartialEncodedChunkV2 {
        header,
        parts: vec![part(0, 1), part(2, 1), part(2, 9)],
        receipts: vec![ReceiptProof { from_shard_id: 2, to_shard_id: 0, receipts: vec![7] }],
    };
    assert_eq!(cache.merge_in_partial_encoded_chunk(&first), HashSet::from([0, 2]));
    let second = PartialEncodedChunkV2 {
        header,
        parts: vec![part(2, 5), part(1, 5)],
        receipts: vec![ReceiptProof { from_shard_id: 2, to_shard_id: 0, receipts: vec![8] }],
    };
    assert_eq!(cache.merge_in_partial_encoded_chunk(&second), HashSet::from([1]));
    assert_eq!(cache.merge_in_partial_encoded_chunk(&second), HashSet::new());
    let entry = cache.get(&header.chunk_hash()).unwrap();
    assert_eq!(entry.parts.len(), 3);
    // The first part received for an ord is kept.
    assert_eq!(entry.parts.get(&2).unwrap().part, vec![1; 4]);
    assert_eq!(entry.receipts.get(&0).unwrap().receipts, vec![7]);
    assert!(!entry.complete);
}

#[test]
fn horizon_bounds() {
    let mut cache = EncodedChunksCache::new();
    cache.update_largest_seen_height::<()>(2000, &HashMap::new());
    assert!(cache.height_within_front_horizon(2000));
    assert!(cache.height_within_front_horizon(2005));
    assert!(!cache.height_within_front_horizon(2006));
    assert!(cache.height_within_rear_horizon(976));
    assert!(!cache.height_within_rear_horizon(975));
    assert!(cache.height_within_horizon(1500));
    assert!(!cache.height_within_horizon(u64::MAX));
}

#[test]
fn requested_chunks_survive_eviction() {
    let mut cache = EncodedChunksCache::new();
    let kept = create_chunk_header(10, 0);
    let dropped = create_chunk_header(10, 1);
    cache.get_or_insert_from_header(&kept);
    cache.get_or_insert_from_header(&dropped);
    let mut requested = HashMap::new();
    requested.insert(kept.chunk_hash().0, ());
    cache.update_largest_seen_height(5000, &requested);
    assert!(cache.get(&kept.chunk_hash()).is_some());
    assert!(cache.get(&dropped.chunk_hash()).is_none());
    assert_eq!(cache.entry_count(), 1);
    assert_eq!(cache.get_incomplete_chunks(&CryptoHash::default()).unwrap().len(), 1);
}

#[test]
fn remove_outside_horizon_and_validate() {
    let mut cache = EncodedChunksCache::new();
    let old = create_chunk_header(1, 0);
    cache.get_or_insert_from_header(&old);
    cache.mark_entry_validated(&old.chunk_hash());
    assert!(cache.get(&old.chunk_hash()).unwrap().header_fully_validated);
    cache.remove_from_cache_if_outside_horizon(&old.chunk_hash());
    assert!(cache.get(&old.chunk_hash()).is_some());
    let mut requested = HashMap::new();
    requested.insert(old.chunk_hash().0, 0u8);
    cache.update_largest_seen_height(3000, &requested);
    cache.remove_from_cache_if_outside_horizon(&old.chunk_hash());
    assert!(cache.get(&old.chunk_hash()).is_none());
    assert_eq!(cache.get_incomplete_chunks(&CryptoHash::default()), None);
    assert!(cache.remove(&old.chunk_hash()).is_none());
}

#[test]
fn ready_headers_outside_window_are_ignored() {
    let mut cache = EncodedChunksCache::new();
    cache.update_largest_seen_height::<()>(100, &HashMap::new());
    cache.insert_chunk_header_at(0, create_chunk_header(89, 0), "a".to_string(), 5);
    cache.insert_chunk_header_at(1, create_chunk_header(106, 1), "b".to_string(), 5);
    assert!(cache.get_chunk_headers_for_block(&CryptoHash::default()).is_empty());
    cache.insert_chunk_header_at(2, create_chunk_header(90, 2), "c".to_string(), 7);
    cache.insert_chunk_header_at(3, create_chunk_header(105, 3), "d".to_string(), 8);
    let headers = cache.get_chunk_headers_for_block(&CryptoHash::default());
    assert_eq!(headers.len(), 2);
    assert_eq!(headers.get(&2).unwrap().1, 7);
    assert_eq!(headers.get(&3).unwrap().2, "d".to_string());
}

#[test]
fn largest_seen_height_never_goes_down() {
    let mut cache = EncodedChunksCache::new();
    cache.update_largest_seen_height::<()>(2000, &HashMap::new());
    cache.update_largest_seen_height::<()>(5, &HashMap::new());
    // Still 2000: 2005 is the top of the front horizon, 976 the bottom of the rear one.
    assert!(cache.height_within_front_horizon(2005));
    assert!(!cache.height_within_front_horizon(6));
    assert!(cache.height_within_rear_horizon(976));
    let header = create_chunk_header(1500, 0);
    cache.get_or_insert_from_header(&header);
    cache.update_largest_seen_height::<()>(2100, &HashMap::new());
    assert!(cache.get(&header.chunk_hash()).is_some());
    cache.update_largest_seen_height::<()>(2600, &HashMap::new());
    assert!(cache.get(&header.chunk_hash()).is_none());
}

#[test]
fn merges_over_several_messages_report_disjoint_ords() {
    let mut cache = EncodedChunksCache::new();
    let header = create_chunk_header(7, 1);
    let batches = vec![vec![3u64, 1], vec![1, 4, 4], vec![], vec![5, 3, 0]];
    let mut seen: HashSet<u64> = HashSet::new();
    for ords in batches {
        let msg = PartialEncodedChunkV2 {
            header,
            parts: ords.iter().map(|o| part(*o, *o as u8)).collect(),
            receipts: vec![],
        };
        let new = cache.merge_in_partial_encoded_chunk(&msg);
        assert!(new.is_disjoint(&seen));
        seen.extend(new);
    }
    assert_eq!(seen, HashSet::from([0, 1, 3, 4, 5]));
    let keys: HashSet<u64> = cache.get(&header.chunk_hash()).unwrap().parts.keys().copied().collect();
    assert_eq!(keys, seen);
}
