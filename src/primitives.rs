use vstd::prelude::*;

verus! {

/// Height of a block in the chain.
pub type BlockHeight = u64;

/// Index of a shard.
pub type ShardId = u64;

/// Name of an account on the chain.
pub type AccountId = String;

/// Digest of a block (or of any other hashed object), as a 64-bit value.
#[derive(Clone, Copy, Debug, Default, PartialEq, Eq, Structural, Hash)]
pub struct CryptoHash(pub u64);

/// Digest of a chunk header; it identifies the chunk.
#[derive(Clone, Copy, Debug, Default, PartialEq, Eq, Structural, Hash)]
pub struct ChunkHash(pub u64);

/// What the cache reads of a chunk header.
#[derive(Clone, Copy, Debug, PartialEq, Eq, Structural)]
pub struct ShardChunkHeader {
    pub chunk_hash: ChunkHash,
    pub prev_block_hash: CryptoHash,
    pub height_created: BlockHeight,
    pub shard_id: ShardId,
}

impl ShardChunkHeader {
    pub fn new(
        chunk_hash: ChunkHash,
        prev_block_hash: CryptoHash,
        height_created: BlockHeight,
        shard_id: ShardId,
    ) -> (r: Self)
        ensures
            r == (ShardChunkHeader { chunk_hash, prev_block_hash, height_created, shard_id }),
    {
        ShardChunkHeader { chunk_hash, prev_block_hash, height_created, shard_id }
    }

    pub fn chunk_hash(&self) -> (r: ChunkHash)
        ensures
            r == self.chunk_hash,
    {
        self.chunk_hash
    }

    pub fn prev_block_hash(&self) -> (r: CryptoHash)
        ensures
            r == self.prev_block_hash,
    {
        self.prev_block_hash
    }

    pub fn height_created(&self) -> (r: BlockHeight)
        ensures
            r == self.height_created,
    {
        self.height_created
    }

    pub fn shard_id(&self) -> (r: ShardId)
        ensures
            r == self.shard_id,
    {
        self.shard_id
    }
}

/// Abstract value of a chunk part.
pub struct PartView {
    pub part_ord: u64,
    pub part: Seq<u8>,
    pub merkle_proof: Seq<CryptoHash>,
}

/// One erasure-coded part of a chunk.
#[derive(Debug)]
pub struct PartialEncodedChunkPart {
    pub part_ord: u64,
    pub part: Vec<u8>,
    pub merkle_proof: Vec<CryptoHash>,
}

impl View for PartialEncodedChunkPart {
    type V = PartView;

    open spec fn view(&self) -> PartView {
        PartView { part_ord: self.part_ord, part: self.part@, merkle_proof: self.merkle_proof@ }
    }
}

impl Clone for PartialEncodedChunkPart {
    fn clone(&self) -> (r: Self)
        ensures
            r@ == self@,
    {
        let part = self.part.clone();
        let merkle_proof = self.merkle_proof.clone();
        proof {
            assert(part@ =~= self.part@);
            assert(merkle_proof@ =~= self.merkle_proof@);
        }
        PartialEncodedChunkPart { part_ord: self.part_ord, part, merkle_proof }
    }
}

/// Abstract value of a receipt proof.
pub struct ReceiptView {
    pub from_shard_id: ShardId,
    pub to_shard_id: ShardId,
    pub receipts: Seq<u8>,
}

/// Outgoing receipts of one shard towards another, with their proof.
#[derive(Debug)]
pub struct ReceiptProof {
    pub from_shard_id: ShardId,
    pub to_shard_id: ShardId,
    pub receipts: Vec<u8>,
}

impl View for ReceiptProof {
    type V = ReceiptView;

    open spec fn view(&self) -> ReceiptView {
        ReceiptView {
            from_shard_id: self.from_shard_id,
            to_shard_id: self.to_shard_id,
            receipts: self.receipts@,
        }
    }
}

impl Clone for ReceiptProof {
    fn clone(&self) -> (r: Self)
        ensures
            r@ == self@,
    {
        let receipts = self.receipts.clone();
        proof {
            assert(receipts@ =~= self.receipts@);
        }
        ReceiptProof {
            from_shard_id: self.from_shard_id,
            to_shard_id: self.to_shard_id,
            receipts,
        }
    }
}

/// Some parts and receipts of one chunk, as they arrive from a peer.
#[derive(Debug)]
pub struct PartialEncodedChunkV2 {
    pub header: ShardChunkHeader,
    pub parts: Vec<PartialEncodedChunkPart>,
    pub receipts: Vec<ReceiptProof>,
}

} // verus!
