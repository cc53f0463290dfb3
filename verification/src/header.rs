//! Block headers: the partial form known before a block is executed, the
//! complete form generated from what execution produced, and the identity
//! that the complete form commits to.

use crate::digest::hash_bytes;
use crate::digest::sha256;
use crate::encoding::be_bytes;
use crate::encoding::lemma_be_bytes_len;
use crate::encoding::lemma_u32_be_bytes_injective;
use crate::encoding::lemma_u64_be_bytes_injective;
use crate::encoding::u64_to_be_bytes;
use crate::merkle::byte_leaves;
use crate::merkle::id_leaves;
use crate::merkle::merkle_root;
use crate::merkle::message_ids_root;
use crate::merkle::transactions_root;
use crate::merkle::EMPTY_ROOT;
use crate::merkle::MAX_LEAVES;
use crate::primitives::BlockHeight;
use crate::primitives::BlockId;
use crate::primitives::Bytes32;
use crate::primitives::ConsensusType;
use crate::primitives::DaBlockHeight;
use crate::primitives::MessageId;
use crate::primitives::Timestamp;
use crate::primitives::UNIX_EPOCH_SECONDS;
use vstd::prelude::*;

verus! {

/// The application header before execution: what is known of the block's
/// content before its transactions have run.
#[derive(Clone, Debug)]
pub struct PartialApplicationHeader {
    /// Height on the data-availability chain up to which messages and
    /// deposits are included.
    pub da_height: DaBlockHeight,
}

/// The application header of an executed block: everything except what
/// relates to consensus.
#[derive(Clone, Debug)]
pub struct ApplicationHeader {
    /// Height on the data-availability chain up to which messages and
    /// deposits are included.
    pub da_height: DaBlockHeight,
    /// The fields that execution produced.
    pub generated: GeneratedApplicationFields,
}

/// The application fields that exist only once the block has been executed.
#[derive(Clone, Debug)]
pub struct GeneratedApplicationFields {
    /// Number of transactions in the block.
    pub transactions_count: u64,
    /// Number of output messages in the block.
    pub output_messages_count: u64,
    /// Merkle root of the transactions.
    pub transactions_root: Bytes32,
    /// Merkle root of the identifiers of the output messages.
    pub output_messages_root: Bytes32,
}

/// The consensus header before execution.
#[derive(Clone, Debug)]
pub struct PartialConsensusHeader {
    /// Merkle root of the identities of all previous headers.
    pub prev_root: Bytes32,
    /// Height of the block in its chain.
    pub height: BlockHeight,
    /// Time at which the block was produced.
    pub time: Timestamp,
}

/// The consensus header of an executed block: the consensus fields and the
/// digest of the application header.
#[derive(Clone, Debug)]
pub struct ConsensusHeader {
    /// Merkle root of the identities of all previous headers.
    pub prev_root: Bytes32,
    /// Height of the block in its chain.
    pub height: BlockHeight,
    /// Time at which the block was produced.
    pub time: Timestamp,
    /// The fields that execution produced.
    pub generated: GeneratedConsensusFields,
}

/// The consensus fields that exist only once the block has been executed.
#[derive(Clone, Debug)]
pub struct GeneratedConsensusFields {
    /// Digest of the application header.
    pub application_hash: Bytes32,
}

/// Data kept beside a header that is no part of it: its identity, as it was
/// when last computed.
#[derive(Clone, Debug)]
pub struct BlockHeaderMetadata {
    id: BlockId,
}

impl View for BlockHeaderMetadata {
    type V = Seq<u8>;

    /// The bytes of the identity held.
    closed spec fn view(&self) -> Seq<u8> {
        self.id@
    }
}

/// A header with every field present, of a block that has been executed.
#[derive(Clone, Debug)]
pub struct BlockHeader {
    /// The application header.
    pub application: ApplicationHeader,
    /// The consensus header.
    pub consensus: ConsensusHeader,
    /// The identity computed earlier, if any.
    pub metadata: Option<BlockHeaderMetadata>,
}

/// A header of a block that has not been executed yet: it has none of the
/// generated fields.
#[derive(Clone, Debug)]
pub struct PartialBlockHeader {
    /// The application header.
    pub application: PartialApplicationHeader,
    /// The consensus header.
    pub consensus: PartialConsensusHeader,
}

/// Appends `bytes` to `buffer`.
fn append(buffer: &mut Vec<u8>, bytes: &[u8])
    ensures
        final(buffer)@ == old(buffer)@ + bytes@,
{
    buffer.extend_from_slice(bytes);
    assert(buffer@ =~= old(buffer)@ + bytes@);
}

impl ApplicationHeader {
    /// The bytes that are digested: the data-availability height, the two
    /// counts, each as eight big-endian bytes, then the two roots.
    pub open spec fn preimage(&self) -> Seq<u8> {
        be_bytes(self.da_height.0 as nat, 8)
            + be_bytes(self.generated.transactions_count as nat, 8)
            + be_bytes(self.generated.output_messages_count as nat, 8)
            + self.generated.transactions_root@
            + self.generated.output_messages_root@
    }

    /// The digest of the header.
    pub open spec fn digest(&self) -> Seq<u8> {
        sha256(self.preimage())
    }

    /// Lays the fields out as the bytes that are digested: 88 of them.
    pub fn preimage_bytes(&self) -> (bytes: Vec<u8>)
        ensures
            bytes@ == self.preimage(),
            bytes@.len() == 88,
    {
        let mut bytes: Vec<u8> = Vec::new();
        let da_height = self.da_height.to_bytes();
        let transactions_count = u64_to_be_bytes(self.generated.transactions_count);
        let output_messages_count = u64_to_be_bytes(self.generated.output_messages_count);
        append(&mut bytes, da_height.as_slice());
        append(&mut bytes, transactions_count.as_slice());
        append(&mut bytes, output_messages_count.as_slice());
        append(&mut bytes, self.generated.transactions_root.as_slice());
        append(&mut bytes, self.generated.output_messages_root.as_slice());
        assert(bytes@ =~= self.preimage());
        bytes
    }

    /// Hashes the application header.
    pub fn hash(&self) -> (digest: Bytes32)
        ensures
            digest@ == self.digest(),
    {
        let bytes = self.preimage_bytes();
        hash_bytes(bytes.as_slice())
    }
}

impl ConsensusHeader {
    /// The bytes that are digested: the previous root, the height as four
    /// big-endian bytes, the time as eight, then the application digest.
    pub open spec fn preimage(&self) -> Seq<u8> {
        self.prev_root@
            + be_bytes(self.height.0 as nat, 4)
            + be_bytes(self.time.0 as nat, 8)
            + self.generated.application_hash@
    }

    /// The digest of the header: the identity of the block header it
    /// belongs to.
    pub open spec fn digest(&self) -> Seq<u8> {
        sha256(self.preimage())
    }

    /// Lays the fields out as the bytes that are digested: 76 of them.
    pub fn preimage_bytes(&self) -> (bytes: Vec<u8>)
        ensures
            bytes@ == self.preimage(),
            bytes@.len() == 76,
    {
        let mut bytes: Vec<u8> = Vec::new();
        let height = self.height.to_bytes();
        let time = self.time.to_bytes();
        append(&mut bytes, self.prev_root.as_slice());
        append(&mut bytes, height.as_slice());
        append(&mut bytes, time.as_slice());
        append(&mut bytes, self.generated.application_hash.as_slice());
        assert(bytes@ =~= self.preimage());
        bytes
    }

    /// Hashes the consensus header.
    pub fn hash(&self) -> (id: BlockId)
        ensures
            id@ == self.digest(),
    {
        let bytes = self.preimage_bytes();
        BlockId(hash_bytes(bytes.as_slice()))
    }
}

impl BlockHeader {
    /// The identity of the header: the digest of its consensus header, which
    /// holds the digest of the application header.
    pub open spec fn identity(&self) -> Seq<u8> {
        self.consensus.digest()
    }

    /// Whether the consensus header holds the digest of this application
    /// header.
    pub open spec fn commits_to_application(&self) -> bool {
        self.consensus.generated.application_hash@ == self.application.digest()
    }

    /// Whether the identity kept beside the header, if any, is the identity
    /// of the header as it is now.
    pub open spec fn cache_is_fresh(&self) -> bool {
        self.metadata matches Some(metadata) ==> metadata@ == self.identity()
    }

    /// The identity that the header reports: the one kept beside it, or the
    /// one computed from its fields where none is kept.
    pub open spec fn reported_identity(&self) -> Seq<u8> {
        match self.metadata {
            Some(metadata) => metadata@,
            None => self.identity(),
        }
    }

    /// Whether `after` is this header with its identity computed again and
    /// kept beside it: the same fields, and their identity as the one kept.
    pub open spec fn recalculates_to(&self, after: BlockHeader) -> bool {
        &&& after.application == self.application
        &&& after.consensus == self.consensus
        &&& after.metadata matches Some(metadata) && metadata@ == self.identity()
    }

    /// Computes the identity again and keeps it beside the header. The
    /// header's fields stay as they are.
    pub fn recalculate_metadata(&mut self)
        ensures
            old(self).recalculates_to(*final(self)),
            final(self).cache_is_fresh(),
    {
        let id = self.hash();
        self.metadata = Some(BlockHeaderMetadata { id });
    }

    /// Computes the identity from the header's fields.
    pub fn hash(&self) -> (id: BlockId)
        ensures
            id@ == self.identity(),
    {
        self.consensus.hash()
    }

    /// The identity kept beside the header, or, where none is kept, the one
    /// computed from its fields. The header is not changed.
    pub fn id(&self) -> (id: BlockId)
        ensures
            id@ == self.reported_identity(),
            self.cache_is_fresh() ==> id@ == self.identity(),
    {
        match &self.metadata {
            Some(metadata) => metadata.id,
            None => self.hash(),
        }
    }
}

impl BlockHeader {
    /// Merkle root of the identities of all previous headers.
    pub fn prev_root(&self) -> (r: &Bytes32)
        ensures
            *r == self.consensus.prev_root,
    {
        &self.consensus.prev_root
    }

    /// Height of the block in its chain.
    pub fn height(&self) -> (r: &BlockHeight)
        ensures
            *r == self.consensus.height,
    {
        &self.consensus.height
    }

    /// Time at which the block was produced.
    pub fn time(&self) -> (r: Timestamp)
        ensures
            r == self.consensus.time,
    {
        self.consensus.time
    }

    /// Digest of the application header, as the consensus header holds it.
    pub fn application_hash(&self) -> (r: &Bytes32)
        ensures
            *r == self.consensus.generated.application_hash,
    {
        &self.consensus.generated.application_hash
    }

    /// The kind of consensus the header is produced under.
    pub fn consensus_type(&self) -> (r: ConsensusType)
        ensures
            r == ConsensusType::PoA,
    {
        ConsensusType::PoA
    }

    /// Height on the data-availability chain up to which messages and
    /// deposits are included.
    pub fn da_height(&self) -> (r: &DaBlockHeight)
        ensures
            *r == self.application.da_height,
    {
        &self.application.da_height
    }

    /// Number of transactions in the block.
    pub fn transactions_count(&self) -> (r: u64)
        ensures
            r == self.application.generated.transactions_count,
    {
        self.application.generated.transactions_count
    }

    /// Number of output messages in the block.
    pub fn output_messages_count(&self) -> (r: u64)
        ensures
            r == self.application.generated.output_messages_count,
    {
        self.application.generated.output_messages_count
    }

    /// Merkle root of the transactions.
    pub fn transactions_root(&self) -> (r: &Bytes32)
        ensures
            *r == self.application.generated.transactions_root,
    {
        &self.application.generated.transactions_root
    }

    /// Merkle root of the identifiers of the output messages.
    pub fn output_messages_root(&self) -> (r: &Bytes32)
        ensures
            *r == self.application.generated.output_messages_root,
    {
        &self.application.generated.output_messages_root
    }
}

impl PartialBlockHeader {
    /// Merkle root of the identities of all previous headers.
    pub fn prev_root(&self) -> (r: &Bytes32)
        ensures
            *r == self.consensus.prev_root,
    {
        &self.consensus.prev_root
    }

    /// Height of the block in its chain.
    pub fn height(&self) -> (r: &BlockHeight)
        ensures
            *r == self.consensus.height,
    {
        &self.consensus.height
    }

    /// Time at which the block was produced.
    pub fn time(&self) -> (r: &Timestamp)
        ensures
            *r == self.consensus.time,
    {
        &self.consensus.time
    }

    /// The kind of consensus the header is produced under.
    pub fn consensus_type(&self) -> (r: ConsensusType)
        ensures
            r == ConsensusType::PoA,
    {
        ConsensusType::PoA
    }

    /// Height on the data-availability chain up to which messages and
    /// deposits are included.
    pub fn da_height(&self) -> (r: &DaBlockHeight)
        ensures
            *r == self.application.da_height,
    {
        &self.application.da_height
    }
}

impl PartialBlockHeader {
    /// Whether `header` is the complete header of this partial header for the
    /// leaves given, those of the transactions and those of the message
    /// identifiers: the fields known before execution carried over, the
    /// counts and merkle roots of the two lists (the empty root for an empty
    /// list), the application digest, and the identity kept beside the
    /// header.
    pub open spec fn generates(
        &self,
        transactions: Seq<Seq<u8>>,
        message_ids: Seq<Seq<u8>>,
        header: BlockHeader,
    ) -> bool {
        &&& header.application.da_height == self.application.da_height
        &&& header.application.generated.transactions_count == transactions.len()
        &&& header.application.generated.output_messages_count == message_ids.len()
        &&& header.application.generated.transactions_root@ == merkle_root(transactions)
        &&& header.application.generated.output_messages_root@ == merkle_root(message_ids)
        &&& transactions.len() == 0 ==> header.application.generated.transactions_root@
            == EMPTY_ROOT@
        &&& message_ids.len() == 0 ==> header.application.generated.output_messages_root@
            == EMPTY_ROOT@
        &&& header.consensus.prev_root == self.consensus.prev_root
        &&& header.consensus.height == self.consensus.height
        &&& header.consensus.time == self.consensus.time
        &&& header.commits_to_application()
        &&& header.metadata matches Some(metadata) && metadata@ == header.identity()
    }

    /// Generates every field of the complete header from what executing the
    /// block produced.
    ///
    /// `transactions` holds the bytes of the executed transactions in the
    /// order in which they ran; `message_ids` holds the identifiers of the
    /// output messages in the order in which they were produced. Either may
    /// be empty; neither may be longer than a merkle tree can index.
    pub fn generate(
        self,
        transactions: &[Vec<u8>],
        message_ids: &[MessageId],
    ) -> (header: BlockHeader)
        requires
            transactions@.len() <= MAX_LEAVES,
            message_ids@.len() <= MAX_LEAVES,
        ensures
            self.generates(byte_leaves(transactions@), id_leaves(message_ids@), header),
    {
        let transactions_root = transactions_root(transactions);
        let output_messages_root = message_ids_root(message_ids);

        let application = ApplicationHeader {
            da_height: self.application.da_height,
            generated: GeneratedApplicationFields {
                transactions_count: transactions.len() as u64,
                output_messages_count: message_ids.len() as u64,
                transactions_root,
                output_messages_root,
            },
        };

        let application_hash = application.hash();
        let mut header = BlockHeader {
            application,
            consensus: ConsensusHeader {
                prev_root: self.consensus.prev_root,
                height: self.consensus.height,
                time: self.consensus.time,
                generated: GeneratedConsensusFields { application_hash },
            },
            metadata: None,
        };

        header.recalculate_metadata();
        header
    }
}

impl Default for PartialApplicationHeader {
    /// Data-availability height zero.
    fn default() -> (r: Self)
        ensures
            r.da_height.0 == 0,
    {
        PartialApplicationHeader { da_height: DaBlockHeight(0) }
    }
}

impl Default for GeneratedApplicationFields {
    /// No transactions, no messages, and roots of zero bytes.
    fn default() -> (r: Self)
        ensures
            r.transactions_count == 0,
            r.output_messages_count == 0,
            r.transactions_root@ == Seq::new(32, |i: int| 0u8),
            r.output_messages_root@ == Seq::new(32, |i: int| 0u8),
    {
        GeneratedApplicationFields {
            transactions_count: 0,
            output_messages_count: 0,
            transactions_root: Bytes32::zeroed(),
            output_messages_root: Bytes32::zeroed(),
        }
    }
}

impl Default for ApplicationHeader {
    /// Data-availability height zero and the default generated fields.
    fn default() -> (r: Self)
        ensures
            r.da_height.0 == 0,
            r.generated.transactions_count == 0,
            r.generated.output_messages_count == 0,
            r.generated.transactions_root@ == Seq::new(32, |i: int| 0u8),
            r.generated.output_messages_root@ == Seq::new(32, |i: int| 0u8),
    {
        ApplicationHeader {
            da_height: DaBlockHeight(0),
            generated: GeneratedApplicationFields::default(),
        }
    }
}

impl Default for GeneratedConsensusFields {
    /// An application digest of zero bytes.
    fn default() -> (r: Self)
        ensures
            r.application_hash@ == Seq::new(32, |i: int| 0u8),
    {
        GeneratedConsensusFields { application_hash: Bytes32::zeroed() }
    }
}

impl Default for PartialConsensusHeader {
    /// Height zero at the Unix epoch, after a previous root of zero bytes.
    fn default() -> (r: Self)
        ensures
            r.prev_root@ == Seq::new(32, |i: int| 0u8),
            r.height.0 == 0,
            r.time.0 == UNIX_EPOCH_SECONDS,
    {
        PartialConsensusHeader {
            time: Timestamp::unix_epoch(),
            height: BlockHeight(0),
            prev_root: Bytes32::zeroed(),
        }
    }
}

impl Default for ConsensusHeader {
    /// Height zero at the Unix epoch, after a previous root of zero bytes,
    /// with the default generated fields.
    fn default() -> (r: Self)
        ensures
            r.prev_root@ == Seq::new(32, |i: int| 0u8),
            r.height.0 == 0,
            r.time.0 == UNIX_EPOCH_SECONDS,
            r.generated.application_hash@ == Seq::new(32, |i: int| 0u8),
    {
        ConsensusHeader {
            time: Timestamp::unix_epoch(),
            height: BlockHeight(0),
            prev_root: Bytes32::zeroed(),
            generated: GeneratedConsensusFields::default(),
        }
    }
}

impl Default for PartialBlockHeader {
    /// The default application and consensus headers.
    fn default() -> (r: Self)
        ensures
            r.application.da_height.0 == 0,
            r.consensus.prev_root@ == Seq::new(32, |i: int| 0u8),
            r.consensus.height.0 == 0,
            r.consensus.time.0 == UNIX_EPOCH_SECONDS,
    {
        PartialBlockHeader {
            application: PartialApplicationHeader::default(),
            consensus: PartialConsensusHeader::default(),
        }
    }
}

impl Default for BlockHeader {
    /// The default application and consensus headers, with no identity kept.
    fn default() -> (r: Self)
        ensures
            r.application.da_height.0 == 0,
            r.application.generated.transactions_count == 0,
            r.application.generated.output_messages_count == 0,
            r.application.generated.transactions_root@ == Seq::new(32, |i: int| 0u8),
            r.application.generated.output_messages_root@ == Seq::new(32, |i: int| 0u8),
            r.consensus.prev_root@ == Seq::new(32, |i: int| 0u8),
            r.consensus.height.0 == 0,
            r.consensus.time.0 == UNIX_EPOCH_SECONDS,
            r.consensus.generated.application_hash@ == Seq::new(32, |i: int| 0u8),
            r.metadata is None,
    {
        BlockHeader {
            application: ApplicationHeader::default(),
            consensus: ConsensusHeader::default(),
            metadata: None,
        }
    }
}

/// The layout of an application header loses nothing: two headers laid out
/// as the same bytes have the same fields.
pub proof fn lemma_application_preimage_injective(a: ApplicationHeader, b: ApplicationHeader)
    requires
        a.preimage() == b.preimage(),
    ensures
        a == b,
{
    let bytes = a.preimage();
    lemma_be_bytes_len(a.da_height.0 as nat, 8);
    lemma_be_bytes_len(a.generated.transactions_count as nat, 8);
    lemma_be_bytes_len(a.generated.output_messages_count as nat, 8);
    lemma_be_bytes_len(b.da_height.0 as nat, 8);
    lemma_be_bytes_len(b.generated.transactions_count as nat, 8);
    lemma_be_bytes_len(b.generated.output_messages_count as nat, 8);
    assert(bytes.subrange(0, 8) =~= be_bytes(a.da_height.0 as nat, 8));
    assert(bytes.subrange(0, 8) =~= be_bytes(b.da_height.0 as nat, 8));
    assert(bytes.subrange(8, 16) =~= be_bytes(a.generated.transactions_count as nat, 8));
    assert(bytes.subrange(8, 16) =~= be_bytes(b.generated.transactions_count as nat, 8));
    assert(bytes.subrange(16, 24) =~= be_bytes(a.generated.output_messages_count as nat, 8));
    assert(bytes.subrange(16, 24) =~= be_bytes(b.generated.output_messages_count as nat, 8));
    assert(bytes.subrange(24, 56) =~= a.generated.transactions_root@);
    assert(bytes.subrange(24, 56) =~= b.generated.transactions_root@);
    assert(bytes.subrange(56, 88) =~= a.generated.output_messages_root@);
    assert(bytes.subrange(56, 88) =~= b.generated.output_messages_root@);
    lemma_u64_be_bytes_injective(a.da_height.0, b.da_height.0);
    lemma_u64_be_bytes_injective(a.generated.transactions_count, b.generated.transactions_count);
    lemma_u64_be_bytes_injective(
        a.generated.output_messages_count,
        b.generated.output_messages_count,
    );
    assert(a.generated.transactions_root.0 =~= b.generated.transactions_root.0);
    assert(a.generated.output_messages_root.0 =~= b.generated.output_messages_root.0);
}

/// The layout of a consensus header loses nothing: two headers laid out as
/// the same bytes have the same fields.
pub proof fn lemma_consensus_preimage_injective(a: ConsensusHeader, b: ConsensusHeader)
    requires
        a.preimage() == b.preimage(),
    ensures
        a == b,
{
    let bytes = a.preimage();
    lemma_be_bytes_len(a.height.0 as nat, 4);
    lemma_be_bytes_len(a.time.0 as nat, 8);
    lemma_be_bytes_len(b.height.0 as nat, 4);
    lemma_be_bytes_len(b.time.0 as nat, 8);
    assert(bytes.subrange(0, 32) =~= a.prev_root@);
    assert(bytes.subrange(0, 32) =~= b.prev_root@);
    assert(bytes.subrange(32, 36) =~= be_bytes(a.height.0 as nat, 4));
    assert(bytes.subrange(32, 36) =~= be_bytes(b.height.0 as nat, 4));
    assert(bytes.subrange(36, 44) =~= be_bytes(a.time.0 as nat, 8));
    assert(bytes.subrange(36, 44) =~= be_bytes(b.time.0 as nat, 8));
    assert(bytes.subrange(44, 76) =~= a.generated.application_hash@);
    assert(bytes.subrange(44, 76) =~= b.generated.application_hash@);
    lemma_u32_be_bytes_injective(a.height.0, b.height.0);
    lemma_u64_be_bytes_injective(a.time.0, b.time.0);
    assert(a.prev_root.0 =~= b.prev_root.0);
    assert(a.generated.application_hash.0 =~= b.generated.application_hash.0);
}

/// Generation is deterministic: the complete headers that one partial header
/// generates for the same transactions and the same message identifiers are
/// the same header, with the same identity.
pub proof fn lemma_generate_deterministic(
    partial: PartialBlockHeader,
    transactions: Seq<Seq<u8>>,
    message_ids: Seq<Seq<u8>>,
    first: BlockHeader,
    second: BlockHeader,
)
    requires
        partial.generates(transactions, message_ids, first),
        partial.generates(transactions, message_ids, second),
    ensures
        first.identity() == second.identity(),
        first.reported_identity() == second.reported_identity(),
        first == second,
{
    assert(first.application.generated.transactions_root.0
        =~= second.application.generated.transactions_root.0);
    assert(first.application.generated.output_messages_root.0
        =~= second.application.generated.output_messages_root.0);
    assert(first.application == second.application);
    assert(first.consensus.generated.application_hash.0
        =~= second.consensus.generated.application_hash.0);
    assert(first.consensus == second.consensus);
    assert(first.metadata->0.id.0.0 =~= second.metadata->0.id.0.0);
}

/// Generation from nothing: with no transactions and no message identifiers
/// both counts are zero and both roots are the empty root, whatever the
/// partial header holds.
pub proof fn lemma_generate_from_nothing(partial: PartialBlockHeader, header: BlockHeader)
    requires
        partial.generates(Seq::empty(), Seq::empty(), header),
    ensures
        header.application.generated.transactions_count == 0,
        header.application.generated.output_messages_count == 0,
        header.application.generated.transactions_root@ == EMPTY_ROOT@,
        header.application.generated.output_messages_root@ == EMPTY_ROOT@,
{
}

/// A header generated from a partial header reports, before anything else is
/// done to it, the identity computed from its fields.
pub proof fn lemma_generated_reports_identity(
    partial: PartialBlockHeader,
    transactions: Seq<Seq<u8>>,
    message_ids: Seq<Seq<u8>>,
    header: BlockHeader,
)
    requires
        partial.generates(transactions, message_ids, header),
    ensures
        header.cache_is_fresh(),
        header.reported_identity() == header.identity(),
{
}

/// Recalculation does not change what a header reports as its identity, as
/// long as the identity kept beside it, if any, was that of its fields: a
/// header with nothing kept, or one as `generate` returned it, reports the
/// same identity before and after.
pub proof fn lemma_recalculate_keeps_identity(before: BlockHeader, after: BlockHeader)
    requires
        before.cache_is_fresh(),
        before.recalculates_to(after),
    ensures
        after.cache_is_fresh(),
        after.reported_identity() == before.reported_identity(),
        after.identity() == before.identity(),
{
}

} // verus!
