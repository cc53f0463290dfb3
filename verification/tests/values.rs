use block_header::header::ApplicationHeader;
use block_header::header::BlockHeader;
use block_header::header::ConsensusHeader;
use block_header::header::GeneratedApplicationFields;
use block_header::header::GeneratedConsensusFields;
use block_header::header::PartialApplicationHeader;
use block_header::header::PartialBlockHeader;
use block_header::header::PartialConsensusHeader;
use block_header::primitives::BlockHeight;
use block_header::primitives::BlockId;
use block_header::primitives::Bytes32;
use block_header::primitives::ConsensusType;
use block_header::primitives::DaBlockHeight;
use block_header::primitives::MessageId;
use block_header::primitives::Timestamp;
use block_header::primitives::UNIX_EPOCH_SECONDS;

#[test]
fn unix_epoch_is_the_label_that_tai64_gives_it() {
    assert_eq!(Timestamp::unix_epoch(), Timestamp(tai64::Tai64::UNIX_EPOCH.0));
    assert_eq!(Timestamp::unix_epoch().0, (1u64 << 62) + 37);
    assert_eq!(UNIX_EPOCH_SECONDS, 4_611_686_018_427_387_941);
}

#[test]
fn bytes32_wraps_its_bytes() {
    let mut bytes = [0u8; 32];
    for i in 0..32 {
        bytes[i] = i as u8;
    }
    let value = Bytes32::new(bytes);
    assert_eq!(value.0, bytes);
    assert_eq!(value.as_slice(), &bytes[..]);
    assert_eq!(Bytes32::zeroed().0, [0u8; 32]);
    assert_eq!(Bytes32::default(), Bytes32::zeroed());
}

#[test]
fn message_id_wraps_its_bytes() {
    let value = MessageId::new([0x11; 32]);
    assert_eq!(value.0, [0x11; 32]);
    assert_eq!(value.as_slice(), &[0x11u8; 32][..]);
}

#[test]
fn block_id_shows_its_bytes() {
    let id = BlockId(Bytes32([0x5a; 32]));
    assert_eq!(id.as_slice(), &[0x5au8; 32][..]);
}

#[test]
fn default_heights_are_zero() {
    assert_eq!(BlockHeight::default(), BlockHeight(0));
    assert_eq!(DaBlockHeight::default(), DaBlockHeight(0));
}

#[test]
fn default_consensus_header_is_at_the_unix_epoch() {
    let header = ConsensusHeader::default();
    assert_eq!(header.time, Timestamp(tai64::Tai64::UNIX_EPOCH.0));
    assert_eq!(header.height, BlockHeight(0));
    assert_eq!(header.prev_root, Bytes32([0u8; 32]));
    assert_eq!(header.generated.application_hash, Bytes32([0u8; 32]));
    let partial = PartialConsensusHeader::default();
    assert_eq!(partial.time, Timestamp(tai64::Tai64::UNIX_EPOCH.0));
    assert_eq!(partial.height, BlockHeight(0));
    assert_eq!(partial.prev_root, Bytes32([0u8; 32]));
}

#[test]
fn default_application_header_is_empty() {
    let header = ApplicationHeader::default();
    assert_eq!(header.da_height, DaBlockHeight(0));
    assert_eq!(header.generated.transactions_count, 0);
    assert_eq!(header.generated.output_messages_count, 0);
    assert_eq!(header.generated.transactions_root, Bytes32([0u8; 32]));
    assert_eq!(header.generated.output_messages_root, Bytes32([0u8; 32]));
    assert_eq!(PartialApplicationHeader::default().da_height, DaBlockHeight(0));
    let fields = GeneratedApplicationFields::default();
    assert_eq!(fields.transactions_count, 0);
    assert_eq!(fields.output_messages_count, 0);
    assert_eq!(GeneratedConsensusFields::default().application_hash, Bytes32([0u8; 32]));
}

#[test]
fn default_block_header_keeps_no_identity() {
    let header = BlockHeader::default();
    assert!(header.metadata.is_none());
    assert_eq!(header.time(), Timestamp(tai64::Tai64::UNIX_EPOCH.0));
    assert_eq!(*header.height(), BlockHeight(0));
    assert_eq!(*header.prev_root(), Bytes32([0u8; 32]));
    assert_eq!(*header.application_hash(), Bytes32([0u8; 32]));
    assert_eq!(*header.da_height(), DaBlockHeight(0));
    assert_eq!(header.transactions_count(), 0);
    assert_eq!(header.output_messages_count(), 0);
    assert_eq!(header.id(), header.hash());
}

#[test]
fn default_partial_header_generates_the_pinned_identity() {
    let partial = PartialBlockHeader::default();
    assert_eq!(*partial.time(), Timestamp(tai64::Tai64::UNIX_EPOCH.0));
    let header = partial.generate(&[], &[]);
    let expected = [
        0x18, 0x3e, 0xac, 0xb6, 0x07, 0x02, 0x37, 0xca, 0x04, 0xda, 0x9f, 0x52, 0x22, 0xe6, 0xec,
        0x08, 0x02, 0x99, 0x90, 0x36, 0x0a, 0x32, 0x40, 0x1f, 0xab, 0xeb, 0x9f, 0xd8, 0xdb, 0xdc,
        0x39, 0x5c,
    ];
    assert_eq!(header.id().0 .0, expected);
}

#[test]
fn accessors_read_the_fields() {
    let header = BlockHeader {
        application: ApplicationHeader {
            da_height: DaBlockHeight(11),
            generated: GeneratedApplicationFields {
                transactions_count: 12,
                output_messages_count: 13,
                transactions_root: Bytes32([14u8; 32]),
                output_messages_root: Bytes32([15u8; 32]),
            },
        },
        consensus: ConsensusHeader {
            prev_root: Bytes32([16u8; 32]),
            height: BlockHeight(17),
            time: Timestamp(18),
            generated: GeneratedConsensusFields { application_hash: Bytes32([19u8; 32]) },
        },
        metadata: None,
    };
    assert_eq!(*header.da_height(), DaBlockHeight(11));
    assert_eq!(header.transactions_count(), 12);
    assert_eq!(header.output_messages_count(), 13);
    assert_eq!(*header.transactions_root(), Bytes32([14u8; 32]));
    assert_eq!(*header.output_messages_root(), Bytes32([15u8; 32]));
    assert_eq!(*header.prev_root(), Bytes32([16u8; 32]));
    assert_eq!(*header.height(), BlockHeight(17));
    assert_eq!(header.time(), Timestamp(18));
    assert_eq!(*header.application_hash(), Bytes32([19u8; 32]));
    assert_eq!(header.consensus_type(), ConsensusType::PoA);
}
