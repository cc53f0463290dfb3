use block_header::header::ApplicationHeader;
use block_header::header::ConsensusHeader;
use block_header::header::GeneratedApplicationFields;
use block_header::header::GeneratedConsensusFields;
use block_header::primitives::BlockHeight;
use block_header::primitives::Bytes32;
use block_header::primitives::DaBlockHeight;
use block_header::primitives::Timestamp;

fn nibble(c: u8) -> u8 {
    match c {
        b'0'..=b'9' => c - b'0',
        b'a'..=b'f' => c - b'a' + 10,
        _ => panic!("not a hex digit"),
    }
}

fn hex32(text: &str) -> [u8; 32] {
    let digits = text.as_bytes();
    assert_eq!(digits.len(), 64);
    let mut out = [0u8; 32];
    for i in 0..32 {
        out[i] = (nibble(digits[2 * i]) << 4) | nibble(digits[2 * i + 1]);
    }
    out
}

fn application() -> ApplicationHeader {
    ApplicationHeader {
        da_height: DaBlockHeight(0x0102_0304_0506_0708),
        generated: GeneratedApplicationFields {
            transactions_count: 0x1112_1314_1516_1718,
            output_messages_count: 0x2122_2324_2526_2728,
            transactions_root: Bytes32([0xaa; 32]),
            output_messages_root: Bytes32([0xbb; 32]),
        },
    }
}

fn consensus() -> ConsensusHeader {
    ConsensusHeader {
        prev_root: Bytes32([0xcc; 32]),
        height: BlockHeight(0x3132_3334),
        time: Timestamp(0x4142_4344_4546_4748),
        generated: GeneratedConsensusFields { application_hash: Bytes32([0xdd; 32]) },
    }
}

#[test]
fn application_preimage_has_the_fields_in_order() {
    let mut expected = vec![0x01, 0x02, 0x03, 0x04, 0x05, 0x06, 0x07, 0x08];
    expected.extend_from_slice(&[0x11, 0x12, 0x13, 0x14, 0x15, 0x16, 0x17, 0x18]);
    expected.extend_from_slice(&[0x21, 0x22, 0x23, 0x24, 0x25, 0x26, 0x27, 0x28]);
    expected.extend_from_slice(&[0xaa; 32]);
    expected.extend_from_slice(&[0xbb; 32]);
    let bytes = application().preimage_bytes();
    assert_eq!(bytes.len(), 88);
    assert_eq!(bytes, expected);
}

#[test]
fn consensus_preimage_has_the_fields_in_order() {
    let mut expected = vec![0xcc; 32];
    expected.extend_from_slice(&[0x31, 0x32, 0x33, 0x34]);
    expected.extend_from_slice(&[0x41, 0x42, 0x43, 0x44, 0x45, 0x46, 0x47, 0x48]);
    expected.extend_from_slice(&[0xdd; 32]);
    let bytes = consensus().preimage_bytes();
    assert_eq!(bytes.len(), 76);
    assert_eq!(bytes, expected);
}

#[test]
fn application_hash_is_the_digest_of_the_preimage() {
    let header = application();
    let expected: [u8; 32] = fuel_crypto::Hasher::hash(header.preimage_bytes()).into();
    assert_eq!(header.hash().0, expected);
    assert_ne!(header.hash().0.to_vec(), header.preimage_bytes());
}

#[test]
fn application_hash_is_what_feeding_the_fields_one_by_one_gives() {
    let header = application();
    let mut hasher = fuel_crypto::Hasher::default();
    hasher.input(header.da_height.0.to_be_bytes());
    hasher.input(header.generated.transactions_count.to_be_bytes());
    hasher.input(header.generated.output_messages_count.to_be_bytes());
    hasher.input(header.generated.transactions_root.0);
    hasher.input(header.generated.output_messages_root.0);
    let expected: [u8; 32] = hasher.digest().into();
    assert_eq!(header.hash().0, expected);
}

#[test]
fn consensus_hash_is_what_feeding_the_fields_one_by_one_gives() {
    let header = consensus();
    let mut hasher = fuel_crypto::Hasher::default();
    hasher.input(header.prev_root.0);
    hasher.input(header.height.0.to_be_bytes());
    hasher.input(header.time.0.to_be_bytes());
    hasher.input(header.generated.application_hash.0);
    let expected: [u8; 32] = hasher.digest().into();
    assert_eq!(header.hash().0 .0, expected);
}

#[test]
fn digests_of_the_default_headers_are_pinned() {
    assert_eq!(
        ApplicationHeader::default().hash().0,
        hex32("10eef285deef7a4b7c82b22aa53589b7833df29de3814649c772bbd5c832f365")
    );
    assert_eq!(
        ConsensusHeader::default().hash().0 .0,
        hex32("0912d3a72a6f63e4b9094fe70657d40aad136e85981807c2d687796752ea2b3c")
    );
}

#[test]
fn each_application_field_changes_the_digest() {
    let base = application().hash();

    let mut other = application();
    other.da_height = DaBlockHeight(0x0102_0304_0506_0709);
    assert_ne!(other.hash(), base);

    let mut other = application();
    other.generated.transactions_count += 1;
    assert_ne!(other.hash(), base);

    let mut other = application();
    other.generated.output_messages_count += 1;
    assert_ne!(other.hash(), base);

    let mut other = application();
    other.generated.transactions_root.0[31] ^= 1;
    assert_ne!(other.hash(), base);

    let mut other = application();
    other.generated.output_messages_root.0[0] ^= 1;
    assert_ne!(other.hash(), base);
}

#[test]
fn each_consensus_field_changes_the_digest() {
    let base = consensus().hash();

    let mut other = consensus();
    other.prev_root.0[0] ^= 1;
    assert_ne!(other.hash(), base);

    let mut other = consensus();
    other.height = BlockHeight(0x3132_3335);
    assert_ne!(other.hash(), base);

    let mut other = consensus();
    other.time = Timestamp(0x4142_4344_4546_4749);
    assert_ne!(other.hash(), base);

    let mut other = consensus();
    other.generated.application_hash.0[31] ^= 1;
    assert_ne!(other.hash(), base);
}

#[test]
fn counts_are_not_interchangeable() {
    let mut a = application();
    a.generated.transactions_count = 1;
    a.generated.output_messages_count = 2;
    let mut b = application();
    b.generated.transactions_count = 2;
    b.generated.output_messages_count = 1;
    assert_ne!(a.preimage_bytes(), b.preimage_bytes());
    assert_ne!(a.hash(), b.hash());
}
