//! Plain value types that the header is built from.

use crate::encoding::be_bytes;
use crate::encoding::u32_to_be_bytes;
use crate::encoding::u64_to_be_bytes;
use vstd::prelude::*;

verus! {

/// Thirty-two bytes: a digest or a merkle root.
#[derive(Clone, Copy, Debug, PartialEq, Eq, Hash)]
pub struct Bytes32(pub [u8; 32]);

impl View for Bytes32 {
    type V = Seq<u8>;

    open spec fn view(&self) -> Seq<u8> {
        self.0@
    }
}

impl Bytes32 {
    /// Wraps an array of bytes.
    pub fn new(bytes: [u8; 32]) -> (r: Self)
        ensures
            r.0 == bytes,
    {
        Bytes32(bytes)
    }

    /// The value whose bytes are all zero.
    pub fn zeroed() -> (r: Self)
        ensures
            r@ == Seq::new(32, |i: int| 0u8),
    {
        let r = Bytes32([0u8; 32]);
        assert(r@ =~= Seq::new(32, |i: int| 0u8));
        r
    }

    /// The bytes as a slice.
    pub fn as_slice(&self) -> (r: &[u8])
        ensures
            r@ == self@,
    {
        self.0.as_slice()
    }
}

impl Default for Bytes32 {
    /// The value whose bytes are all zero.
    fn default() -> (r: Self)
        ensures
            r@ == Seq::new(32, |i: int| 0u8),
    {
        Bytes32::zeroed()
    }
}

/// Identifier of an output message, as produced by executing a transaction.
#[derive(Clone, Copy, Debug, PartialEq, Eq, Hash)]
pub struct MessageId(pub [u8; 32]);

impl View for MessageId {
    type V = Seq<u8>;

    open spec fn view(&self) -> Seq<u8> {
        self.0@
    }
}

impl MessageId {
    /// Wraps an array of bytes.
    pub fn new(bytes: [u8; 32]) -> (r: Self)
        ensures
            r.0 == bytes,
    {
        MessageId(bytes)
    }

    /// The bytes as a slice.
    pub fn as_slice(&self) -> (r: &[u8])
        ensures
            r@ == self@,
    {
        self.0.as_slice()
    }
}

/// Identity of a complete block header: the digest of its consensus header.
#[derive(Clone, Copy, Debug, PartialEq, Eq, Hash)]
pub struct BlockId(pub Bytes32);

impl View for BlockId {
    type V = Seq<u8>;

    open spec fn view(&self) -> Seq<u8> {
        self.0@
    }
}

impl BlockId {
    /// The bytes as a slice.
    pub fn as_slice(&self) -> (r: &[u8])
        ensures
            r@ == self@,
    {
        self.0.as_slice()
    }
}

/// Sequence number of a header within its own chain.
#[derive(Clone, Copy, Debug, PartialEq, Eq, Hash)]
pub struct BlockHeight(pub u32);

impl BlockHeight {
    /// The height as four bytes, most significant first.
    pub fn to_bytes(self) -> (r: [u8; 4])
        ensures
            r@ == be_bytes(self.0 as nat, 4),
    {
        u32_to_be_bytes(self.0)
    }
}

impl Default for BlockHeight {
    /// Height zero.
    fn default() -> (r: Self)
        ensures
            r.0 == 0,
    {
        BlockHeight(0)
    }
}

/// Height on the data-availability chain up to which messages and deposits
/// are included.
#[derive(Clone, Copy, Debug, PartialEq, Eq, Hash)]
pub struct DaBlockHeight(pub u64);

impl DaBlockHeight {
    /// The height as eight bytes, most significant first.
    pub fn to_bytes(self) -> (r: [u8; 8])
        ensures
            r@ == be_bytes(self.0 as nat, 8),
    {
        u64_to_be_bytes(self.0)
    }
}

impl Default for DaBlockHeight {
    /// Height zero.
    fn default() -> (r: Self)
        ensures
            r.0 == 0,
    {
        DaBlockHeight(0)
    }
}

/// The time a block was produced: a TAI64 label, the number of seconds since
/// the TAI64 origin.
#[derive(Clone, Copy, Debug, PartialEq, Eq, Hash)]
pub struct Timestamp(pub u64);

/// The label of the Unix epoch, 1970-01-01 00:00:00 UTC: `2^62 + 37`.
pub const UNIX_EPOCH_SECONDS: u64 = 0x4000_0000_0000_0025;

/// Reads `tai64::Tai64::UNIX_EPOCH`.
///
/// Trusted, not proved: the label that `tai64` gives the Unix epoch is
/// `UNIX_EPOCH_SECONDS`.
#[verifier::external_body]
fn tai64_unix_epoch() -> (seconds: u64)
    ensures
        seconds == UNIX_EPOCH_SECONDS,
{
    tai64::Tai64::UNIX_EPOCH.0
}

impl Timestamp {
    /// The time of the Unix epoch.
    pub fn unix_epoch() -> (r: Self)
        ensures
            r.0 == UNIX_EPOCH_SECONDS,
    {
        Timestamp(tai64_unix_epoch())
    }

    /// The label as eight bytes, most significant first.
    pub fn to_bytes(self) -> (r: [u8; 8])
        ensures
            r@ == be_bytes(self.0 as nat, 8),
    {
        u64_to_be_bytes(self.0)
    }
}

/// The kind of consensus a header is produced under.
#[derive(Clone, Copy, Debug, PartialEq, Eq, Hash)]
pub enum ConsensusType {
    /// Proof of authority.
    PoA,
}

} // verus!
