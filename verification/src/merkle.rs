//! Merkle roots over ordered lists of leaves.
//!
//! The tree itself is the binary merkle tree of `fuel-merkle`; this module
//! fills it and states which root comes out.

use crate::primitives::Bytes32;
use crate::primitives::MessageId;
use fuel_merkle::binary::in_memory::MerkleTree;
use vstd::prelude::*;

verus! {

/// `fuel_merkle::binary::in_memory::MerkleTree`, declared so that it can be
/// held and passed on. Nothing inside it is visible to the verifier.
#[verifier::external_type_specification]
#[verifier::external_body]
pub struct ExMerkleTree(fuel_merkle::binary::in_memory::MerkleTree);

/// The leaves pushed to `tree` since it was made, oldest first.
pub uninterp spec fn tree_leaves(tree: MerkleTree) -> Seq<Seq<u8>>;

/// The root that a `MerkleTree` returns once exactly `leaves` have been
/// pushed to it in this order.
pub uninterp spec fn merkle_root(leaves: Seq<Seq<u8>>) -> Seq<u8>;

/// The root of a tree without leaves: the digest of no bytes.
pub const EMPTY_ROOT: [u8; 32] = [
    0xe3, 0xb0, 0xc4, 0x42, 0x98, 0xfc, 0x1c, 0x14, 0x9a, 0xfb, 0xf4, 0xc8, 0x99, 0x6f, 0xb9, 0x24,
    0x27, 0xae, 0x41, 0xe4, 0x64, 0x9b, 0x93, 0x4c, 0xa4, 0x95, 0x99, 0x1b, 0x78, 0x52, 0xb8, 0x55,
];

/// The most leaves a tree is filled with here. The tree places its nodes at
/// 64-bit in-order positions, which run up to twice the number of leaves;
/// with no more leaves than this, no position overflows and the tree
/// neither drops a leaf nor fails.
pub const MAX_LEAVES: u64 = 0x4000_0000_0000_0000;

/// `MerkleTree::new`. Trusted, not proved: the new tree holds no leaves.
pub assume_specification[ MerkleTree::new ]() -> (tree: MerkleTree)
    ensures
        tree_leaves(tree) == Seq::<Seq<u8>>::empty(),
;

/// `MerkleTree::push`. Trusted, not proved: on a tree with fewer than
/// `MAX_LEAVES` leaves it adds `data` as the last leaf and keeps the leaves
/// before it.
pub assume_specification[ MerkleTree::push ](tree: &mut MerkleTree, data: &[u8])
    requires
        tree_leaves(*old(tree)).len() < MAX_LEAVES,
    ensures
        tree_leaves(*final(tree)) == tree_leaves(*old(tree)).push(data@),
;

/// `MerkleTree::root`. Trusted, not proved: on a tree with at most
/// `MAX_LEAVES` leaves it returns, without failing, a root that depends on
/// nothing but the leaves pushed and their order; on a tree without leaves
/// that root is `EMPTY_ROOT`.
pub assume_specification[ MerkleTree::root ](tree: &MerkleTree) -> (root: [u8; 32])
    requires
        tree_leaves(*tree).len() <= MAX_LEAVES,
    ensures
        root@ == merkle_root(tree_leaves(*tree)),
        tree_leaves(*tree).len() == 0 ==> root@ == EMPTY_ROOT@,
;

/// The leaves that a list of byte strings stands for: each string is one leaf.
pub open spec fn byte_leaves(items: Seq<Vec<u8>>) -> Seq<Seq<u8>> {
    Seq::new(items.len(), |i: int| items[i]@)
}

/// The leaves that a list of message identifiers stands for: each
/// identifier's 32 bytes are one leaf.
pub open spec fn id_leaves(ids: Seq<MessageId>) -> Seq<Seq<u8>> {
    Seq::new(ids.len(), |i: int| ids[i]@)
}

/// Merkle root of `transactions`, each pushed as one leaf in the order given.
pub fn transactions_root(transactions: &[Vec<u8>]) -> (root: Bytes32)
    requires
        transactions@.len() <= MAX_LEAVES,
    ensures
        root@ == merkle_root(byte_leaves(transactions@)),
        transactions@.len() == 0 ==> root@ == EMPTY_ROOT@,
{
    let mut tree = MerkleTree::new();
    let n: usize = transactions.len();
    let mut i: usize = 0;
    while i < n
        invariant
            n == transactions@.len(),
            n <= MAX_LEAVES,
            i <= n,
            tree_leaves(tree) == byte_leaves(transactions@).take(i as int),
        decreases n - i,
    {
        tree.push(transactions[i].as_slice());
        i = i + 1;
        assert(tree_leaves(tree) =~= byte_leaves(transactions@).take(i as int));
    }
    assert(byte_leaves(transactions@).take(n as int) =~= byte_leaves(transactions@));
    Bytes32(tree.root())
}

/// Merkle root of `message_ids`, each pushed as one 32-byte leaf in the order
/// given.
pub fn message_ids_root(message_ids: &[MessageId]) -> (root: Bytes32)
    requires
        message_ids@.len() <= MAX_LEAVES,
    ensures
        root@ == merkle_root(id_leaves(message_ids@)),
        message_ids@.len() == 0 ==> root@ == EMPTY_ROOT@,
{
    let mut tree = MerkleTree::new();
    let n: usize = message_ids.len();
    let mut i: usize = 0;
    while i < n
        invariant
            n == message_ids@.len(),
            n <= MAX_LEAVES,
            i <= n,
            tree_leaves(tree) == id_leaves(message_ids@).take(i as int),
        decreases n - i,
    {
        tree.push(message_ids[i].as_slice());
        i = i + 1;
        assert(tree_leaves(tree) =~= id_leaves(message_ids@).take(i as int));
    }
    assert(id_leaves(message_ids@).take(n as int) =~= id_leaves(message_ids@));
    Bytes32(tree.root())
}

} // verus!
