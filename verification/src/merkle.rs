use vstd::prelude::*;
use vstd::bytes::spec_u64_to_le_bytes;
use vstd::bytes::u64_to_le_bytes;
use crate::address::Address;

verus! {

/// A 32-byte Keccak-256 digest: a leaf, an inner node or the root of a Merkle tree.
pub type Digest = [u8; 32];

/// The Keccak-256 digest of the byte strings `parts`, fed to the hasher one after another.
pub uninterp spec fn keccak_hashv(parts: Seq<Seq<u8>>) -> Seq<u8>;

/// Calls `anchor_lang::solana_program::keccak::hashv` and hands out the digest's bytes.
/// Trusted: the digest is a function of the byte strings alone, named `keccak_hashv`.
#[verifier::external_body]
fn hashv(vals: &[&[u8]]) -> (digest: Digest)
    ensures
        digest@ == keccak_hashv(vals@.map_values(|v: &[u8]| v@)),
{
    anchor_lang::solana_program::keccak::hashv(vals).0
}

/// Byte-lexicographic "less than or equal" on byte strings, read from position `i` on.
/// A string that ends first comes first.
pub open spec fn lex_le_from(a: Seq<u8>, b: Seq<u8>, i: int) -> bool
    decreases a.len() - i,
{
    if i < 0 || i >= a.len() || i >= b.len() {
        a.len() <= b.len()
    } else if a[i] != b[i] {
        a[i] < b[i]
    } else {
        lex_le_from(a, b, i + 1)
    }
}

/// Byte-lexicographic "less than or equal".
pub open spec fn lex_le(a: Seq<u8>, b: Seq<u8>) -> bool {
    lex_le_from(a, b, 0)
}

/// The parent of two nodes: the digest of the pair, the smaller-or-equal node first.
pub open spec fn parent_of(x: Seq<u8>, y: Seq<u8>) -> Seq<u8> {
    if lex_le(x, y) {
        keccak_hashv(seq![x, y])
    } else {
        keccak_hashv(seq![y, x])
    }
}

/// The node reached from `leaf` by combining it with each element of `proof` in turn.
pub open spec fn fold_proof(proof: Seq<Seq<u8>>, leaf: Seq<u8>) -> Seq<u8>
    decreases proof.len(),
{
    if proof.len() == 0 {
        leaf
    } else {
        parent_of(fold_proof(proof.drop_last(), leaf), proof.last())
    }
}

/// The byte strings of a list of digests.
pub open spec fn digest_bytes(nodes: Seq<Digest>) -> Seq<Seq<u8>> {
    nodes.map_values(|n: Digest| n@)
}

/// The leaf that commits to the entry `(index, claimer, amount)`: the digest of the
/// index in little-endian bytes, the claimer's address and the amount in little-endian bytes.
pub open spec fn leaf_of(index: u64, claimer: Seq<u8>, amount: u64) -> Seq<u8> {
    keccak_hashv(seq![spec_u64_to_le_bytes(index), claimer, spec_u64_to_le_bytes(amount)])
}

/// Compares two digests in byte-lexicographic order.
pub fn digest_le(a: &Digest, b: &Digest) -> (le: bool)
    ensures
        le == lex_le(a@, b@),
{
    let mut i: usize = 0;
    while i < 32
        invariant
            i <= 32,
            lex_le(a@, b@) == lex_le_from(a@, b@, i as int),
        decreases 32 - i,
    {
        if a[i] != b[i] {
            return a[i] < b[i];
        }
        i += 1;
    }
    true
}

/// Computes the parent of two nodes.
pub fn hash_pair(x: &Digest, y: &Digest) -> (parent: Digest)
    ensures
        parent@ == parent_of(x@, y@),
{
    if digest_le(x, y) {
        let parts = [x.as_slice(), y.as_slice()];
        proof {
            assert(parts@.map_values(|v: &[u8]| v@) =~= seq![x@, y@]);
        }
        hashv(parts.as_slice())
    } else {
        let parts = [y.as_slice(), x.as_slice()];
        proof {
            assert(parts@.map_values(|v: &[u8]| v@) =~= seq![y@, x@]);
        }
        hashv(parts.as_slice())
    }
}

/// Computes the leaf that commits to one entry of a distribution.
pub fn leaf_hash(index: u64, claimer: &Address, amount: u64) -> (leaf: Digest)
    ensures
        leaf@ == leaf_of(index, claimer@, amount),
{
    let index_bytes = u64_to_le_bytes(index);
    let amount_bytes = u64_to_le_bytes(amount);
    let parts = [index_bytes.as_slice(), claimer.as_slice(), amount_bytes.as_slice()];
    proof {
        assert(parts@.map_values(|v: &[u8]| v@) =~= seq![
            spec_u64_to_le_bytes(index),
            claimer@,
            spec_u64_to_le_bytes(amount),
        ]);
    }
    hashv(parts.as_slice())
}

/// Checks a Merkle proof: folds `leaf` with the proof's nodes, in order, and compares
/// what comes out with `root`.
pub fn verify(proof: Vec<Digest>, root: Digest, leaf: Digest) -> (ok: bool)
    ensures
        ok == (fold_proof(digest_bytes(proof@), leaf@) == root@),
{
    let mut computed: Digest = leaf;
    let mut i: usize = 0;
    while i < proof.len()
        invariant
            i <= proof.len(),
            computed@ == fold_proof(digest_bytes(proof@).take(i as int), leaf@),
        decreases proof.len() - i,
    {
        proof {
            let before = digest_bytes(proof@).take(i as int);
            let after = digest_bytes(proof@).take(i as int + 1);
            assert(after.drop_last() =~= before);
        }
        computed = hash_pair(&computed, &proof[i]);
        i += 1;
    }
    proof {
        assert(digest_bytes(proof@).take(i as int) =~= digest_bytes(proof@));
    }
    crate::address::same_address(&computed, &root)
}

/// A Merkle tree, as the one who publishes a root builds it: leaves hold the digests
/// of the entries, and every inner node is the parent of its two children.
pub enum MerkleTree {
    Leaf { digest: Seq<u8> },
    Node { left: Box<MerkleTree>, right: Box<MerkleTree> },
}

impl MerkleTree {
    /// The digest at the top of the tree.
    pub open spec fn root(self) -> Seq<u8>
        decreases self,
    {
        match self {
            MerkleTree::Leaf { digest } => digest,
            MerkleTree::Node { left, right } => parent_of(left.root(), right.root()),
        }
    }

    /// `path` leads from the top of the tree to a leaf: `false` goes left, `true` right.
    pub open spec fn has_leaf_at(self, path: Seq<bool>) -> bool
        decreases self,
    {
        match self {
            MerkleTree::Leaf { digest } => path.len() == 0,
            MerkleTree::Node { left, right } => path.len() > 0 && if path[0] {
                right.has_leaf_at(path.skip(1))
            } else {
                left.has_leaf_at(path.skip(1))
            },
        }
    }

    /// The leaf to which `path` leads.
    pub open spec fn leaf_at(self, path: Seq<bool>) -> Seq<u8>
        decreases self,
    {
        match self {
            MerkleTree::Leaf { digest } => digest,
            MerkleTree::Node { left, right } => if path.len() > 0 && path[0] {
                right.leaf_at(path.skip(1))
            } else {
                left.leaf_at(path.skip(1))
            },
        }
    }

    /// The proof for the leaf to which `path` leads: the siblings met on the way from
    /// that leaf up to the top.
    pub open spec fn proof_at(self, path: Seq<bool>) -> Seq<Seq<u8>>
        decreases self,
    {
        match self {
            MerkleTree::Leaf { digest } => Seq::empty(),
            MerkleTree::Node { left, right } => if path.len() > 0 && path[0] {
                right.proof_at(path.skip(1)).push(left.root())
            } else {
                left.proof_at(path.skip(1)).push(right.root())
            },
        }
    }
}

/// Of two byte strings one is less than or equal to the other.
pub proof fn lemma_lex_le_total(a: Seq<u8>, b: Seq<u8>, i: int)
    requires
        0 <= i,
    ensures
        lex_le_from(a, b, i) || lex_le_from(b, a, i),
    decreases a.len() - i,
{
    if i < a.len() && i < b.len() && a[i] == b[i] {
        lemma_lex_le_total(a, b, i + 1);
    }
}

/// Two byte strings that agree before `i` and are each less than or equal to the
/// other from `i` on are the same.
pub proof fn lemma_lex_le_antisymmetric(a: Seq<u8>, b: Seq<u8>, i: int)
    requires
        0 <= i,
        lex_le_from(a, b, i),
        lex_le_from(b, a, i),
        forall|k: int| 0 <= k < i && k < a.len() && k < b.len() ==> a[k] == b[k],
    ensures
        a == b,
    decreases a.len() - i,
{
    if i < a.len() && i < b.len() {
        lemma_lex_le_antisymmetric(a, b, i + 1);
    } else {
    }
}

/// The parent of two nodes does not depend on which of them is given first.
pub proof fn lemma_parent_symmetric(x: Seq<u8>, y: Seq<u8>)
    ensures
        parent_of(x, y) == parent_of(y, x),
{
    lemma_lex_le_total(x, y, 0);
    if lex_le(x, y) && lex_le(y, x) {
        lemma_lex_le_antisymmetric(x, y, 0);
    }
}

/// Folding a proof that was extended by one node gives the parent of what the shorter
/// proof gives and that node.
pub proof fn lemma_fold_push(proof: Seq<Seq<u8>>, node: Seq<u8>, leaf: Seq<u8>)
    ensures
        fold_proof(proof.push(node), leaf) == parent_of(fold_proof(proof, leaf), node),
{
    assert(proof.push(node).drop_last() =~= proof);
}

/// Round trip: in any Merkle tree, the proof for any of its leaves leads from that
/// leaf to the tree's root, so `verify` accepts it against that root.
pub proof fn lemma_proof_leads_to_root(tree: MerkleTree, path: Seq<bool>)
    requires
        tree.has_leaf_at(path),
    ensures
        fold_proof(tree.proof_at(path), tree.leaf_at(path)) == tree.root(),
    decreases tree,
{
    match tree {
        MerkleTree::Leaf { digest } => {},
        MerkleTree::Node { left, right } => {
            let rest = path.skip(1);
            if path[0] {
                lemma_proof_leads_to_root(*right, rest);
                lemma_fold_push(right.proof_at(rest), left.root(), right.leaf_at(rest));
                lemma_parent_symmetric(right.root(), left.root());
            } else {
                lemma_proof_leads_to_root(*left, rest);
                lemma_fold_push(left.proof_at(rest), right.root(), left.leaf_at(rest));
            }
        },
    }
}

/// A proof leads to one root only: what `verify` accepts against one root it rejects
/// against every other, in particular against a root with one bit flipped.
pub proof fn lemma_other_root_rejected(
    proof: Seq<Seq<u8>>,
    leaf: Seq<u8>,
    root: Seq<u8>,
    other: Seq<u8>,
)
    requires
        fold_proof(proof, leaf) == root,
        other != root,
    ensures
        fold_proof(proof, leaf) != other,
{
}

} // verus!
