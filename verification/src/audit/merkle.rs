//! Merkle trees over audit log entries, inclusion proofs, and monthly
//! roots used to anchor a month of audit entries in one hash.

use vstd::prelude::*;
use vstd::string::*;
use crate::audit::entry::AuditLogEntry;
use crate::digest::{tagged_sha256, tagged_sha256_of_str};
use crate::text::{dec_nat, u64_to_string, views};

verus! {

/// The hash of an inner node: the tagged SHA-256 of the UTF-8 text of the
/// left hash followed by the right hash.
pub open spec fn combine_hash(a: Seq<char>, b: Seq<char>) -> Seq<char> {
    tagged_sha256(vstd::utf8::encode_utf8(a + b))
}

/// The hash that position `k` of the next level takes: the pair `2k, 2k+1`,
/// or the last hash paired with itself when the level has odd length.
pub open spec fn pair_hash(l: Seq<Seq<char>>, k: int) -> Seq<char> {
    if 2 * k + 1 < l.len() {
        combine_hash(l[2 * k], l[2 * k + 1])
    } else {
        combine_hash(l[2 * k], l[2 * k])
    }
}

/// The level above `l`.
pub open spec fn next_level(l: Seq<Seq<char>>) -> Seq<Seq<char>> {
    Seq::new(((l.len() + 1) / 2) as nat, |k: int| pair_hash(l, k))
}

/// The Merkle root of a non-empty level.
pub open spec fn merkle_root_of(l: Seq<Seq<char>>) -> Seq<char>
    decreases l.len(),
{
    if l.len() <= 1 {
        l[0]
    } else {
        merkle_root_of(next_level(l))
    }
}

/// The leaf hashes of a sequence of entries: their own hashes, in order.
pub open spec fn leaf_hashes(s: Seq<AuditLogEntry>) -> Seq<Seq<char>> {
    Seq::new(s.len(), |i: int| s[i].this_log_hash@)
}

/// One step up a proof: combine the current hash with a sibling, the current
/// hash on the left when `left` holds.
pub open spec fn proof_step(h: Seq<char>, sibling: Seq<char>, left: bool) -> Seq<char> {
    if left { combine_hash(h, sibling) } else { combine_hash(sibling, h) }
}

/// The order flag at position `i`, `true` where the flags run out.
pub open spec fn order_at(order: Seq<bool>, i: int) -> bool {
    if 0 <= i < order.len() { order[i] } else { true }
}

/// The hash reached by applying proof steps `i..` to `h`.
pub open spec fn fold_proof(h: Seq<char>, hashes: Seq<Seq<char>>, order: Seq<bool>, i: int) -> Seq<char>
    decreases hashes.len() - i,
{
    if i < 0 || i >= hashes.len() {
        h
    } else {
        fold_proof(proof_step(h, hashes[i], order_at(order, i)), hashes, order, i + 1)
    }
}

/// The sibling hash and order flag for position `idx` of level `l`.
pub open spec fn sibling_of(l: Seq<Seq<char>>, idx: int) -> (Seq<char>, bool) {
    if idx % 2 == 0 && idx + 1 < l.len() {
        (l[idx + 1], true)
    } else if idx % 2 != 0 {
        (l[idx - 1], false)
    } else {
        (l[idx], true)
    }
}

/// The proof hashes for leaf `idx` of level `l`, from the bottom up.
pub open spec fn proof_hashes_of(l: Seq<Seq<char>>, idx: int) -> Seq<Seq<char>>
    decreases l.len(),
{
    if l.len() <= 1 {
        Seq::empty()
    } else {
        seq![sibling_of(l, idx).0] + proof_hashes_of(next_level(l), idx / 2)
    }
}

/// The order flags for leaf `idx` of level `l`, from the bottom up.
pub open spec fn proof_order_of(l: Seq<Seq<char>>, idx: int) -> Seq<bool>
    decreases l.len(),
{
    if l.len() <= 1 {
        Seq::empty()
    } else {
        seq![sibling_of(l, idx).1] + proof_order_of(next_level(l), idx / 2)
    }
}

/// A node of a Merkle tree; leaves have no children.
#[derive(Debug)]
pub struct MerkleNode {
    pub hash: String,
    pub left: Option<Box<MerkleNode>>,
    pub right: Option<Box<MerkleNode>>,
}

/// Every inner node has two children and carries the combined hash of them.
pub open spec fn node_wf(n: MerkleNode) -> bool
    decreases n,
{
    match n.left {
        None => n.right is None,
        Some(l) => match n.right {
            None => false,
            Some(r) => n.hash@ == combine_hash(l.hash@, r.hash@) && node_wf(*l) && node_wf(*r),
        },
    }
}

/// The hashes of a sequence of nodes.
pub open spec fn node_hashes(v: Seq<MerkleNode>) -> Seq<Seq<char>> {
    Seq::new(v.len(), |i: int| v[i].hash@)
}

/// Why a tree, root or proof could not be produced.
#[derive(Debug, Clone, PartialEq, Eq)]
pub enum MerkleError {
    /// There are no entries.
    EmptyEntries,
    /// The entry index is past the end.
    IndexOutOfRange,
}

/// The tagged hash of `a` followed by `b`.
fn combine(a: &String, b: &String) -> (r: String)
    ensures
        r@ == combine_hash(a@, b@),
{
    let mut c = a.clone();
    c.append(b.as_str());
    tagged_sha256_of_str(c.as_str())
}

impl MerkleNode {
    /// A leaf for an entry: its hash is the entry's own hash.
    pub fn leaf(entry: &AuditLogEntry) -> (r: Self)
        ensures
            r.hash@ == entry.this_log_hash@,
            r.left is None,
            r.right is None,
            node_wf(r),
    {
        MerkleNode { hash: entry.this_log_hash.clone(), left: None, right: None }
    }

    /// An inner node over two children.
    pub fn internal(left: MerkleNode, right: MerkleNode) -> (r: Self)
        requires
            node_wf(left),
            node_wf(right),
        ensures
            r.hash@ == combine_hash(left.hash@, right.hash@),
            node_wf(r),
    {
        let hash = combine(&left.hash, &right.hash);
        MerkleNode { hash, left: Some(Box::new(left)), right: Some(Box::new(right)) }
    }

    /// An inner node over a child and a copy of it (the odd node of a level).
    pub fn single_child(child: MerkleNode) -> (r: Self)
        requires
            node_wf(child),
        ensures
            r.hash@ == combine_hash(child.hash@, child.hash@),
            node_wf(r),
    {
        let hash = combine(&child.hash, &child.hash);
        let copy = child.clone_node();
        MerkleNode { hash, left: Some(Box::new(copy)), right: Some(Box::new(child)) }
    }

    /// A deep copy of the subtree.
    pub fn clone_node(&self) -> (r: Self)
        ensures
            r == *self,
        decreases *self,
    {
        let left = match &self.left {
            Some(b) => Some(Box::new((**b).clone_node())),
            None => None,
        };
        let right = match &self.right {
            Some(b) => Some(Box::new((**b).clone_node())),
            None => None,
        };
        MerkleNode { hash: self.hash.clone(), left, right }
    }
}

/// The nodes of the level above `cur`.
fn next_node_level(cur: &Vec<MerkleNode>) -> (r: Vec<MerkleNode>)
    requires
        forall|i: int| 0 <= i < cur@.len() ==> node_wf(#[trigger] cur@[i]),
    ensures
        node_hashes(r@) == next_level(node_hashes(cur@)),
        forall|i: int| 0 <= i < r@.len() ==> node_wf(#[trigger] r@[i]),
{
    let ghost hv = node_hashes(cur@);
    let n = cur.len();
    let mut next: Vec<MerkleNode> = Vec::new();
    let half = n / 2 + n % 2;
    let mut k: usize = 0;
    while k < half
        invariant
            half == (n + 1) / 2,
            n == cur@.len(),
            hv == node_hashes(cur@),
            forall|i: int| 0 <= i < cur@.len() ==> node_wf(#[trigger] cur@[i]),
            k <= (n + 1) / 2,
            next@.len() == k,
            forall|t: int| 0 <= t < k ==> (#[trigger] next@[t]).hash@ == pair_hash(hv, t) && node_wf(next@[t]),
        decreases half - k,
    {
        let j = 2 * k;
        if j + 1 < n {
            let a = cur[j].clone_node();
            let b = cur[j + 1].clone_node();
            let node = MerkleNode::internal(a, b);
            next.push(node);
        } else {
            let a = cur[j].clone_node();
            let node = MerkleNode::single_child(a);
            next.push(node);
        }
        k = k + 1;
    }
    proof {
        assert(node_hashes(next@) =~= next_level(hv));
    }
    next
}

/// Each level above a level of two or more is strictly shorter.
proof fn lemma_next_level_shorter(l: Seq<Seq<char>>)
    requires
        l.len() >= 2,
    ensures
        next_level(l).len() < l.len(),
        next_level(l).len() >= 1,
{
}

/// Builds the Merkle tree of the entries; its root carries the Merkle root
/// of their hashes.
pub fn build_merkle_tree(entries: &[AuditLogEntry]) -> (r: Result<MerkleNode, MerkleError>)
    ensures
        r is Err <==> entries@.len() == 0,
        r is Err ==> r == Err::<MerkleNode, MerkleError>(MerkleError::EmptyEntries),
        r matches Ok(root) ==> root.hash@ == merkle_root_of(leaf_hashes(entries@)) && node_wf(root),
{
    let n = entries.len();
    if n == 0 {
        return Err(MerkleError::EmptyEntries);
    }
    let mut nodes: Vec<MerkleNode> = Vec::new();
    let mut i: usize = 0;
    while i < n
        invariant
            n == entries@.len(),
            i <= n,
            nodes@.len() == i,
            forall|t: int| 0 <= t < i ==> (#[trigger] nodes@[t]).hash@ == entries@[t].this_log_hash@ && node_wf(nodes@[t]),
        decreases n - i,
    {
        nodes.push(MerkleNode::leaf(&entries[i]));
        i = i + 1;
    }
    proof {
        assert(node_hashes(nodes@) =~= leaf_hashes(entries@));
    }
    while nodes.len() > 1
        invariant
            nodes@.len() >= 1,
            merkle_root_of(node_hashes(nodes@)) == merkle_root_of(leaf_hashes(entries@)),
            forall|t: int| 0 <= t < nodes@.len() ==> node_wf(#[trigger] nodes@[t]),
        decreases nodes@.len(),
    {
        let next = next_node_level(&nodes);
        proof {
            lemma_next_level_shorter(node_hashes(nodes@));
        }
        nodes = next;
    }
    let root = nodes.remove(0);
    Ok(root)
}

/// The Merkle root of the entries.
pub fn get_merkle_root(entries: &[AuditLogEntry]) -> (r: Result<String, MerkleError>)
    ensures
        r is Err <==> entries@.len() == 0,
        r is Err ==> r == Err::<String, MerkleError>(MerkleError::EmptyEntries),
        r matches Ok(h) ==> h@ == merkle_root_of(leaf_hashes(entries@)),
{
    match build_merkle_tree(entries) {
        Ok(tree) => Ok(tree.hash),
        Err(e) => Err(e),
    }
}

/// Does the claimed root equal the Merkle root of the entries?
pub fn verify_merkle_root(entries: &[AuditLogEntry], claimed_root: &str) -> (r: Result<bool, MerkleError>)
    ensures
        r is Err <==> entries@.len() == 0,
        r is Err ==> r == Err::<bool, MerkleError>(MerkleError::EmptyEntries),
        r matches Ok(b) ==> b == (merkle_root_of(leaf_hashes(entries@)) == claimed_root@),
{
    match get_merkle_root(entries) {
        Ok(actual) => Ok(crate::text::str_eq(actual.as_str(), claimed_root)),
        Err(e) => Err(e),
    }
}

/// A Merkle inclusion proof for one leaf.
#[derive(Debug, Clone)]
pub struct MerkleProof {
    pub leaf_hash: String,
    pub proof_hashes: Vec<String>,
    pub root_hash: String,
    /// For each proof hash: `true` when the running hash is on the left
    /// (combine as running, sibling), `false` when it is on the right.
    pub proof_order: Vec<bool>,
}

/// The level above `cur`, as strings.
fn next_hash_level(cur: &Vec<String>) -> (r: Vec<String>)
    ensures
        views(r@) == next_level(views(cur@)),
{
    let ghost hv = views(cur@);
    let n = cur.len();
    let mut next: Vec<String> = Vec::new();
    let half = n / 2 + n % 2;
    let mut k: usize = 0;
    while k < half
        invariant
            half == (n + 1) / 2,
            n == cur@.len(),
            hv == views(cur@),
            k <= (n + 1) / 2,
            next@.len() == k,
            forall|t: int| 0 <= t < k ==> (#[trigger] next@[t])@ == pair_hash(hv, t),
        decreases half - k,
    {
        let j = 2 * k;
        if j + 1 < n {
            next.push(combine(&cur[j], &cur[j + 1]));
        } else {
            next.push(combine(&cur[j], &cur[j]));
        }
        k = k + 1;
    }
    proof {
        assert(views(next@) =~= next_level(hv));
    }
    next
}

/// Generates the inclusion proof of entry `entry_index`.
pub fn generate_merkle_proof(entries: &[AuditLogEntry], entry_index: usize) -> (r: Result<MerkleProof, MerkleError>)
    ensures
        r is Ok <==> entry_index < entries@.len(),
        r is Err ==> r == Err::<MerkleProof, MerkleError>(MerkleError::IndexOutOfRange),
        r matches Ok(p) ==> {
            &&& p.leaf_hash@ == entries@[entry_index as int].this_log_hash@
            &&& p.root_hash@ == merkle_root_of(leaf_hashes(entries@))
            &&& views(p.proof_hashes@) == proof_hashes_of(leaf_hashes(entries@), entry_index as int)
            &&& p.proof_order@ == proof_order_of(leaf_hashes(entries@), entry_index as int)
            &&& p.proof_hashes@.len() == merkle_depth(entries@.len())
            &&& p.proof_order@.len() == merkle_depth(entries@.len())
        },
{
    let n = entries.len();
    if entry_index >= n {
        return Err(MerkleError::IndexOutOfRange);
    }
    let ghost leaves = leaf_hashes(entries@);
    let mut cur: Vec<String> = Vec::new();
    let mut i: usize = 0;
    while i < n
        invariant
            n == entries@.len(),
            i <= n,
            cur@.len() == i,
            forall|t: int| 0 <= t < i ==> (#[trigger] cur@[t])@ == entries@[t].this_log_hash@,
        decreases n - i,
    {
        cur.push(entries[i].this_log_hash.clone());
        i = i + 1;
    }
    proof {
        assert(views(cur@) =~= leaves);
    }
    let mut hashes: Vec<String> = Vec::new();
    let mut order: Vec<bool> = Vec::new();
    let mut idx: usize = entry_index;
    while cur.len() > 1
        invariant
            cur@.len() >= 1,
            idx < cur@.len(),
            merkle_root_of(views(cur@)) == merkle_root_of(leaves),
            views(hashes@) + proof_hashes_of(views(cur@), idx as int) == proof_hashes_of(leaves, entry_index as int),
            order@ + proof_order_of(views(cur@), idx as int) == proof_order_of(leaves, entry_index as int),
        decreases cur@.len(),
    {
        let ghost hv = views(cur@);
        let len = cur.len();
        let (sib, left) = if idx % 2 == 0 && idx + 1 < len {
            (cur[idx + 1].clone(), true)
        } else if idx % 2 != 0 {
            (cur[idx - 1].clone(), false)
        } else {
            (cur[idx].clone(), true)
        };
        proof {
            assert(sib@ == sibling_of(hv, idx as int).0);
            assert(left == sibling_of(hv, idx as int).1);
            assert(views(hashes@.push(sib)) =~= views(hashes@) + seq![sib@]);
            assert(views(hashes@) + proof_hashes_of(hv, idx as int)
                == views(hashes@) + (seq![sib@] + proof_hashes_of(next_level(hv), (idx / 2) as int)));
            assert(views(hashes@) + (seq![sib@] + proof_hashes_of(next_level(hv), (idx / 2) as int))
                =~= (views(hashes@) + seq![sib@]) + proof_hashes_of(next_level(hv), (idx / 2) as int));
            assert(order@ + (seq![left] + proof_order_of(next_level(hv), (idx / 2) as int))
                =~= order@.push(left) + proof_order_of(next_level(hv), (idx / 2) as int));
            lemma_next_level_shorter(hv);
        }
        hashes.push(sib);
        order.push(left);
        let next = next_hash_level(&cur);
        cur = next;
        idx = idx / 2;
    }
    proof {
        assert(views(hashes@) + Seq::<Seq<char>>::empty() =~= views(hashes@));
        assert(order@ + Seq::<bool>::empty() =~= order@);
        lemma_proof_size(entries@, entry_index as int);
    }
    let root = cur.remove(0);
    Ok(MerkleProof {
        leaf_hash: entries[entry_index].this_log_hash.clone(),
        proof_hashes: hashes,
        root_hash: root,
        proof_order: order,
    })
}

/// Does folding the proof hashes into `leaf_hash` reach `root_hash`?
pub fn verify_merkle_proof(proof: &MerkleProof, leaf_hash: &str, root_hash: &str) -> (r: bool)
    ensures
        r == (fold_proof(leaf_hash@, views(proof.proof_hashes@), proof.proof_order@, 0) == root_hash@),
{
    let ghost hs = views(proof.proof_hashes@);
    let ghost ord = proof.proof_order@;
    let mut current = String::from_str(leaf_hash);
    let n = proof.proof_hashes.len();
    let mut i: usize = 0;
    while i < n
        invariant
            n == hs.len(),
            hs == views(proof.proof_hashes@),
            ord == proof.proof_order@,
            i <= n,
            fold_proof(current@, hs, ord, i as int) == fold_proof(leaf_hash@, hs, ord, 0),
        decreases n - i,
    {
        let is_left = if i < proof.proof_order.len() { proof.proof_order[i] } else { true };
        let next = if is_left {
            combine(&current, &proof.proof_hashes[i])
        } else {
            combine(&proof.proof_hashes[i], &current)
        };
        current = next;
        i = i + 1;
    }
    crate::text::str_eq(current.as_str(), root_hash)
}

/// Shifting both sequences by one leading element shifts the fold index.
proof fn lemma_fold_shift(h: Seq<char>, s: Seq<char>, o: bool, hs: Seq<Seq<char>>, ord: Seq<bool>, i: int)
    requires
        0 <= i,
        hs.len() == ord.len(),
    ensures
        fold_proof(h, seq![s] + hs, seq![o] + ord, i + 1) == fold_proof(h, hs, ord, i),
    decreases hs.len() - i,
{
    let hs2 = seq![s] + hs;
    let ord2 = seq![o] + ord;
    if i < hs.len() {
        assert(hs2[i + 1] == hs[i]);
        assert(order_at(ord2, i + 1) == order_at(ord, i));
        lemma_fold_shift(proof_step(h, hs[i], order_at(ord, i)), s, o, hs, ord, i + 1);
    }
}

proof fn lemma_proof_lengths(l: Seq<Seq<char>>, idx: int)
    ensures
        proof_hashes_of(l, idx).len() == proof_order_of(l, idx).len(),
    decreases l.len(),
{
    if l.len() > 1 {
        lemma_next_level_shorter(l);
        lemma_proof_lengths(next_level(l), idx / 2);
    }
}

/// The number of levels above the leaves of a tree over `n` leaves: the
/// number of halvings, rounding up, that bring `n` down to one, which is
/// ceil(log2 n).
pub open spec fn merkle_depth(n: nat) -> nat
    decreases n,
{
    if n <= 1 { 0 } else { 1 + merkle_depth(((n + 1) / 2) as nat) }
}

/// Two to the power `k`.
pub open spec fn pow2(k: nat) -> nat
    decreases k,
{
    if k == 0 { 1 } else { 2 * pow2((k - 1) as nat) }
}

proof fn lemma_depth_is_ceil_log2(n: nat)
    requires
        n >= 1,
    ensures
        n <= pow2(merkle_depth(n)),
        merkle_depth(n) > 0 ==> pow2((merkle_depth(n) - 1) as nat) < n,
    decreases n,
{
    if n > 1 {
        let m = ((n + 1) / 2) as nat;
        lemma_depth_is_ceil_log2(m);
        assert(pow2(merkle_depth(n)) == 2 * pow2(merkle_depth(m)));
        if merkle_depth(m) > 0 {
            assert(pow2(merkle_depth(m)) == 2 * pow2((merkle_depth(m) - 1) as nat));
        }
    }
}

proof fn lemma_proof_depth(l: Seq<Seq<char>>, idx: int)
    ensures
        proof_hashes_of(l, idx).len() == merkle_depth(l.len()),
        proof_order_of(l, idx).len() == merkle_depth(l.len()),
    decreases l.len(),
{
    if l.len() > 1 {
        lemma_next_level_shorter(l);
        lemma_proof_depth(next_level(l), idx / 2);
        assert(next_level(l).len() == ((l.len() + 1) / 2) as nat);
    }
}

/// A generated proof has one hash and one order flag per level of the tree:
/// ceil(log2 n) of each for `n` entries (none for a single entry).
pub proof fn lemma_proof_size(entries: Seq<AuditLogEntry>, idx: int)
    requires
        0 <= idx < entries.len(),
    ensures
        proof_hashes_of(leaf_hashes(entries), idx).len() == merkle_depth(entries.len()),
        proof_order_of(leaf_hashes(entries), idx).len() == merkle_depth(entries.len()),
        entries.len() <= pow2(merkle_depth(entries.len())),
        merkle_depth(entries.len()) > 0 ==> pow2((merkle_depth(entries.len()) - 1) as nat) < entries.len(),
{
    lemma_proof_depth(leaf_hashes(entries), idx);
    lemma_depth_is_ceil_log2(entries.len());
}

/// Folding the generated proof of leaf `idx` into that leaf's hash yields
/// the Merkle root of the level.
pub proof fn lemma_generated_proof_reaches_root(l: Seq<Seq<char>>, idx: int)
    requires
        0 <= idx < l.len(),
    ensures
        fold_proof(l[idx], proof_hashes_of(l, idx), proof_order_of(l, idx), 0) == merkle_root_of(l),
    decreases l.len(),
{
    if l.len() > 1 {
        let nl = next_level(l);
        lemma_next_level_shorter(l);
        let (s, o) = sibling_of(l, idx);
        assert(proof_step(l[idx], s, o) == nl[idx / 2]);
        lemma_generated_proof_reaches_root(nl, idx / 2);
        lemma_proof_lengths(nl, idx / 2);
        lemma_fold_shift(nl[idx / 2], s, o, proof_hashes_of(nl, idx / 2), proof_order_of(nl, idx / 2), 0);
        assert(order_at(seq![o] + proof_order_of(nl, idx / 2), 0) == o);
        assert((seq![s] + proof_hashes_of(nl, idx / 2))[0] == s);
    }
}

impl MerkleProof {
    /// Checks this proof against its own leaf and root.
    pub fn verify(&self) -> (r: bool)
        ensures
            r == (fold_proof(self.leaf_hash@, views(self.proof_hashes@), self.proof_order@, 0) == self.root_hash@),
    {
        verify_merkle_proof(self, self.leaf_hash.as_str(), self.root_hash.as_str())
    }

    /// Number of hashes in the proof.
    pub fn size(&self) -> (r: usize)
        ensures
            r == self.proof_hashes@.len(),
    {
        self.proof_hashes.len()
    }

    /// `Merkle proof: <n> hashes, root: <root>`.
    pub fn summary(&self) -> (r: String)
        ensures
            r@ == "Merkle proof: "@ + dec_nat(self.proof_hashes@.len()) + " hashes, root: "@ + self.root_hash@,
    {
        let mut s = String::from_str("Merkle proof: ");
        let n = u64_to_string(self.proof_hashes.len() as u64);
        s.append(n.as_str());
        s.append(" hashes, root: ");
        s.append(self.root_hash.as_str());
        s
    }
}

/// A proof generated for any entry verifies against its own leaf and root.
pub proof fn lemma_generated_proof_verifies(entries: Seq<AuditLogEntry>, idx: int, p: MerkleProof)
    requires
        0 <= idx < entries.len(),
        p.leaf_hash@ == entries[idx].this_log_hash@,
        p.root_hash@ == merkle_root_of(leaf_hashes(entries)),
        views(p.proof_hashes@) == proof_hashes_of(leaf_hashes(entries), idx),
        p.proof_order@ == proof_order_of(leaf_hashes(entries), idx),
    ensures
        fold_proof(p.leaf_hash@, views(p.proof_hashes@), p.proof_order@, 0) == p.root_hash@,
{
    lemma_generated_proof_reaches_root(leaf_hashes(entries), idx);
}

/// The Merkle root of one month of audit entries.
#[derive(Debug, Clone)]
pub struct MonthlyMerkleRoot {
    pub month: String,
    pub entry_count: usize,
    pub first_entry_hash: String,
    pub last_entry_hash: String,
    pub merkle_root: String,
}

/// Root, count and first and last hash of a month's entries.
pub fn calculate_monthly_merkle_root(entries: &[AuditLogEntry], month: &str) -> (r: Result<MonthlyMerkleRoot, MerkleError>)
    ensures
        r is Err <==> entries@.len() == 0,
        r is Err ==> r == Err::<MonthlyMerkleRoot, MerkleError>(MerkleError::EmptyEntries),
        r matches Ok(m) ==> {
            &&& m.month@ == month@
            &&& m.entry_count == entries@.len()
            &&& m.first_entry_hash@ == entries@[0].this_log_hash@
            &&& m.last_entry_hash@ == entries@.last().this_log_hash@
            &&& m.merkle_root@ == merkle_root_of(leaf_hashes(entries@))
        },
{
    let root = match get_merkle_root(entries) {
        Ok(h) => h,
        Err(e) => { return Err(e); },
    };
    let n = entries.len();
    Ok(MonthlyMerkleRoot {
        month: String::from_str(month),
        entry_count: n,
        first_entry_hash: entries[0].this_log_hash.clone(),
        last_entry_hash: entries[n - 1].this_log_hash.clone(),
        merkle_root: root,
    })
}

impl MonthlyMerkleRoot {
    /// `Month <m>: <n> entries, root: <root>`.
    pub fn summary(&self) -> (r: String)
        ensures
            r@ == "Month "@ + self.month@ + ": "@ + dec_nat(self.entry_count as nat) + " entries, root: "@ + self.merkle_root@,
    {
        let mut s = String::from_str("Month ");
        s.append(self.month.as_str());
        s.append(": ");
        let n = u64_to_string(self.entry_count as u64);
        s.append(n.as_str());
        s.append(" entries, root: ");
        s.append(self.merkle_root.as_str());
        s
    }
}

} // verus!
