//! The point derivation chain: an unbounded, deterministic sequence of curve
//! points seeded by a byte label. The first point is the hash-to-curve image
//! of a fixed initialization domain string followed by the label; each later
//! point is the hash-to-curve image of a fixed "next" domain string followed
//! by the compressed encoding of the point before it.
use vstd::prelude::*;
use curve25519_dalek::ristretto::RistrettoPoint;
use crate::points::compress_point;
use crate::points::hash_to_point;
use crate::points::point_encoding;
use crate::points::point_from_hash;

verus! {

/// The bytes of the initialization domain string, "GeneratorsChainInit".
pub open spec fn chain_init_domain() -> Seq<u8> {
    seq![71u8, 101u8, 110u8, 101u8, 114u8, 97u8, 116u8, 111u8, 114u8, 115u8,
         67u8, 104u8, 97u8, 105u8, 110u8, 73u8, 110u8, 105u8, 116u8]
}

/// The bytes of the advancing domain string, "GeneratorsChainNext".
pub open spec fn chain_next_domain() -> Seq<u8> {
    seq![71u8, 101u8, 110u8, 101u8, 114u8, 97u8, 116u8, 111u8, 114u8, 115u8,
         67u8, 104u8, 97u8, 105u8, 110u8, 78u8, 101u8, 120u8, 116u8]
}

fn chain_init_domain_bytes() -> (r: Vec<u8>)
    ensures
        r@ == chain_init_domain(),
{
    let mut r: Vec<u8> = Vec::new();
    r.push(71); r.push(101); r.push(110); r.push(101); r.push(114);
    r.push(97); r.push(116); r.push(111); r.push(114); r.push(115);
    r.push(67); r.push(104); r.push(97); r.push(105); r.push(110);
    r.push(73); r.push(110); r.push(105); r.push(116);
    assert(r@ =~= chain_init_domain());
    r
}

fn chain_next_domain_bytes() -> (r: Vec<u8>)
    ensures
        r@ == chain_next_domain(),
{
    let mut r: Vec<u8> = Vec::new();
    r.push(71); r.push(101); r.push(110); r.push(101); r.push(114);
    r.push(97); r.push(116); r.push(111); r.push(114); r.push(115);
    r.push(67); r.push(104); r.push(97); r.push(105); r.push(110);
    r.push(78); r.push(101); r.push(120); r.push(116);
    assert(r@ =~= chain_next_domain());
    r
}

/// Concatenation of two byte strings.
fn concat_bytes(a: &[u8], b: &[u8]) -> (r: Vec<u8>)
    ensures
        r@ == a@ + b@,
{
    let mut r: Vec<u8> = Vec::new();
    let mut i: usize = 0;
    while i < a.len()
        invariant
            i <= a@.len(),
            r@ == a@.subrange(0, i as int),
        decreases a@.len() - i,
    {
        r.push(*vstd::slice::slice_index_get(a, i));
        assert(r@ =~= a@.subrange(0, i as int + 1));
        i += 1;
    }
    assert(r@ =~= a@);
    let mut j: usize = 0;
    while j < b.len()
        invariant
            j <= b@.len(),
            r@ == a@ + b@.subrange(0, j as int),
        decreases b@.len() - j,
    {
        r.push(*vstd::slice::slice_index_get(b, j));
        assert(r@ =~= a@ + b@.subrange(0, j as int + 1));
        j += 1;
    }
    assert(r@ =~= a@ + b@);
    r
}

/// The point a chain seeded by `label` emits in position `i`: position 0 is
/// the hash-to-curve image of the initialization domain followed by the
/// label, and each later position hashes the "next" domain followed by the
/// compressed encoding of the point before it.
pub open spec fn chain_point(label: Seq<u8>, i: nat) -> RistrettoPoint
    decreases i,
{
    if i == 0 {
        point_from_hash(chain_init_domain() + label)
    } else {
        point_from_hash(chain_next_domain() + point_encoding(chain_point(label, (i - 1) as nat)))
    }
}

/// The first `k` points a chain seeded by `label` emits.
pub open spec fn chain_points(label: Seq<u8>, k: nat) -> Seq<RistrettoPoint> {
    Seq::new(k, |i: int| chain_point(label, i as nat))
}

/// An ephemeral generator of points: holds the next point to emit, and emits
/// the deterministic sequence `chain_point(label, 0)`, `chain_point(label, 1)`,
/// and so on, forever.
pub struct GeneratorsChain {
    next_point: RistrettoPoint,
    label: Ghost<Seq<u8>>,
    emitted: Ghost<nat>,
}

impl GeneratorsChain {
    /// The label byte sequence this chain was seeded with.
    pub closed spec fn label(self) -> Seq<u8> {
        self.label@
    }

    /// How many points this chain has emitted so far.
    pub closed spec fn emitted(self) -> nat {
        self.emitted@
    }

    /// The cursor holds exactly the next point of the sequence.
    pub closed spec fn wf(self) -> bool {
        self.next_point == chain_point(self.label@, self.emitted@)
    }

    /// Creates a chain of generators, determined by the hash of `label`.
    pub fn new(label: &[u8]) -> (c: GeneratorsChain)
        ensures
            c.wf(),
            c.label() == label@,
            c.emitted() == 0,
    {
        let domain = chain_init_domain_bytes();
        let seed = concat_bytes(domain.as_slice(), label);
        let next_point = hash_to_point(seed.as_slice());
        GeneratorsChain { next_point, label: Ghost(label@), emitted: Ghost(0nat) }
    }

    /// Emits the current point and advances the cursor by hashing the
    /// compressed encoding of the emitted point.
    pub fn next(&mut self) -> (p: RistrettoPoint)
        requires
            old(self).wf(),
        ensures
            final(self).wf(),
            final(self).label() == old(self).label(),
            final(self).emitted() == old(self).emitted() + 1,
            p == chain_point(old(self).label(), old(self).emitted()),
    {
        let current = self.next_point;
        let enc = compress_point(&current);
        let domain = chain_next_domain_bytes();
        let input = concat_bytes(domain.as_slice(), enc.as_slice());
        self.next_point = hash_to_point(input.as_slice());
        self.emitted = Ghost(self.emitted@ + 1);
        current
    }

    /// Emits the next `k` points, in order.
    pub fn take(&mut self, k: usize) -> (v: Vec<RistrettoPoint>)
        requires
            old(self).wf(),
        ensures
            final(self).wf(),
            final(self).label() == old(self).label(),
            final(self).emitted() == old(self).emitted() + k,
            v@ == Seq::new(k as nat, |t: int| chain_point(old(self).label(), (old(self).emitted() + t) as nat)),
    {
        let ghost label0 = self.label();
        let ghost emitted0 = self.emitted();
        let mut v: Vec<RistrettoPoint> = Vec::new();
        let mut i: usize = 0;
        while i < k
            invariant
                i <= k,
                self.wf(),
                self.label() == label0,
                self.emitted() == emitted0 + i,
                v@.len() == i,
                forall|t: int| 0 <= t < i ==> v@[t] == chain_point(label0, (emitted0 + t) as nat),
            decreases k - i,
        {
            let p = self.next();
            v.push(p);
            i += 1;
        }
        assert(v@ =~= Seq::new(k as nat, |t: int| chain_point(label0, (emitted0 + t) as nat)));
        v
    }
}

impl Default for GeneratorsChain {
    /// A chain seeded by the empty label.
    fn default() -> (c: Self)
        ensures
            c.wf(),
            c.label() == Seq::<u8>::empty(),
            c.emitted() == 0,
    {
        let empty: Vec<u8> = Vec::new();
        let c = GeneratorsChain::new(empty.as_slice());
        assert(empty@ =~= Seq::<u8>::empty());
        c
    }
}

/// Determinism law: two chains seeded by identical label byte sequences emit
/// identical points, position by position, for any number of points drawn.
pub proof fn lemma_chain_determinism(label1: Seq<u8>, label2: Seq<u8>, k: nat)
    requires
        label1 == label2,
    ensures
        chain_points(label1, k) == chain_points(label2, k),
{
}

} // verus!
