//! Commitment bases and the generator bank: the pair of Pedersen base points,
//! the bank of per-bit generators derived from two chains seeded by the
//! compressed encodings of those bases, and the read-only views handed to
//! range-proof code, whole or partitioned per party.
use vstd::prelude::*;
use curve25519_dalek::ristretto::RistrettoPoint;
use curve25519_dalek::scalar::Scalar;
use crate::chain::GeneratorsChain;
use crate::chain::chain_point;
use crate::chain::chain_points;
use crate::points::compress_point;
use crate::points::pedersen_msm;
use crate::points::pedersen_msm_point;
use crate::points::point_encoding;

verus! {

/// The bytes of the default label for the value base, "Bulletproofs.Generators.B".
pub open spec fn b_label() -> Seq<u8> {
    seq![66u8, 117u8, 108u8, 108u8, 101u8, 116u8, 112u8, 114u8, 111u8, 111u8,
         102u8, 115u8, 46u8, 71u8, 101u8, 110u8, 101u8, 114u8, 97u8, 116u8,
         111u8, 114u8, 115u8, 46u8, 66u8]
}

/// The bytes of the default label for the blinding base,
/// "Bulletproofs.Generators.B_blinding".
pub open spec fn b_blinding_label() -> Seq<u8> {
    seq![66u8, 117u8, 108u8, 108u8, 101u8, 116u8, 112u8, 114u8, 111u8, 111u8,
         102u8, 115u8, 46u8, 71u8, 101u8, 110u8, 101u8, 114u8, 97u8, 116u8,
         111u8, 114u8, 115u8, 46u8, 66u8, 95u8, 98u8, 108u8, 105u8, 110u8,
         100u8, 105u8, 110u8, 103u8]
}

fn b_label_bytes() -> (r: Vec<u8>)
    ensures
        r@ == b_label(),
{
    let mut r: Vec<u8> = Vec::new();
    r.push(66); r.push(117); r.push(108); r.push(108); r.push(101);
    r.push(116); r.push(112); r.push(114); r.push(111); r.push(111);
    r.push(102); r.push(115); r.push(46); r.push(71); r.push(101);
    r.push(110); r.push(101); r.push(114); r.push(97); r.push(116);
    r.push(111); r.push(114); r.push(115); r.push(46); r.push(66);
    assert(r@ =~= b_label());
    r
}

fn b_blinding_label_bytes() -> (r: Vec<u8>)
    ensures
        r@ == b_blinding_label(),
{
    let mut r: Vec<u8> = Vec::new();
    r.push(66); r.push(117); r.push(108); r.push(108); r.push(101);
    r.push(116); r.push(112); r.push(114); r.push(111); r.push(111);
    r.push(102); r.push(115); r.push(46); r.push(71); r.push(101);
    r.push(110); r.push(101); r.push(114); r.push(97); r.push(116);
    r.push(111); r.push(114); r.push(115); r.push(46); r.push(66);
    r.push(95); r.push(98); r.push(108); r.push(105); r.push(110);
    r.push(100); r.push(105); r.push(110); r.push(103);
    assert(r@ =~= b_blinding_label());
    r
}

/// A pair of base points for Pedersen commitments. Binding and hiding of the
/// commitments rest on the two bases having no known discrete-log relation;
/// this type records the pair and never checks that independence itself.
#[derive(Clone)]
pub struct PedersenGenerators {
    /// Base for the committed value.
    pub B: RistrettoPoint,
    /// Base for the blinding factor.
    pub B_blinding: RistrettoPoint,
}

impl PedersenGenerators {
    /// Constructs a pair of Pedersen generators from a pair of points supplied
    /// by the caller, verbatim; the caller owns the independence guarantee.
    pub fn new(B: RistrettoPoint, B_blinding: RistrettoPoint) -> (r: PedersenGenerators)
        ensures
            r.B == B,
            r.B_blinding == B_blinding,
    {
        PedersenGenerators { B, B_blinding }
    }

    /// Creates a Pedersen commitment, `value * B + blinding * B_blinding`,
    /// using the value scalar and a blinding factor.
    pub fn commit(&self, value: Scalar, blinding: Scalar) -> (r: RistrettoPoint)
        ensures
            r == pedersen_msm(value, blinding, self.B, self.B_blinding),
    {
        pedersen_msm_point(&value, &blinding, &self.B, &self.B_blinding)
    }
}

impl Default for PedersenGenerators {
    /// The default bases: the first outputs of two chains seeded with distinct
    /// domain-separation labels, which makes a discoverable relation between
    /// them computationally implausible.
    fn default() -> (r: Self)
        ensures
            r.B == chain_point(b_label(), 0),
            r.B_blinding == chain_point(b_blinding_label(), 0),
    {
        let lb = b_label_bytes();
        let mut chain_b = GeneratorsChain::new(lb.as_slice());
        let B = chain_b.next();
        let lbb = b_blinding_label_bytes();
        let mut chain_bb = GeneratorsChain::new(lbb.as_slice());
        let B_blinding = chain_bb.next();
        PedersenGenerators { B, B_blinding }
    }
}

/// The one failure this subsystem can report: a share was requested for a
/// party index at or past the number of parties the bank was built for.
#[derive(Clone, Copy, Debug, PartialEq, Eq)]
pub enum GeneratorsError {
    /// The party index handed to `share` is out of range.
    InvalidShareIndex,
}

/// All the generators needed for aggregating `m` range proofs of `n` bits
/// each: the Pedersen bases and two point vectors of length `n * m`, drawn
/// from chains seeded by the compressed encodings of the two bases.
#[derive(Clone)]
pub struct Generators {
    /// Number of bits in a rangeproof.
    pub n: usize,
    /// Number of values or parties.
    pub m: usize,
    /// Bases for Pedersen commitments.
    pub pedersen_generators: PedersenGenerators,
    /// Per-bit generators for the bit values.
    pub G: Vec<RistrettoPoint>,
    /// Per-bit generators for the bit blinding factors.
    pub H: Vec<RistrettoPoint>,
}

/// A read-only view into `Generators` relevant to a specific range proof:
/// the bases and one contiguous window of each per-bit vector.
pub struct GeneratorsView<'a> {
    /// Bases for Pedersen commitments.
    pub pedersen_generators: &'a PedersenGenerators,
    /// Per-bit generators for the bit values.
    pub G: &'a [RistrettoPoint],
    /// Per-bit generators for the bit blinding factors.
    pub H: &'a [RistrettoPoint],
}

/// The half-open window of `s` owned by party `j` when each party holds `n`
/// elements: indices `[n * j, n * (j + 1))`.
pub open spec fn share_window(s: Seq<RistrettoPoint>, n: int, j: int) -> Seq<RistrettoPoint> {
    s.subrange(n * j, n * (j + 1))
}

/// The concatenation, in order, of the windows of parties `0` to `k - 1`.
pub open spec fn concat_windows(s: Seq<RistrettoPoint>, n: int, k: int) -> Seq<RistrettoPoint>
    decreases k,
{
    if k <= 0 {
        Seq::empty()
    } else {
        concat_windows(s, n, k - 1) + share_window(s, n, k - 1)
    }
}

impl Generators {
    /// The bank holds exactly `n * m` points in each vector, each vector the
    /// prefix of the chain seeded by the compressed encoding of its base.
    pub open spec fn wf(self) -> bool {
        &&& self.n * self.m <= usize::MAX
        &&& self.G@ == chain_points(point_encoding(self.pedersen_generators.B), (self.n * self.m) as nat)
        &&& self.H@ == chain_points(point_encoding(self.pedersen_generators.B_blinding), (self.n * self.m) as nat)
    }

    /// Creates generators for `m` range proofs of `n` bits each, drawing
    /// `n * m` points from a chain seeded by the compressed encoding of `B`
    /// into `G`, and `n * m` points from a chain seeded by the compressed
    /// encoding of `B_blinding` into `H`. `n * m == 0` is a valid degenerate
    /// configuration and yields empty vectors.
    pub fn new(pedersen_generators: PedersenGenerators, n: usize, m: usize) -> (r: Generators)
        requires
            n * m <= usize::MAX,
        ensures
            r.wf(),
            r.n == n,
            r.m == m,
            r.pedersen_generators == pedersen_generators,
            r.G@ == chain_points(point_encoding(pedersen_generators.B), (n * m) as nat),
            r.H@ == chain_points(point_encoding(pedersen_generators.B_blinding), (n * m) as nat),
            r.G@.len() == n * m,
            r.H@.len() == n * m,
    {
        let g_enc = compress_point(&pedersen_generators.B);
        let mut g_chain = GeneratorsChain::new(g_enc.as_slice());
        let G = g_chain.take(n * m);
        let h_enc = compress_point(&pedersen_generators.B_blinding);
        let mut h_chain = GeneratorsChain::new(h_enc.as_slice());
        let H = h_chain.take(n * m);
        proof {
            assert(G@ =~= chain_points(point_encoding(pedersen_generators.B), (n * m) as nat));
            assert(H@ =~= chain_points(point_encoding(pedersen_generators.B_blinding), (n * m) as nat));
        }
        Generators { n, m, pedersen_generators, G, H }
    }

    /// Returns a view into the entirety of the generators.
    pub fn all<'a>(&'a self) -> (v: GeneratorsView<'a>)
        ensures
            *v.pedersen_generators == self.pedersen_generators,
            v.G@ == self.G@,
            v.H@ == self.H@,
    {
        GeneratorsView {
            pedersen_generators: &self.pedersen_generators,
            G: self.G.as_slice(),
            H: self.H.as_slice(),
        }
    }

    /// Returns the `j`-th share of the generators: the window
    /// `[n * j, n * (j + 1))` of the vectors `G` and `H` for the `j`-th range
    /// proof, or an invalid-index error when `j` is at or past `m`.
    pub fn share<'a>(&'a self, j: usize) -> (r: Result<GeneratorsView<'a>, GeneratorsError>)
        requires
            self.wf(),
        ensures
            j < self.m ==> (r matches Ok(v)
                && *v.pedersen_generators == self.pedersen_generators
                && v.G@ == share_window(self.G@, self.n as int, j as int)
                && v.H@ == share_window(self.H@, self.n as int, j as int)),
            j >= self.m ==> (r matches Err(e) && e == GeneratorsError::InvalidShareIndex),
    {
        if j >= self.m {
            Err(GeneratorsError::InvalidShareIndex)
        } else {
            proof {
                let ni = self.n as int;
                let ji = j as int;
                let mi = self.m as int;
                assert(0 <= ni * ji && ni * ji <= ni * (ji + 1) && ni * (ji + 1) <= ni * mi)
                    by (nonlinear_arith)
                    requires
                        0 <= ni,
                        0 <= ji,
                        ji < mi,
                ;
            }
            let lower = self.n * j;
            let upper = self.n * (j + 1);
            Ok(GeneratorsView {
                pedersen_generators: &self.pedersen_generators,
                G: vstd::slice::slice_subrange(self.G.as_slice(), lower, upper),
                H: vstd::slice::slice_subrange(self.H.as_slice(), lower, upper),
            })
        }
    }
}

proof fn lemma_concat_windows_prefix(s: Seq<RistrettoPoint>, n: int, k: int)
    requires
        0 <= n,
        0 <= k,
        n * k <= s.len(),
    ensures
        concat_windows(s, n, k) == s.subrange(0, n * k),
    decreases k,
{
    if k == 0 {
        assert(concat_windows(s, n, 0) =~= s.subrange(0, n * 0));
    } else {
        assert(0 <= n * (k - 1) && n * (k - 1) + n == n * k) by (nonlinear_arith)
            requires
                0 <= n,
                1 <= k,
        ;
        lemma_concat_windows_prefix(s, n, k - 1);
        assert(share_window(s, n, k - 1) == s.subrange(n * (k - 1), n * k));
        assert(concat_windows(s, n, k) =~= s.subrange(0, n * k));
    }
}

/// Partition law: the per-party windows tile the whole bank. Concatenating
/// the shares of parties `0` to `m - 1`, each the window that `share` returns,
/// reproduces the full vectors that `all` returns, for `G` and for `H` alike.
pub proof fn lemma_share_partition(g: Generators)
    requires
        g.wf(),
    ensures
        concat_windows(g.G@, g.n as int, g.m as int) == g.G@,
        concat_windows(g.H@, g.n as int, g.m as int) == g.H@,
{
    assert(0 <= g.n as int * g.m as int) by (nonlinear_arith)
        requires
            0 <= g.n as int,
            0 <= g.m as int,
    ;
    lemma_concat_windows_prefix(g.G@, g.n as int, g.m as int);
    lemma_concat_windows_prefix(g.H@, g.n as int, g.m as int);
    assert(g.G@.subrange(0, g.n as int * g.m as int) =~= g.G@);
    assert(g.H@.subrange(0, g.n as int * g.m as int) =~= g.H@);
}

} // verus!
