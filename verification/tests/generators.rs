use curve25519_dalek::ristretto::RistrettoPoint;
use curve25519_dalek::scalar::Scalar;
use curve25519_dalek::traits::Identity;
use sha2::Sha512;
use ristretto_bulletproofs::Generators;
use ristretto_bulletproofs::GeneratorsChain;
use ristretto_bulletproofs::GeneratorsError;
use ristretto_bulletproofs::PedersenGenerators;

#[test]
fn rangeproof_generators() {
    let n: usize = 2;
    let m: usize = 3;
    let gens = Generators::new(PedersenGenerators::default(), n, m);

    // The concatenation of shares must be the full generator set
    assert_eq!(
        [gens.all().G[..n].to_vec(), gens.all().H[..n].to_vec()],
        [
            gens.share(0).unwrap().G[..].to_vec(),
            gens.share(0).unwrap().H[..].to_vec(),
        ]
    );
    assert_eq!(
        [
            gens.all().G[n..][..n].to_vec(),
            gens.all().H[n..][..n].to_vec(),
        ],
        [
            gens.share(1).unwrap().G[..].to_vec(),
            gens.share(1).unwrap().H[..].to_vec(),
        ]
    );
    assert_eq!(
        [
            gens.all().G[2 * n..][..n].to_vec(),
            gens.all().H[2 * n..][..n].to_vec(),
        ],
        [
            gens.share(2).unwrap().G[..].to_vec(),
            gens.share(2).unwrap().H[..].to_vec(),
        ]
    );
}

#[test]
fn chain_determinism() {
    let label: [u8; 3] = [7, 3, 9];
    let mut c1 = GeneratorsChain::new(&label);
    let mut c2 = GeneratorsChain::new(&label);
    for _ in 0..8 {
        assert_eq!(c1.next(), c2.next());
    }
}

#[test]
fn chain_restart_replays_sequence() {
    let mut c1 = GeneratorsChain::new(b"seed");
    let first: Vec<RistrettoPoint> = c1.take(5);
    let mut c2 = GeneratorsChain::new(b"seed");
    let again: Vec<RistrettoPoint> = c2.take(5);
    assert_eq!(first, again);
    assert_eq!(first.len(), 5);
}

#[test]
fn take_matches_repeated_next() {
    let mut c1 = GeneratorsChain::new(b"seed");
    let drawn: Vec<RistrettoPoint> = c1.take(4);
    let mut c2 = GeneratorsChain::new(b"seed");
    for i in 0..4 {
        assert_eq!(drawn[i], c2.next());
    }
}

#[test]
fn default_chain_is_empty_label_chain() {
    let mut d = GeneratorsChain::default();
    let mut e = GeneratorsChain::new(b"");
    assert_eq!(d.next(), e.next());
}

#[test]
fn chain_matches_hash_to_curve() {
    // First point: hash-to-curve of the initialization domain plus the label.
    let mut input = b"GeneratorsChainInit".to_vec();
    input.extend_from_slice(b"abc");
    let expected0 = RistrettoPoint::hash_from_bytes::<Sha512>(&input);
    let mut c = GeneratorsChain::new(b"abc");
    let p0 = c.next();
    assert_eq!(p0, expected0);
    // Second point: hash-to-curve of the "next" domain plus the compressed
    // encoding of the first point.
    let mut input1 = b"GeneratorsChainNext".to_vec();
    input1.extend_from_slice(expected0.compress().as_bytes());
    let expected1 = RistrettoPoint::hash_from_bytes::<Sha512>(&input1);
    assert_eq!(c.next(), expected1);
}

#[test]
fn default_bases_match_their_labels() {
    let pg = PedersenGenerators::default();
    let mut cb = GeneratorsChain::new(b"Bulletproofs.Generators.B");
    assert_eq!(pg.B, cb.next());
    let mut cbb = GeneratorsChain::new(b"Bulletproofs.Generators.B_blinding");
    assert_eq!(pg.B_blinding, cbb.next());
}

#[test]
fn domain_separation() {
    let mut c1 = GeneratorsChain::new(b"A");
    let mut c2 = GeneratorsChain::new(b"B");
    assert_ne!(c1.next(), c2.next());
    let pg = PedersenGenerators::default();
    assert_ne!(pg.B, pg.B_blinding);
}

#[test]
fn shares_concatenate_to_all() {
    let n: usize = 2;
    let m: usize = 3;
    let gens = Generators::new(PedersenGenerators::default(), n, m);
    let mut g_cat: Vec<RistrettoPoint> = Vec::new();
    let mut h_cat: Vec<RistrettoPoint> = Vec::new();
    for j in 0..m {
        let share = gens.share(j).unwrap();
        assert_eq!(share.G, &gens.all().G[n * j..n * (j + 1)]);
        assert_eq!(share.H, &gens.all().H[n * j..n * (j + 1)]);
        g_cat.extend_from_slice(share.G);
        h_cat.extend_from_slice(share.H);
    }
    assert_eq!(g_cat.as_slice(), gens.all().G);
    assert_eq!(h_cat.as_slice(), gens.all().H);
}

#[test]
fn g_h_never_elementwise_equal() {
    let cases: [(usize, usize); 4] = [(1, 1), (2, 3), (4, 2), (64, 1)];
    for (n, m) in cases {
        let gens = Generators::new(PedersenGenerators::default(), n, m);
        let view = gens.all();
        assert_eq!(view.G.len(), n * m);
        assert_eq!(view.H.len(), n * m);
        for i in 0..n * m {
            assert_ne!(view.G[i], view.H[i]);
        }
    }
}

#[test]
fn bank_bound_to_bases() {
    // Two different bases never share per-bit generators: the chains are
    // seeded by the compressed encodings of the bases in use.
    let b = RistrettoPoint::hash_from_bytes::<Sha512>(b"some base");
    let bb = RistrettoPoint::hash_from_bytes::<Sha512>(b"some blinding base");
    let pg = PedersenGenerators::new(b, bb);
    assert_eq!(pg.B, b);
    assert_eq!(pg.B_blinding, bb);
    let gens = Generators::new(pg, 2, 1);
    let mut gc = GeneratorsChain::new(b.compress().as_bytes());
    assert_eq!(gens.all().G[0], gc.next());
    assert_eq!(gens.all().G[1], gc.next());
    let mut hc = GeneratorsChain::new(bb.compress().as_bytes());
    assert_eq!(gens.all().H[0], hc.next());
    let default_gens = Generators::new(PedersenGenerators::default(), 2, 1);
    assert_ne!(gens.all().G[0], default_gens.all().G[0]);
}

#[test]
fn commitment_homomorphism() {
    let pg = PedersenGenerators::default();
    let v1 = Scalar::from(5u64);
    let v2 = Scalar::from(11u64);
    let r1 = Scalar::from(97u64);
    let r2 = Scalar::from(42u64);
    let lhs = pg.commit(v1, r1) + pg.commit(v2, r2);
    let rhs = pg.commit(v1 + v2, r1 + r2);
    assert_eq!(lhs, rhs);
}

#[test]
fn commitment_sensitivity() {
    let pg = PedersenGenerators::default();
    let v1 = Scalar::from(5u64);
    let v2 = Scalar::from(6u64);
    let r1 = Scalar::from(7u64);
    let r2 = Scalar::from(8u64);
    assert_ne!(pg.commit(v1, r1), pg.commit(v1, r2));
    assert_ne!(pg.commit(v1, r1), pg.commit(v2, r1));
}

#[test]
fn commit_known_values() {
    let pg = PedersenGenerators::default();
    assert_eq!(pg.commit(Scalar::ONE, Scalar::ZERO), pg.B);
    assert_eq!(pg.commit(Scalar::ZERO, Scalar::ONE), pg.B_blinding);
    assert_eq!(
        pg.commit(Scalar::ZERO, Scalar::ZERO),
        RistrettoPoint::identity()
    );
    assert_eq!(
        pg.commit(Scalar::from(2u64), Scalar::from(3u64)),
        pg.B + pg.B + pg.B_blinding + pg.B_blinding + pg.B_blinding
    );
}

#[test]
fn degenerate_bounds() {
    let zero_bits = Generators::new(PedersenGenerators::default(), 0, 5);
    assert_eq!(zero_bits.all().G.len(), 0);
    assert_eq!(zero_bits.all().H.len(), 0);
    let zero_parties = Generators::new(PedersenGenerators::default(), 5, 0);
    assert_eq!(zero_parties.all().G.len(), 0);
    assert_eq!(zero_parties.all().H.len(), 0);
}

#[test]
fn out_of_range_share_rejected() {
    let gens = Generators::new(PedersenGenerators::default(), 2, 3);
    assert_eq!(gens.share(3).err(), Some(GeneratorsError::InvalidShareIndex));
    assert_eq!(gens.share(7).err(), Some(GeneratorsError::InvalidShareIndex));
    assert_eq!(
        gens.share(usize::MAX).err(),
        Some(GeneratorsError::InvalidShareIndex)
    );
    assert!(gens.share(2).is_ok());
    let empty = Generators::new(PedersenGenerators::default(), 2, 0);
    assert_eq!(empty.share(0).err(), Some(GeneratorsError::InvalidShareIndex));
}

#[test]
fn bank_determinism() {
    let g1 = Generators::new(PedersenGenerators::default(), 3, 2);
    let g2 = Generators::new(PedersenGenerators::default(), 3, 2);
    assert_eq!(g1.all().G, g2.all().G);
    assert_eq!(g1.all().H, g2.all().H);
    assert_eq!(g1.all().pedersen_generators.B, g2.all().pedersen_generators.B);
    let g3 = g1.clone();
    assert_eq!(g3.all().G, g1.all().G);
    assert_eq!(g3.all().H, g1.all().H);
    let pg = PedersenGenerators::default();
    let pg2 = pg.clone();
    assert_eq!(pg.B, pg2.B);
    assert_eq!(pg.B_blinding, pg2.B_blinding);
}
