use php_ext_pqcrypto::kem::{
    KemAlgorithm, KemDecapsulationKey, KemEncapsulationKey, KemOps, MlKem1024Ops, MlKem512Ops,
    MlKem768Ops, XWingOps,
};

fn run_kem_test<T: KemOps>(seed_len: usize, ek_len: usize) {
    let (seed, ek) = T::generate();
    assert_eq!(seed.len(), seed_len);
    assert_eq!(ek.len(), ek_len);

    let (ss, ct) = T::encapsulate(&ek).unwrap();
    let rss = T::decapsulate(&seed, &ct).unwrap();
    assert_eq!(ss, rss);

    assert!(T::decapsulate(b"short", &ct).is_err());
    assert!(T::decapsulate(&seed, b"bad").is_err());
}

#[test]
fn mlkem512() {
    run_kem_test::<MlKem512Ops>(64, 800);
}

#[test]
fn mlkem768() {
    run_kem_test::<MlKem768Ops>(64, 1184);
}

#[test]
fn mlkem1024() {
    run_kem_test::<MlKem1024Ops>(64, 1568);
}

#[test]
fn xwing() {
    run_kem_test::<XWingOps>(32, 1216);
}

const ALL: [KemAlgorithm; 4] = [
    KemAlgorithm::MlKem512,
    KemAlgorithm::MlKem768,
    KemAlgorithm::MlKem1024,
    KemAlgorithm::XWing,
];

#[test]
fn kem_sizes_match_the_readme_table() {
    let expected = [(64, 800, 768), (64, 1184, 1088), (64, 1568, 1568), (32, 1216, 1120)];
    for (alg, (seed, ek, ct)) in ALL.iter().zip(expected.iter()) {
        assert_eq!(alg.seed_len(), *seed);
        assert_eq!(alg.ek_len(), *ek);
        assert_eq!(alg.ct_len(), *ct);
        let (s, k) = alg.generate();
        assert_eq!(s.len(), *seed);
        assert_eq!(k.len(), *ek);
        let (ss, c) = alg.encapsulate(&k).unwrap();
        assert_eq!(ss.len(), 32);
        assert_eq!(c.len(), *ct);
    }
}

#[test]
fn kem_ops_report_lengths() {
    assert_eq!(MlKem512Ops::seed_len(), 64);
    assert_eq!(MlKem512Ops::ek_len(), 800);
    assert_eq!(MlKem768Ops::ek_len(), 1184);
    assert_eq!(MlKem1024Ops::ek_len(), 1568);
    assert_eq!(XWingOps::seed_len(), 32);
    assert_eq!(XWingOps::ek_len(), 1216);
}

#[test]
fn decapsulation_errors_name_the_bad_input() {
    for alg in ALL {
        let (seed, ek) = alg.generate();
        let (_, ct) = alg.encapsulate(&ek).unwrap();
        assert_eq!(alg.decapsulate(b"short", &ct).unwrap_err(), "Invalid seed length");
        assert_eq!(alg.decapsulate(&seed, b"bad").unwrap_err(), "Invalid ciphertext length");
        // The seed is checked before the ciphertext.
        assert_eq!(alg.decapsulate(b"short", b"bad").unwrap_err(), "Invalid seed length");
    }
}

#[test]
fn decapsulation_is_a_function_of_seed_and_ciphertext() {
    for alg in ALL {
        let (seed, ek) = alg.generate();
        let (ss, ct) = alg.encapsulate(&ek).unwrap();
        let a = alg.decapsulate(&seed, &ct).unwrap();
        let b = alg.decapsulate(&seed, &ct).unwrap();
        assert_eq!(a, b);
        assert_eq!(a, ss);
        assert_eq!(a.len(), 32);
        // A different (but well-formed) ciphertext gives a different secret.
        let mut other = ct.clone();
        other[0] ^= 1;
        let c = alg.decapsulate(&seed, &other).unwrap();
        assert_ne!(c, a);
    }
}

#[test]
fn encapsulation_is_fresh_each_time() {
    for alg in ALL {
        let (_, ek) = alg.generate();
        let (ss1, ct1) = alg.encapsulate(&ek).unwrap();
        let (ss2, ct2) = alg.encapsulate(&ek).unwrap();
        assert_ne!(ct1, ct2);
        assert_ne!(ss1, ss2);
    }
}

#[test]
fn mlkem_refuses_a_key_of_the_wrong_length() {
    for alg in [KemAlgorithm::MlKem512, KemAlgorithm::MlKem768, KemAlgorithm::MlKem1024] {
        let e = alg.encapsulate(&[0u8; 10]).unwrap_err();
        assert_eq!(e, "Invalid encapsulation key length");
    }
}

#[test]
fn xwing_reports_a_wrong_length_as_an_invalid_key() {
    let e = KemAlgorithm::XWing.encapsulate(&[0u8; 10]).unwrap_err();
    assert_eq!(e, "Invalid encapsulation key: InvalidKey");
}

#[test]
fn unreduced_coefficients_are_refused() {
    for alg in ALL {
        let bad = vec![0xffu8; alg.ek_len()];
        let e = alg.encapsulate(&bad).unwrap_err();
        assert_eq!(e, "Invalid encapsulation key: InvalidKey");
    }
}

#[test]
fn reduced_coefficients_are_accepted() {
    // Every 12-bit value is 0x0d00 = 3328 = q - 1, the largest reduced value:
    // the byte pattern 00 0d d0 encodes the pair (3328, 3328).
    for alg in ALL {
        let mut ek = vec![0u8; alg.ek_len()];
        let k = match alg {
            KemAlgorithm::MlKem512 => 2,
            KemAlgorithm::MlKem1024 => 4,
            _ => 3,
        };
        for j in 0..128 * k {
            ek[3 * j] = 0x00;
            ek[3 * j + 1] = 0x0d;
            ek[3 * j + 2] = 0xd0;
        }
        assert!(alg.encapsulate(&ek).is_ok());
        // One more and the first value is q itself.
        ek[0] = 0x01;
        assert!(alg.encapsulate(&ek).is_err());
    }
}

#[test]
fn decapsulation_key_objects_round_trip() {
    for alg in ALL {
        let (dk, ek) = alg.generateKeypair();
        assert_eq!(dk.kind(), alg);
        assert_eq!(ek.kind(), alg);
        let dk2 = KemDecapsulationKey::fromBytes(alg, &dk.bytes()).unwrap();
        let ek2 = KemEncapsulationKey::fromBytes(alg, &ek.bytes()).unwrap();
        assert_eq!(dk2.bytes(), dk.bytes());
        assert_eq!(ek2.bytes(), ek.bytes());
        let (ss, ct) = ek2.encapsulate().unwrap();
        assert_eq!(dk2.decapsulate(&ct).unwrap(), ss);
        assert_eq!(dk.decapsulate(b"bad").unwrap_err(), "Invalid ciphertext length");
    }
}

#[test]
fn key_import_reports_lengths() {
    let e = KemDecapsulationKey::fromBytes(KemAlgorithm::MlKem768, &[1, 2, 3]).err().unwrap();
    assert_eq!(e, "Invalid seed length: expected 64, got 3");
    let e = KemDecapsulationKey::fromBytes(KemAlgorithm::XWing, &[0u8; 64]).err().unwrap();
    assert_eq!(e, "Invalid seed length: expected 32, got 64");
    let e = KemEncapsulationKey::fromBytes(KemAlgorithm::MlKem1024, &[]).err().unwrap();
    assert_eq!(e, "Invalid key length: expected 1568, got 0");
    let e = KemEncapsulationKey::fromBytes(KemAlgorithm::XWing, &[0u8; 1217]).err().unwrap();
    assert_eq!(e, "Invalid key length: expected 1216, got 1217");
}

#[test]
fn any_seed_of_the_right_length_is_a_key() {
    let seed = [7u8; 64];
    let dk = KemDecapsulationKey::fromBytes(KemAlgorithm::MlKem512, &seed).unwrap();
    assert_eq!(dk.bytes(), seed.to_vec());
    let ss = dk.decapsulate(&[0u8; 768]).unwrap();
    assert_eq!(ss.len(), 32);
    assert_eq!(KemAlgorithm::MlKem512.decapsulate(&seed, &[0u8; 768]).unwrap(), ss);
}

#[test]
fn encapsulation_with_given_randomness_is_deterministic() {
    for alg in ALL {
        let (seed, ek) = alg.generate();
        let m = vec![0x5au8; alg.rand_len()];
        let (ss1, ct1) = alg.encapsulate_with_randomness(&ek, &m).unwrap();
        let (ss2, ct2) = alg.encapsulate_with_randomness(&ek, &m).unwrap();
        assert_eq!(ss1, ss2);
        assert_eq!(ct1, ct2);
        assert_eq!(ss1.len(), 32);
        assert_eq!(ct1.len(), alg.ct_len());
        assert_eq!(alg.decapsulate(&seed, &ct1).unwrap(), ss1);
        let other = vec![0xa5u8; alg.rand_len()];
        let (ss3, ct3) = alg.encapsulate_with_randomness(&ek, &other).unwrap();
        assert_ne!(ct1, ct3);
        assert_ne!(ss1, ss3);
        assert_eq!(alg.decapsulate(&seed, &ct3).unwrap(), ss3);
    }
}

#[test]
fn encapsulation_with_given_randomness_refuses_bad_keys() {
    let m32 = [0u8; 32];
    let m64 = [0u8; 64];
    assert_eq!(
        KemAlgorithm::MlKem768.encapsulate_with_randomness(&[0u8; 3], &m32).unwrap_err(),
        "Invalid encapsulation key length"
    );
    assert_eq!(
        KemAlgorithm::MlKem512.encapsulate_with_randomness(&[0xffu8; 800], &m32).unwrap_err(),
        "Invalid encapsulation key: InvalidKey"
    );
    assert_eq!(
        KemAlgorithm::XWing.encapsulate_with_randomness(&[0u8; 3], &m64).unwrap_err(),
        "Invalid encapsulation key: InvalidKey"
    );
}

#[test]
fn randomness_sizes() {
    assert_eq!(KemAlgorithm::MlKem512.rand_len(), 32);
    assert_eq!(KemAlgorithm::MlKem1024.rand_len(), 32);
    assert_eq!(KemAlgorithm::XWing.rand_len(), 64);
}
