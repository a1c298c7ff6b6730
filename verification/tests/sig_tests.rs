use php_ext_pqcrypto::sig::{
    MlDsa44Ops, MlDsa65Ops, MlDsa87Ops, MlDsaLevel, MlDsaSigningKey, MlDsaVerifyingKey, SigOps,
};

fn run_sig_test<T: SigOps>(seed_len: usize, vk_len: usize) {
    let (seed, vk) = T::generate();
    assert_eq!(seed.len(), seed_len);
    assert_eq!(vk.len(), vk_len);

    let sig = T::sign(&seed, b"test msg").unwrap();
    assert!(T::verify(&vk, &sig, b"test msg").unwrap());
    assert!(!T::verify(&vk, &sig, b"wrong").unwrap());
    assert!(T::sign(b"short", b"msg").is_err());

    let (seed2, vk2) = T::keypair_from_seed(&seed).unwrap();
    assert_eq!(seed, seed2);
    assert_eq!(vk, vk2);

    let sig2 = T::sign(&seed2, b"seed kp test").unwrap();
    assert!(T::verify(&vk2, &sig2, b"seed kp test").unwrap());
    assert!(T::keypair_from_seed(b"short").is_err());
}

#[test]
fn mldsa44() {
    run_sig_test::<MlDsa44Ops>(32, 1312);
}

#[test]
fn mldsa65() {
    run_sig_test::<MlDsa65Ops>(32, 1952);
}

#[test]
fn mldsa87() {
    run_sig_test::<MlDsa87Ops>(32, 2592);
}

const LEVELS: [MlDsaLevel; 3] = [MlDsaLevel::MlDsa44, MlDsaLevel::MlDsa65, MlDsaLevel::MlDsa87];

#[test]
fn mldsa_sizes_match_the_readme_table() {
    let expected = [(1312, 2420), (1952, 3309), (2592, 4627)];
    for (level, (vk, sig)) in LEVELS.iter().zip(expected.iter()) {
        assert_eq!(level.seed_len(), 32);
        assert_eq!(level.vk_len(), *vk);
        assert_eq!(level.sig_len(), *sig);
        let (s, k) = level.generate();
        assert_eq!(s.len(), 32);
        assert_eq!(k.len(), *vk);
        assert_eq!(level.sign(&s, b"m").unwrap().len(), *sig);
    }
    assert_eq!(MlDsa44Ops::seed_len(), 32);
    assert_eq!(MlDsa65Ops::vk_len(), 1952);
}

#[test]
fn mldsa_signing_is_deterministic() {
    for level in LEVELS {
        let (seed, _) = level.generate();
        let a = level.sign(&seed, b"same message").unwrap();
        let b = level.sign(&seed, b"same message").unwrap();
        assert_eq!(a, b);
        let c = level.sign(&seed, b"other message").unwrap();
        assert_ne!(a, c);
    }
}

#[test]
fn mldsa_verifying_key_is_a_function_of_the_seed() {
    for level in LEVELS {
        let seed = [42u8; 32];
        let (s1, vk1) = level.keypair_from_seed(&seed).unwrap();
        let (s2, vk2) = level.keypair_from_seed(&seed).unwrap();
        assert_eq!(s1, seed.to_vec());
        assert_eq!(s1, s2);
        assert_eq!(vk1, vk2);
        let (_, vk3) = level.keypair_from_seed(&[43u8; 32]).unwrap();
        assert_ne!(vk1, vk3);
        let sig = level.sign(&seed, b"hello").unwrap();
        assert!(level.verify(&vk1, &sig, b"hello").unwrap());
        assert!(!level.verify(&vk3, &sig, b"hello").unwrap());
    }
}

#[test]
fn mldsa_error_messages() {
    let level = MlDsaLevel::MlDsa44;
    let (seed, vk) = level.generate();
    let sig = level.sign(&seed, b"msg").unwrap();
    assert_eq!(level.sign(b"short", b"msg").unwrap_err(), "Invalid seed length");
    assert_eq!(
        level.keypair_from_seed(b"short").unwrap_err(),
        "Invalid seed length: expected 32, got 5"
    );
    assert_eq!(
        level.verify(&vk[1..], &sig, b"msg").unwrap_err(),
        "Invalid verifying key length"
    );
    assert_eq!(level.verify(&vk, &sig[1..], b"msg").unwrap_err(), "Invalid signature length");
    let garbage = vec![0xffu8; level.sig_len()];
    assert_eq!(level.verify(&vk, &garbage, b"msg").unwrap_err(), "Invalid signature");
}

#[test]
fn mldsa_key_objects() {
    for level in LEVELS {
        let (sk, vk) = level.generateKeypair();
        assert_eq!(sk.kind(), level);
        assert_eq!(vk.kind(), level);
        assert_eq!(sk.bytes().len(), 32);
        let sig = sk.sign(b"message").unwrap();
        assert!(vk.verify(&sig, b"message").unwrap());
        assert!(!vk.verify(&sig, b"messagf").unwrap());

        let (sk2, vk2) = level.keypairFromSeed(&sk.bytes()).unwrap();
        assert_eq!(sk2.bytes(), sk.bytes());
        assert_eq!(vk2.bytes(), vk.bytes());

        let sk3 = MlDsaSigningKey::fromBytes(level, &sk.bytes()).unwrap();
        let vk3 = MlDsaVerifyingKey::fromBytes(level, &vk.bytes()).unwrap();
        assert_eq!(sk3.sign(b"message").unwrap(), sig);
        assert!(vk3.verify(&sig, b"message").unwrap());
    }
    let e = MlDsaSigningKey::fromBytes(MlDsaLevel::MlDsa65, &[0u8; 31]).err().unwrap();
    assert_eq!(e, "Invalid seed length: expected 32, got 31");
    let e = MlDsaVerifyingKey::fromBytes(MlDsaLevel::MlDsa87, &[0u8; 2]).err().unwrap();
    assert_eq!(e, "Invalid key length: expected 2592, got 2");
    assert!(MlDsaLevel::MlDsa44.keypairFromSeed(b"x").is_err());
}
