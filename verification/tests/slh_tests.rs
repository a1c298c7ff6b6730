use php_ext_pqcrypto::slh::{slhdsa_generate, slhdsa_sign, slhdsa_verify, SlhDsa, SlhDsaVariant};

fn run_slhdsa_test(hash: &str, speed: &str, sk_len: usize, vk_len: usize) {
    let v = SlhDsaVariant::from_params(hash, speed).unwrap();
    let (sk, vk) = slhdsa_generate(v);
    assert_eq!(sk.len(), sk_len);
    assert_eq!(vk.len(), vk_len);
    let sig = slhdsa_sign(v, &sk, b"msg").unwrap();
    assert!(slhdsa_verify(v, &vk, &sig, b"msg").unwrap());
    assert!(!slhdsa_verify(v, &vk, &sig, b"bad").unwrap());
}

#[test]
fn slhdsa_shake128f() {
    run_slhdsa_test("shake128", "fast", 64, 32);
}

#[test]
fn slhdsa_sha2_128f() {
    run_slhdsa_test("sha2-128", "fast", 64, 32);
}

#[test]
fn slhdsa_rejects_invalid_params() {
    assert!(SlhDsaVariant::from_params("md5", "fast").is_err());
    assert!(SlhDsaVariant::from_params("shake128", "turbo").is_err());
}

#[test]
fn parameter_names_and_aliases() {
    let cases = [
        ("shake128", "fast", SlhDsaVariant::Shake128f),
        ("shake128", "s", SlhDsaVariant::Shake128s),
        ("shake192", "f", SlhDsaVariant::Shake192f),
        ("shake192", "compact", SlhDsaVariant::Shake192s),
        ("shake256", "small", SlhDsaVariant::Shake256s),
        ("sha2-128", "small", SlhDsaVariant::Sha2_128s),
        ("sha2_128", "fast", SlhDsaVariant::Sha2_128f),
        ("sha2192", "fast", SlhDsaVariant::Sha2_192f),
        ("sha2-192", "s", SlhDsaVariant::Sha2_192s),
        ("sha2_256", "f", SlhDsaVariant::Sha2_256f),
        ("sha2256", "small", SlhDsaVariant::Sha2_256s),
    ];
    for (hash, speed, v) in cases {
        assert_eq!(SlhDsaVariant::from_params(hash, speed).unwrap(), v);
    }
}

#[test]
fn parameter_names_ignore_case() {
    assert_eq!(
        SlhDsaVariant::from_params("SHAKE128", "FAST").unwrap(),
        SlhDsaVariant::from_params("shake128", "fast").unwrap()
    );
    assert_eq!(SlhDsaVariant::from_params("Sha2-256", "Small").unwrap(), SlhDsaVariant::Sha2_256s);
    // The Kelvin sign lowercases to 'k'.
    assert_eq!(SlhDsaVariant::from_params("SHA\u{212A}E128", "F").unwrap(), SlhDsaVariant::Shake128f);
}

#[test]
fn parameter_errors_quote_the_name_as_given() {
    assert_eq!(
        SlhDsaVariant::from_params("md5", "fast").unwrap_err(),
        "Unknown hash: 'md5'. Use 'shake128', 'shake192', 'shake256', 'sha2-128', 'sha2-192', or 'sha2-256'."
    );
    assert_eq!(
        SlhDsaVariant::from_params("shake128", "Turbo").unwrap_err(),
        "Invalid speed: 'Turbo'. Use 'fast' or 'small'."
    );
    // The speed is checked before the hash.
    assert_eq!(
        SlhDsaVariant::from_params("md5", "turbo").unwrap_err(),
        "Invalid speed: 'turbo'. Use 'fast' or 'small'."
    );
    assert_eq!(
        SlhDsaVariant::from_lowercase_params("MD5", "FAST", "md5", "fast").unwrap_err(),
        "Unknown hash: 'MD5'. Use 'shake128', 'shake192', 'shake256', 'sha2-128', 'sha2-192', or 'sha2-256'."
    );
}

#[test]
fn key_lengths_of_every_parameter_set() {
    let sets = [
        (SlhDsaVariant::Shake128f, 64, 32, 17088),
        (SlhDsaVariant::Shake128s, 64, 32, 7856),
        (SlhDsaVariant::Shake192f, 96, 48, 35664),
        (SlhDsaVariant::Shake192s, 96, 48, 16224),
        (SlhDsaVariant::Shake256f, 128, 64, 49856),
        (SlhDsaVariant::Shake256s, 128, 64, 29792),
        (SlhDsaVariant::Sha2_128f, 64, 32, 17088),
        (SlhDsaVariant::Sha2_128s, 64, 32, 7856),
        (SlhDsaVariant::Sha2_192f, 96, 48, 35664),
        (SlhDsaVariant::Sha2_192s, 96, 48, 16224),
        (SlhDsaVariant::Sha2_256f, 128, 64, 49856),
        (SlhDsaVariant::Sha2_256s, 128, 64, 29792),
    ];
    for (v, sk, vk, sig) in sets {
        assert_eq!(v.sk_len(), sk);
        assert_eq!(v.vk_len(), vk);
        assert_eq!(v.sig_len(), sig);
    }
}

#[test]
fn generated_verifying_key_is_embedded_in_the_signing_key() {
    let (sk, vk) = slhdsa_generate(SlhDsaVariant::Sha2_128f);
    assert_eq!(&sk[32..64], &vk[..]);
    let (sk, vk) = slhdsa_generate(SlhDsaVariant::Sha2_256f);
    assert_eq!(&sk[64..128], &vk[..]);
}

#[test]
fn slh_signing_is_deterministic() {
    let v = SlhDsaVariant::Sha2_128f;
    let (sk, _) = slhdsa_generate(v);
    let a = slhdsa_sign(v, &sk, b"m").unwrap();
    let b = slhdsa_sign(v, &sk, b"m").unwrap();
    assert_eq!(a, b);
    assert_eq!(a.len(), 17088);
    let c = slhdsa_sign(v, &sk, b"n").unwrap();
    assert_ne!(a, c);
}

#[test]
fn slh_error_messages() {
    let v = SlhDsaVariant::Sha2_128f;
    let (sk, vk) = slhdsa_generate(v);
    let sig = slhdsa_sign(v, &sk, b"m").unwrap();
    assert_eq!(slhdsa_sign(v, b"short", b"m").unwrap_err(), "Invalid signing key: signature error");
    assert_eq!(
        slhdsa_verify(v, &vk[1..], &sig, b"m").unwrap_err(),
        "Invalid verifying key: signature error"
    );
    assert_eq!(
        slhdsa_verify(v, &vk, &sig[1..], b"m").unwrap_err(),
        "Invalid signature: signature error"
    );
    // A signature of another parameter set has the wrong length.
    assert!(slhdsa_verify(SlhDsaVariant::Sha2_128s, &vk, &sig, b"m").is_err());
}

#[test]
fn a_signature_verifies_only_under_its_own_key() {
    let v = SlhDsaVariant::Sha2_128f;
    let (sk, vk) = slhdsa_generate(v);
    let (_, other_vk) = slhdsa_generate(v);
    let sig = slhdsa_sign(v, &sk, b"m").unwrap();
    assert!(slhdsa_verify(v, &vk, &sig, b"m").unwrap());
    assert!(!slhdsa_verify(v, &other_vk, &sig, b"m").unwrap());
}

#[test]
fn slh_dsa_objects() {
    let slh = SlhDsa::__construct("SHA2-128".to_string(), "fast".to_string()).unwrap();
    assert_eq!(slh.kind(), SlhDsaVariant::Sha2_128f);
    let (sk, vk) = slh.generateKeypair();
    assert_eq!(sk.kind(), SlhDsaVariant::Sha2_128f);
    assert_eq!(vk.kind(), SlhDsaVariant::Sha2_128f);
    let sig = sk.sign(b"message").unwrap();
    assert!(vk.verify(&sig, b"message").unwrap());
    assert!(!vk.verify(&sig, b"other").unwrap());
    assert!(vk.verify(&sig[..10], b"message").is_err());

    let sk2 = slh.importSigningKey(&sk.bytes()).unwrap();
    let vk2 = slh.importVerifyingKey(&vk.bytes()).unwrap();
    assert_eq!(sk2.bytes(), sk.bytes());
    assert_eq!(vk2.bytes(), vk.bytes());
    assert_eq!(sk2.sign(b"message").unwrap(), sig);
    assert!(vk2.verify(&sig, b"message").unwrap());

    assert_eq!(
        slh.importSigningKey(&[0u8; 3]).err().unwrap(),
        "Invalid key length: expected 64, got 3"
    );
    assert_eq!(
        slh.importVerifyingKey(&[0u8; 64]).err().unwrap(),
        "Invalid key length: expected 32, got 64"
    );
    assert!(SlhDsa::__construct("md5".to_string(), "fast".to_string()).is_err());
}

#[test]
fn shake128s_and_shake256f_selection_keys_and_refusal_of_a_zero_signature() {
    let small = SlhDsaVariant::from_params("shake128", "small").unwrap();
    assert_eq!(small, SlhDsaVariant::Shake128s);
    let zero_vk = vec![0u8; small.vk_len()];
    let zero_sig = vec![0u8; small.sig_len()];
    assert!(!slhdsa_verify(small, &zero_vk, &zero_sig, b"msg").unwrap());

    let large = SlhDsaVariant::from_params("shake256", "fast").unwrap();
    assert_eq!(large, SlhDsaVariant::Shake256f);
    let (sk, vk) = slhdsa_generate(large);
    assert_eq!(sk.len(), 128);
    assert_eq!(vk.len(), 64);
    assert_eq!(&sk[64..128], &vk[..]);
    let zero_sig = vec![0u8; large.sig_len()];
    assert!(!slhdsa_verify(large, &vk, &zero_sig, b"msg").unwrap());
}
