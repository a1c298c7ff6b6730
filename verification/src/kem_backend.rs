//! The calls into `ml-kem` and `x-wing`, each behind a contract over byte strings.
//!
//! Randomness comes from `rand::rng()`, which panics only if the system's random
//! source fails. Encapsulation is split into drawing the randomness and the
//! deterministic encapsulation that the crates perform with it.
use crate::kem::KemAlgorithm;
use ml_kem::{Decapsulate, Generate, KeyExport, KeyInit, Kem, TryKeyInit};
use vstd::prelude::*;

verus! {

/// FIPS 203 modulus check on one 3-byte group of an encoded vector: the two
/// 12-bit little-endian values that the group holds are both below q = 3329.
pub open spec fn coefficient_pair_reduced(ek: Seq<u8>, j: int) -> bool {
    let b0 = ek[3 * j] as int;
    let b1 = ek[3 * j + 1] as int;
    let b2 = ek[3 * j + 2] as int;
    &&& b0 + 256 * (b1 % 16) < 3329
    &&& b1 / 16 + 16 * b2 < 3329
}

/// FIPS 203 modulus check on an encapsulation key of rank `k`: every 12-bit value in
/// its first 384 * k bytes (the encoded vector t) is below q = 3329. This is exactly
/// the condition under which `ml_kem::EncapsulationKey::new` accepts a key of the
/// right length (it decodes, reduces and re-encodes, and compares).
pub open spec fn ek_coefficients_reduced(ek: Seq<u8>, k: nat) -> bool {
    forall|j: int| 0 <= j < 128 * k ==> #[trigger] coefficient_pair_reduced(ek, j)
}

/// The encapsulation key (`KeyExport::to_bytes` of `encapsulation_key()`) of the
/// ML-KEM decapsulation key that `DecapsulationKey::<P>::new` restores from a 64-byte
/// seed, for the parameter set of `alg`.
pub uninterp spec fn mlkem_encapsulation_key(alg: KemAlgorithm, seed: Seq<u8>) -> Seq<u8>;

/// The encapsulation key (`KeyExport::to_bytes`) of the X-Wing decapsulation key that
/// `x_wing::DecapsulationKey::new` expands from a 32-byte key.
pub uninterp spec fn xwing_encapsulation_key(seed: Seq<u8>) -> Seq<u8>;

/// (shared secret, ciphertext) that `ml_kem::EncapsulationKey::<P>::encapsulate_deterministic`
/// produces for the encoded key `ek` and the 32 bytes of randomness `m`, for the
/// parameter set of `alg`.
pub uninterp spec fn mlkem_encapsulation(alg: KemAlgorithm, ek: Seq<u8>, m: Seq<u8>) -> (Seq<u8>, Seq<u8>);

/// (shared secret, ciphertext) that `x_wing::EncapsulationKey::encapsulate_deterministic`
/// produces for the encoded key `ek` and the 64 bytes of randomness `m`.
pub uninterp spec fn xwing_encapsulation(ek: Seq<u8>, m: Seq<u8>) -> (Seq<u8>, Seq<u8>);

/// `len` bytes from `rand::rng()` (`Rng::fill_bytes`); their values rest on chance.
#[verifier::external_body]
pub(crate) fn random_bytes(len: usize) -> (r: Vec<u8>)
    ensures
        r@.len() == len,
{
    let mut v = vec![0u8; len];
    rand::Rng::fill_bytes(&mut rand::rng(), &mut v);
    v
}

/// The shared secret that ML-KEM decapsulation (`Decapsulate::decapsulate` of
/// `ml_kem::DecapsulationKey<P>`, for the parameter set of `alg`) derives from a
/// 64-byte seed and a ciphertext.
pub uninterp spec fn mlkem_shared_secret(alg: KemAlgorithm, seed: Seq<u8>, ct: Seq<u8>) -> Seq<u8>;

/// The shared secret that X-Wing decapsulation (`Decapsulate::decapsulate` of
/// `x_wing::DecapsulationKey`) derives from a 32-byte key and a ciphertext.
pub uninterp spec fn xwing_shared_secret(seed: Seq<u8>, ct: Seq<u8>) -> Seq<u8>;

/// `ml_kem::DecapsulationKey512::generate_from_rng`, exported as its 64-byte seed and
/// its 800-byte encapsulation key. The key encodes reduced coefficients, since it is
/// the encoding of field elements.
#[verifier::external_body]
pub(crate) fn mlkem512_generate() -> (r: (Vec<u8>, Vec<u8>))
    ensures
        r.0@.len() == 64,
        r.1@.len() == 800,
        r.1@ == mlkem_encapsulation_key(KemAlgorithm::MlKem512, r.0@),
        ek_coefficients_reduced(r.1@, 2),
{
    let dk = ml_kem::DecapsulationKey512::generate_from_rng(&mut rand::rng());
    let ek = dk.encapsulation_key().to_bytes();
    (dk.to_bytes().to_vec(), ek.to_vec())
}

/// As `mlkem512_generate`, for ML-KEM-768 (1184-byte encapsulation key).
#[verifier::external_body]
pub(crate) fn mlkem768_generate() -> (r: (Vec<u8>, Vec<u8>))
    ensures
        r.0@.len() == 64,
        r.1@.len() == 1184,
        r.1@ == mlkem_encapsulation_key(KemAlgorithm::MlKem768, r.0@),
        ek_coefficients_reduced(r.1@, 3),
{
    let dk = ml_kem::DecapsulationKey768::generate_from_rng(&mut rand::rng());
    let ek = dk.encapsulation_key().to_bytes();
    (dk.to_bytes().to_vec(), ek.to_vec())
}

/// As `mlkem512_generate`, for ML-KEM-1024 (1568-byte encapsulation key).
#[verifier::external_body]
pub(crate) fn mlkem1024_generate() -> (r: (Vec<u8>, Vec<u8>))
    ensures
        r.0@.len() == 64,
        r.1@.len() == 1568,
        r.1@ == mlkem_encapsulation_key(KemAlgorithm::MlKem1024, r.0@),
        ek_coefficients_reduced(r.1@, 4),
{
    let dk = ml_kem::DecapsulationKey1024::generate_from_rng(&mut rand::rng());
    let ek = dk.encapsulation_key().to_bytes();
    (dk.to_bytes().to_vec(), ek.to_vec())
}

/// `TryKeyInit::new_from_slice` for `ml_kem::EncapsulationKey512`, then
/// `encapsulate_deterministic` with the 32 bytes of randomness `m`. The key is refused,
/// with `InvalidKey` (whose text is "InvalidKey"), exactly when the modulus check
/// fails; otherwise the result is the 32-byte shared secret and the 768-byte
/// ciphertext that the key and `m` determine.
#[verifier::external_body]
pub(crate) fn mlkem512_encapsulate(ek: &[u8], m: &[u8]) -> (r: Result<(Vec<u8>, Vec<u8>), String>)
    requires
        ek@.len() == 800,
        m@.len() == 32,
    ensures
        match r {
            Ok((ss, ct)) => {
                &&& ek_coefficients_reduced(ek@, 2)
                &&& (ss@, ct@) == mlkem_encapsulation(KemAlgorithm::MlKem512, ek@, m@)
                &&& ss@.len() == 32
                &&& ct@.len() == 768
            },
            Err(e) => !ek_coefficients_reduced(ek@, 2) && e@ == "InvalidKey"@,
        },
{
    match ml_kem::EncapsulationKey512::new_from_slice(ek) {
        Ok(key) => {
            let (ct, ss) = key.encapsulate_deterministic(m.try_into().unwrap());
            Ok((ss.to_vec(), ct.to_vec()))
        },
        Err(e) => Err(e.to_string()),
    }
}

/// `TryKeyInit::new_from_slice` for `ml_kem::EncapsulationKey768`, then
/// `encapsulate_deterministic` with the 32 bytes of randomness `m`. The key is refused,
/// with `InvalidKey` (whose text is "InvalidKey"), exactly when the modulus check
/// fails; otherwise the result is the 32-byte shared secret and the 1088-byte
/// ciphertext that the key and `m` determine.
#[verifier::external_body]
pub(crate) fn mlkem768_encapsulate(ek: &[u8], m: &[u8]) -> (r: Result<(Vec<u8>, Vec<u8>), String>)
    requires
        ek@.len() == 1184,
        m@.len() == 32,
    ensures
        match r {
            Ok((ss, ct)) => {
                &&& ek_coefficients_reduced(ek@, 3)
                &&& (ss@, ct@) == mlkem_encapsulation(KemAlgorithm::MlKem768, ek@, m@)
                &&& ss@.len() == 32
                &&& ct@.len() == 1088
            },
            Err(e) => !ek_coefficients_reduced(ek@, 3) && e@ == "InvalidKey"@,
        },
{
    match ml_kem::EncapsulationKey768::new_from_slice(ek) {
        Ok(key) => {
            let (ct, ss) = key.encapsulate_deterministic(m.try_into().unwrap());
            Ok((ss.to_vec(), ct.to_vec()))
        },
        Err(e) => Err(e.to_string()),
    }
}

/// `TryKeyInit::new_from_slice` for `ml_kem::EncapsulationKey1024`, then
/// `encapsulate_deterministic` with the 32 bytes of randomness `m`. The key is refused,
/// with `InvalidKey` (whose text is "InvalidKey"), exactly when the modulus check
/// fails; otherwise the result is the 32-byte shared secret and the 1568-byte
/// ciphertext that the key and `m` determine.
#[verifier::external_body]
pub(crate) fn mlkem1024_encapsulate(ek: &[u8], m: &[u8]) -> (r: Result<(Vec<u8>, Vec<u8>), String>)
    requires
        ek@.len() == 1568,
        m@.len() == 32,
    ensures
        match r {
            Ok((ss, ct)) => {
                &&& ek_coefficients_reduced(ek@, 4)
                &&& (ss@, ct@) == mlkem_encapsulation(KemAlgorithm::MlKem1024, ek@, m@)
                &&& ss@.len() == 32
                &&& ct@.len() == 1568
            },
            Err(e) => !ek_coefficients_reduced(ek@, 4) && e@ == "InvalidKey"@,
        },
{
    match ml_kem::EncapsulationKey1024::new_from_slice(ek) {
        Ok(key) => {
            let (ct, ss) = key.encapsulate_deterministic(m.try_into().unwrap());
            Ok((ss.to_vec(), ct.to_vec()))
        },
        Err(e) => Err(e.to_string()),
    }
}

/// `KeyInit::new` of `ml_kem::DecapsulationKey512` from a 64-byte seed, then
/// `decapsulate_slice`, which refuses a ciphertext whose length is not 768 bytes and
/// otherwise returns the 32-byte shared secret.
#[verifier::external_body]
pub(crate) fn mlkem512_decapsulate(seed: &[u8], ct: &[u8]) -> (r: Option<Vec<u8>>)
    requires
        seed@.len() == 64,
    ensures
        match r {
            Some(ss) => ct@.len() == 768 && ss@ == mlkem_shared_secret(
                KemAlgorithm::MlKem512,
                seed@,
                ct@,
            ) && ss@.len() == 32,
            None => ct@.len() != 768,
        },
{
    let dk = ml_kem::DecapsulationKey512::new(seed.try_into().unwrap());
    match dk.decapsulate_slice(ct) {
        Ok(ss) => Some(ss.to_vec()),
        Err(_) => None,
    }
}

/// As `mlkem512_decapsulate`, for ML-KEM-768 (1088-byte ciphertext).
#[verifier::external_body]
pub(crate) fn mlkem768_decapsulate(seed: &[u8], ct: &[u8]) -> (r: Option<Vec<u8>>)
    requires
        seed@.len() == 64,
    ensures
        match r {
            Some(ss) => ct@.len() == 1088 && ss@ == mlkem_shared_secret(
                KemAlgorithm::MlKem768,
                seed@,
                ct@,
            ) && ss@.len() == 32,
            None => ct@.len() != 1088,
        },
{
    let dk = ml_kem::DecapsulationKey768::new(seed.try_into().unwrap());
    match dk.decapsulate_slice(ct) {
        Ok(ss) => Some(ss.to_vec()),
        Err(_) => None,
    }
}

/// As `mlkem512_decapsulate`, for ML-KEM-1024 (1568-byte ciphertext).
#[verifier::external_body]
pub(crate) fn mlkem1024_decapsulate(seed: &[u8], ct: &[u8]) -> (r: Option<Vec<u8>>)
    requires
        seed@.len() == 64,
    ensures
        match r {
            Some(ss) => ct@.len() == 1568 && ss@ == mlkem_shared_secret(
                KemAlgorithm::MlKem1024,
                seed@,
                ct@,
            ) && ss@.len() == 32,
            None => ct@.len() != 1568,
        },
{
    let dk = ml_kem::DecapsulationKey1024::new(seed.try_into().unwrap());
    match dk.decapsulate_slice(ct) {
        Ok(ss) => Some(ss.to_vec()),
        Err(_) => None,
    }
}

/// `Kem::generate_keypair_from_rng` of `x_wing::XWingKem`, exported as the 32-byte
/// decapsulation key (`as_bytes`) and the 1216-byte encapsulation key (`to_bytes`),
/// whose first 1184 bytes are an ML-KEM-768 encapsulation key with reduced
/// coefficients.
#[verifier::external_body]
pub(crate) fn xwing_generate() -> (r: (Vec<u8>, Vec<u8>))
    ensures
        r.0@.len() == 32,
        r.1@.len() == 1216,
        r.1@ == xwing_encapsulation_key(r.0@),
        ek_coefficients_reduced(r.1@.subrange(0, 1184), 3),
{
    let (sk, pk) = x_wing::XWingKem::generate_keypair_from_rng(&mut rand::rng());
    (sk.as_bytes().to_vec(), pk.to_bytes().to_vec())
}

/// `TryFrom<&[u8]>` for `x_wing::EncapsulationKey`, then `encapsulate_deterministic`
/// with the 64 bytes of randomness `m`. The key is refused with `InvalidKey` (text
/// "InvalidKey") exactly when it is not 1216 bytes long or its ML-KEM-768 part (the
/// first 1184 bytes) fails the modulus check (any 32 bytes are an X25519 public key).
/// Otherwise the result is the 32-byte shared secret and the 1120-byte ciphertext
/// that the key and `m` determine.
#[verifier::external_body]
pub(crate) fn xwing_encapsulate(ek: &[u8], m: &[u8]) -> (r: Result<(Vec<u8>, Vec<u8>), String>)
    requires
        m@.len() == 64,
    ensures
        match r {
            Ok((ss, ct)) => {
                &&& ek@.len() == 1216
                &&& ek_coefficients_reduced(ek@.subrange(0, 1184), 3)
                &&& (ss@, ct@) == xwing_encapsulation(ek@, m@)
                &&& ss@.len() == 32
                &&& ct@.len() == 1120
            },
            Err(e) => !(ek@.len() == 1216 && ek_coefficients_reduced(ek@.subrange(0, 1184), 3))
                && e@ == "InvalidKey"@,
        },
{
    match x_wing::EncapsulationKey::try_from(ek) {
        Ok(key) => {
            let (ct, ss) = key.encapsulate_deterministic(m.try_into().unwrap());
            Ok((ss.to_vec(), ct.to_vec()))
        },
        Err(e) => Err(e.to_string()),
    }
}

/// `From<[u8; 32]>` for `x_wing::DecapsulationKey`, then `decapsulate_slice`, which
/// refuses a ciphertext whose length is not 1120 bytes and otherwise returns the
/// 32-byte shared secret.
#[verifier::external_body]
pub(crate) fn xwing_decapsulate(seed: &[u8], ct: &[u8]) -> (r: Option<Vec<u8>>)
    requires
        seed@.len() == 32,
    ensures
        match r {
            Some(ss) => ct@.len() == 1120 && ss@ == xwing_shared_secret(seed@, ct@) && ss@.len()
                == 32,
            None => ct@.len() != 1120,
        },
{
    let sk: [u8; 32] = seed.try_into().unwrap();
    let dk = x_wing::DecapsulationKey::from(sk);
    match dk.decapsulate_slice(ct) {
        Ok(ss) => Some(ss.to_vec()),
        Err(_) => None,
    }
}

} // verus!
