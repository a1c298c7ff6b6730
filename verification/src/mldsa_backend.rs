//! The calls into `ml-dsa`, each behind a contract over byte strings.
//!
//! Key generation draws its seed from `rand::rng()`, which panics only if the
//! system's random source fails.
use crate::sig::MlDsaLevel;
use ml_dsa::{Generate, Keypair, Signer, Verifier};
use vstd::prelude::*;

verus! {

/// The encoded verifying key (`VerifyingKey::encode`) of the ML-DSA key pair that
/// `SigningKey::from_seed` derives from a 32-byte seed (FIPS 204 `KeyGen_internal`),
/// for the parameter set `level`.
pub uninterp spec fn mldsa_verifying_key(level: MlDsaLevel, seed: Seq<u8>) -> Seq<u8>;

/// What `Signer::try_sign` of `ml_dsa::SigningKey::from_seed(seed)` returns for `msg`,
/// encoded (`Signature::encode`): the deterministic ML-DSA signature with an empty
/// context, or `None` when the rejection-sampling loop runs out of nonces.
pub uninterp spec fn mldsa_signature(level: MlDsaLevel, seed: Seq<u8>, msg: Seq<u8>) -> Option<Seq<u8>>;

/// Whether `ml_dsa::Signature::decode` accepts an encoded signature of the right length.
pub uninterp spec fn mldsa_signature_decodes(level: MlDsaLevel, sig: Seq<u8>) -> bool;

/// Whether `Verifier::verify` of the decoded verifying key `vk` accepts the decoded
/// signature `sig` on `msg` (empty context).
pub uninterp spec fn mldsa_verifies(level: MlDsaLevel, vk: Seq<u8>, sig: Seq<u8>, msg: Seq<u8>) -> bool;

/// `Generate::generate_from_rng` for `ml_dsa::SigningKey<MlDsa44>`, exported as its
/// seed (`to_seed`) and its encoded verifying key. The key is `from_seed` of a random
/// seed, so the verifying key is the one derived from the returned seed.
#[verifier::external_body]
pub(crate) fn mldsa44_generate() -> (r: (Vec<u8>, Vec<u8>))
    ensures
        r.0@.len() == 32,
        r.1@ == mldsa_verifying_key(MlDsaLevel::MlDsa44, r.0@),
        r.1@.len() == 1312,
{
    let sk = ml_dsa::SigningKey::<ml_dsa::MlDsa44>::generate_from_rng(&mut rand::rng());
    (sk.to_seed().to_vec(), sk.verifying_key().encode().to_vec())
}

/// `SigningKey::<MlDsa44>::from_seed`, then `verifying_key().encode()`.
#[verifier::external_body]
pub(crate) fn mldsa44_verifying_key(seed: &[u8]) -> (vk: Vec<u8>)
    requires
        seed@.len() == 32,
    ensures
        vk@ == mldsa_verifying_key(MlDsaLevel::MlDsa44, seed@),
        vk@.len() == 1312,
{
    let sk = ml_dsa::SigningKey::<ml_dsa::MlDsa44>::from_seed(seed.try_into().unwrap());
    sk.verifying_key().encode().to_vec()
}

/// `SigningKey::<MlDsa44>::from_seed`, then `Signer::try_sign` and `Signature::encode`.
/// A signature it returns is 2420 bytes long, decodes, and verifies on `msg` under the
/// (1312-byte) verifying key derived from the same seed: ML-DSA signing only returns a
/// signature that passes the checks verification makes, as the crate's usage example
/// shows. `try_sign` fails only when the rejection-sampling loop runs out of nonces.
#[verifier::external_body]
pub(crate) fn mldsa44_sign(seed: &[u8], msg: &[u8]) -> (r: Option<Vec<u8>>)
    requires
        seed@.len() == 32,
    ensures
        match r {
            Some(sig) => mldsa_signature(MlDsaLevel::MlDsa44, seed@, msg@) == Some(sig@),
            None => mldsa_signature(MlDsaLevel::MlDsa44, seed@, msg@) is None,
        },
        r matches Some(sig) ==> {
            &&& sig@.len() == 2420
            &&& mldsa_verifying_key(MlDsaLevel::MlDsa44, seed@).len() == 1312
            &&& mldsa_signature_decodes(MlDsaLevel::MlDsa44, sig@)
            &&& mldsa_verifies(
                MlDsaLevel::MlDsa44,
                mldsa_verifying_key(MlDsaLevel::MlDsa44, seed@),
                sig@,
                msg@,
            )
        },
{
    let sk = ml_dsa::SigningKey::<ml_dsa::MlDsa44>::from_seed(seed.try_into().unwrap());
    match sk.try_sign(msg) {
        Ok(sig) => Some(sig.encode().to_vec()),
        Err(_) => None,
    }
}

/// `VerifyingKey::<MlDsa44>::decode` and `Signature::<MlDsa44>::decode` of the encodings,
/// then `Verifier::verify`: `None` when the signature does not decode, else whether
/// it verifies.
#[verifier::external_body]
pub(crate) fn mldsa44_verify(vk: &[u8], sig: &[u8], msg: &[u8]) -> (r: Option<bool>)
    requires
        vk@.len() == 1312,
        sig@.len() == 2420,
    ensures
        r == (if mldsa_signature_decodes(MlDsaLevel::MlDsa44, sig@) {
            Some(mldsa_verifies(MlDsaLevel::MlDsa44, vk@, sig@, msg@))
        } else {
            None
        }),
{
    let key = ml_dsa::VerifyingKey::<ml_dsa::MlDsa44>::decode(vk.try_into().unwrap());
    match ml_dsa::Signature::<ml_dsa::MlDsa44>::decode(sig.try_into().unwrap()) {
        Some(s) => Some(key.verify(msg, &s).is_ok()),
        None => None,
    }
}

/// `Generate::generate_from_rng` for `ml_dsa::SigningKey<MlDsa65>`, exported as its
/// seed (`to_seed`) and its encoded verifying key. The key is `from_seed` of a random
/// seed, so the verifying key is the one derived from the returned seed.
#[verifier::external_body]
pub(crate) fn mldsa65_generate() -> (r: (Vec<u8>, Vec<u8>))
    ensures
        r.0@.len() == 32,
        r.1@ == mldsa_verifying_key(MlDsaLevel::MlDsa65, r.0@),
        r.1@.len() == 1952,
{
    let sk = ml_dsa::SigningKey::<ml_dsa::MlDsa65>::generate_from_rng(&mut rand::rng());
    (sk.to_seed().to_vec(), sk.verifying_key().encode().to_vec())
}

/// `SigningKey::<MlDsa65>::from_seed`, then `verifying_key().encode()`.
#[verifier::external_body]
pub(crate) fn mldsa65_verifying_key(seed: &[u8]) -> (vk: Vec<u8>)
    requires
        seed@.len() == 32,
    ensures
        vk@ == mldsa_verifying_key(MlDsaLevel::MlDsa65, seed@),
        vk@.len() == 1952,
{
    let sk = ml_dsa::SigningKey::<ml_dsa::MlDsa65>::from_seed(seed.try_into().unwrap());
    sk.verifying_key().encode().to_vec()
}

/// `SigningKey::<MlDsa65>::from_seed`, then `Signer::try_sign` and `Signature::encode`.
/// A signature it returns is 3309 bytes long, decodes, and verifies on `msg` under the
/// (1952-byte) verifying key derived from the same seed: ML-DSA signing only returns a
/// signature that passes the checks verification makes, as the crate's usage example
/// shows. `try_sign` fails only when the rejection-sampling loop runs out of nonces.
#[verifier::external_body]
pub(crate) fn mldsa65_sign(seed: &[u8], msg: &[u8]) -> (r: Option<Vec<u8>>)
    requires
        seed@.len() == 32,
    ensures
        match r {
            Some(sig) => mldsa_signature(MlDsaLevel::MlDsa65, seed@, msg@) == Some(sig@),
            None => mldsa_signature(MlDsaLevel::MlDsa65, seed@, msg@) is None,
        },
        r matches Some(sig) ==> {
            &&& sig@.len() == 3309
            &&& mldsa_verifying_key(MlDsaLevel::MlDsa65, seed@).len() == 1952
            &&& mldsa_signature_decodes(MlDsaLevel::MlDsa65, sig@)
            &&& mldsa_verifies(
                MlDsaLevel::MlDsa65,
                mldsa_verifying_key(MlDsaLevel::MlDsa65, seed@),
                sig@,
                msg@,
            )
        },
{
    let sk = ml_dsa::SigningKey::<ml_dsa::MlDsa65>::from_seed(seed.try_into().unwrap());
    match sk.try_sign(msg) {
        Ok(sig) => Some(sig.encode().to_vec()),
        Err(_) => None,
    }
}

/// `VerifyingKey::<MlDsa65>::decode` and `Signature::<MlDsa65>::decode` of the encodings,
/// then `Verifier::verify`: `None` when the signature does not decode, else whether
/// it verifies.
#[verifier::external_body]
pub(crate) fn mldsa65_verify(vk: &[u8], sig: &[u8], msg: &[u8]) -> (r: Option<bool>)
    requires
        vk@.len() == 1952,
        sig@.len() == 3309,
    ensures
        r == (if mldsa_signature_decodes(MlDsaLevel::MlDsa65, sig@) {
            Some(mldsa_verifies(MlDsaLevel::MlDsa65, vk@, sig@, msg@))
        } else {
            None
        }),
{
    let key = ml_dsa::VerifyingKey::<ml_dsa::MlDsa65>::decode(vk.try_into().unwrap());
    match ml_dsa::Signature::<ml_dsa::MlDsa65>::decode(sig.try_into().unwrap()) {
        Some(s) => Some(key.verify(msg, &s).is_ok()),
        None => None,
    }
}

/// `Generate::generate_from_rng` for `ml_dsa::SigningKey<MlDsa87>`, exported as its
/// seed (`to_seed`) and its encoded verifying key. The key is `from_seed` of a random
/// seed, so the verifying key is the one derived from the returned seed.
#[verifier::external_body]
pub(crate) fn mldsa87_generate() -> (r: (Vec<u8>, Vec<u8>))
    ensures
        r.0@.len() == 32,
        r.1@ == mldsa_verifying_key(MlDsaLevel::MlDsa87, r.0@),
        r.1@.len() == 2592,
{
    let sk = ml_dsa::SigningKey::<ml_dsa::MlDsa87>::generate_from_rng(&mut rand::rng());
    (sk.to_seed().to_vec(), sk.verifying_key().encode().to_vec())
}

/// `SigningKey::<MlDsa87>::from_seed`, then `verifying_key().encode()`.
#[verifier::external_body]
pub(crate) fn mldsa87_verifying_key(seed: &[u8]) -> (vk: Vec<u8>)
    requires
        seed@.len() == 32,
    ensures
        vk@ == mldsa_verifying_key(MlDsaLevel::MlDsa87, seed@),
        vk@.len() == 2592,
{
    let sk = ml_dsa::SigningKey::<ml_dsa::MlDsa87>::from_seed(seed.try_into().unwrap());
    sk.verifying_key().encode().to_vec()
}

/// `SigningKey::<MlDsa87>::from_seed`, then `Signer::try_sign` and `Signature::encode`.
/// A signature it returns is 4627 bytes long, decodes, and verifies on `msg` under the
/// (2592-byte) verifying key derived from the same seed: ML-DSA signing only returns a
/// signature that passes the checks verification makes, as the crate's usage example
/// shows. `try_sign` fails only when the rejection-sampling loop runs out of nonces.
#[verifier::external_body]
pub(crate) fn mldsa87_sign(seed: &[u8], msg: &[u8]) -> (r: Option<Vec<u8>>)
    requires
        seed@.len() == 32,
    ensures
        match r {
            Some(sig) => mldsa_signature(MlDsaLevel::MlDsa87, seed@, msg@) == Some(sig@),
            None => mldsa_signature(MlDsaLevel::MlDsa87, seed@, msg@) is None,
        },
        r matches Some(sig) ==> {
            &&& sig@.len() == 4627
            &&& mldsa_verifying_key(MlDsaLevel::MlDsa87, seed@).len() == 2592
            &&& mldsa_signature_decodes(MlDsaLevel::MlDsa87, sig@)
            &&& mldsa_verifies(
                MlDsaLevel::MlDsa87,
                mldsa_verifying_key(MlDsaLevel::MlDsa87, seed@),
                sig@,
                msg@,
            )
        },
{
    let sk = ml_dsa::SigningKey::<ml_dsa::MlDsa87>::from_seed(seed.try_into().unwrap());
    match sk.try_sign(msg) {
        Ok(sig) => Some(sig.encode().to_vec()),
        Err(_) => None,
    }
}

/// `VerifyingKey::<MlDsa87>::decode` and `Signature::<MlDsa87>::decode` of the encodings,
/// then `Verifier::verify`: `None` when the signature does not decode, else whether
/// it verifies.
#[verifier::external_body]
pub(crate) fn mldsa87_verify(vk: &[u8], sig: &[u8], msg: &[u8]) -> (r: Option<bool>)
    requires
        vk@.len() == 2592,
        sig@.len() == 4627,
    ensures
        r == (if mldsa_signature_decodes(MlDsaLevel::MlDsa87, sig@) {
            Some(mldsa_verifies(MlDsaLevel::MlDsa87, vk@, sig@, msg@))
        } else {
            None
        }),
{
    let key = ml_dsa::VerifyingKey::<ml_dsa::MlDsa87>::decode(vk.try_into().unwrap());
    match ml_dsa::Signature::<ml_dsa::MlDsa87>::decode(sig.try_into().unwrap()) {
        Some(s) => Some(key.verify(msg, &s).is_ok()),
        None => None,
    }
}

} // verus!
