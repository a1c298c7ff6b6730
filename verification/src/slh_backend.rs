//! The calls into `slh-dsa`, each behind a contract over byte strings.
//!
//! A signing key is encoded as sk_seed || sk_prf || pk_seed || pk_root (n bytes each)
//! and its verifying key as pk_seed || pk_root. Key generation draws from the
//! operating system (`rand_core::OsRng`), which panics only if that source fails.
use crate::slh::SlhDsaVariant;
use slh_dsa::signature::{Keypair, Signer, Verifier};
use vstd::prelude::*;

verus! {

/// The root pk_root of the top XMSS tree that `SigningKey::new` derives from sk_seed
/// and pk_seed (FIPS 205 `slh_keygen_internal`), for the parameter set `variant`.
pub uninterp spec fn slh_public_root(variant: SlhDsaVariant, sk_seed: Seq<u8>, pk_seed: Seq<u8>) -> Seq<u8>;

/// The encoded signature (`Signature::to_vec`) that `Signer::sign` of the decoded
/// signing key `sk` makes on `msg`: deterministic SLH-DSA with an empty context.
pub uninterp spec fn slh_signature(variant: SlhDsaVariant, sk: Seq<u8>, msg: Seq<u8>) -> Seq<u8>;

/// Whether `Verifier::verify` of the decoded verifying key `vk` accepts the decoded
/// signature `sig` on `msg` (empty context).
pub uninterp spec fn slh_verifies(variant: SlhDsaVariant, vk: Seq<u8>, sig: Seq<u8>, msg: Seq<u8>) -> bool;

/// The display text of `signature::Error::new()` (`signature` 2.3.0-pre.4, the
/// version `slh-dsa` 0.1.0 builds against), the error every failed `slh-dsa` decoding
/// returns.
#[verifier::external_body]
pub(crate) fn signature_error_text() -> (s: String)
    ensures
        s@ == "signature error"@,
{
    signature::Error::new().to_string()
}

/// `SigningKey::<Shake128f>::new(&mut OsRng)`, exported with `to_vec` as the signing key
/// (64 bytes) and the verifying key of `verifying_key()` (32 bytes), which is the
/// signing key's last 32 bytes; pk_root is derived from the seeds.
#[verifier::external_body]
pub(crate) fn slh_shake128f_generate() -> (r: (Vec<u8>, Vec<u8>))
    ensures
        r.0@.len() == 64,
        r.1@ == r.0@.subrange(32, 64),
        r.0@.subrange(48, 64) == slh_public_root(
            SlhDsaVariant::Shake128f,
            r.0@.subrange(0, 16),
            r.0@.subrange(32, 48),
        ),
{
    let sk = slh_dsa::SigningKey::<slh_dsa::Shake128f>::new(&mut rand_core::OsRng);
    (sk.to_vec(), sk.verifying_key().to_vec())
}

/// `SigningKey::<Shake128f>::try_from` (which accepts any 64 bytes), then `Signer::sign`
/// and `Signature::to_vec`. The signature is 17088 bytes long and, when the key's
/// pk_root is derived from its seeds, verifies on `msg` under the key's last 32 bytes
/// (FIPS 205 signing is exact, as the crate's usage example shows).
#[verifier::external_body]
pub(crate) fn slh_shake128f_sign(sk: &[u8], msg: &[u8]) -> (sig: Vec<u8>)
    requires
        sk@.len() == 64,
    ensures
        sig@ == slh_signature(SlhDsaVariant::Shake128f, sk@, msg@),
        sig@.len() == 17088,
        sk@.subrange(48, 64) == slh_public_root(
            SlhDsaVariant::Shake128f,
            sk@.subrange(0, 16),
            sk@.subrange(32, 48),
        ) ==> slh_verifies(
            SlhDsaVariant::Shake128f,
            sk@.subrange(32, 64),
            sig@,
            msg@,
        ),
{
    let key = slh_dsa::SigningKey::<slh_dsa::Shake128f>::try_from(sk).unwrap();
    key.sign(msg).to_vec()
}

/// `VerifyingKey::<Shake128f>::try_from` and `Signature::<Shake128f>::try_from` (which accept
/// any bytes of the right lengths), then `Verifier::verify`.
#[verifier::external_body]
pub(crate) fn slh_shake128f_verify(vk: &[u8], sig: &[u8], msg: &[u8]) -> (ok: bool)
    requires
        vk@.len() == 32,
        sig@.len() == 17088,
    ensures
        ok == slh_verifies(SlhDsaVariant::Shake128f, vk@, sig@, msg@),
{
    let key = slh_dsa::VerifyingKey::<slh_dsa::Shake128f>::try_from(vk).unwrap();
    let s = slh_dsa::Signature::<slh_dsa::Shake128f>::try_from(sig).unwrap();
    key.verify(msg, &s).is_ok()
}

/// `SigningKey::<Shake128s>::new(&mut OsRng)`, exported with `to_vec` as the signing key
/// (64 bytes) and the verifying key of `verifying_key()` (32 bytes), which is the
/// signing key's last 32 bytes; pk_root is derived from the seeds.
#[verifier::external_body]
pub(crate) fn slh_shake128s_generate() -> (r: (Vec<u8>, Vec<u8>))
    ensures
        r.0@.len() == 64,
        r.1@ == r.0@.subrange(32, 64),
        r.0@.subrange(48, 64) == slh_public_root(
            SlhDsaVariant::Shake128s,
            r.0@.subrange(0, 16),
            r.0@.subrange(32, 48),
        ),
{
    let sk = slh_dsa::SigningKey::<slh_dsa::Shake128s>::new(&mut rand_core::OsRng);
    (sk.to_vec(), sk.verifying_key().to_vec())
}

/// `SigningKey::<Shake128s>::try_from` (which accepts any 64 bytes), then `Signer::sign`
/// and `Signature::to_vec`. The signature is 7856 bytes long and, when the key's
/// pk_root is derived from its seeds, verifies on `msg` under the key's last 32 bytes
/// (FIPS 205 signing is exact, as the crate's usage example shows).
#[verifier::external_body]
pub(crate) fn slh_shake128s_sign(sk: &[u8], msg: &[u8]) -> (sig: Vec<u8>)
    requires
        sk@.len() == 64,
    ensures
        sig@ == slh_signature(SlhDsaVariant::Shake128s, sk@, msg@),
        sig@.len() == 7856,
        sk@.subrange(48, 64) == slh_public_root(
            SlhDsaVariant::Shake128s,
            sk@.subrange(0, 16),
            sk@.subrange(32, 48),
        ) ==> slh_verifies(
            SlhDsaVariant::Shake128s,
            sk@.subrange(32, 64),
            sig@,
            msg@,
        ),
{
    let key = slh_dsa::SigningKey::<slh_dsa::Shake128s>::try_from(sk).unwrap();
    key.sign(msg).to_vec()
}

/// `VerifyingKey::<Shake128s>::try_from` and `Signature::<Shake128s>::try_from` (which accept
/// any bytes of the right lengths), then `Verifier::verify`.
#[verifier::external_body]
pub(crate) fn slh_shake128s_verify(vk: &[u8], sig: &[u8], msg: &[u8]) -> (ok: bool)
    requires
        vk@.len() == 32,
        sig@.len() == 7856,
    ensures
        ok == slh_verifies(SlhDsaVariant::Shake128s, vk@, sig@, msg@),
{
    let key = slh_dsa::VerifyingKey::<slh_dsa::Shake128s>::try_from(vk).unwrap();
    let s = slh_dsa::Signature::<slh_dsa::Shake128s>::try_from(sig).unwrap();
    key.verify(msg, &s).is_ok()
}

/// `SigningKey::<Shake192f>::new(&mut OsRng)`, exported with `to_vec` as the signing key
/// (96 bytes) and the verifying key of `verifying_key()` (48 bytes), which is the
/// signing key's last 48 bytes; pk_root is derived from the seeds.
#[verifier::external_body]
pub(crate) fn slh_shake192f_generate() -> (r: (Vec<u8>, Vec<u8>))
    ensures
        r.0@.len() == 96,
        r.1@ == r.0@.subrange(48, 96),
        r.0@.subrange(72, 96) == slh_public_root(
            SlhDsaVariant::Shake192f,
            r.0@.subrange(0, 24),
            r.0@.subrange(48, 72),
        ),
{
    let sk = slh_dsa::SigningKey::<slh_dsa::Shake192f>::new(&mut rand_core::OsRng);
    (sk.to_vec(), sk.verifying_key().to_vec())
}

/// `SigningKey::<Shake192f>::try_from` (which accepts any 96 bytes), then `Signer::sign`
/// and `Signature::to_vec`. The signature is 35664 bytes long and, when the key's
/// pk_root is derived from its seeds, verifies on `msg` under the key's last 48 bytes
/// (FIPS 205 signing is exact, as the crate's usage example shows).
#[verifier::external_body]
pub(crate) fn slh_shake192f_sign(sk: &[u8], msg: &[u8]) -> (sig: Vec<u8>)
    requires
        sk@.len() == 96,
    ensures
        sig@ == slh_signature(SlhDsaVariant::Shake192f, sk@, msg@),
        sig@.len() == 35664,
        sk@.subrange(72, 96) == slh_public_root(
            SlhDsaVariant::Shake192f,
            sk@.subrange(0, 24),
            sk@.subrange(48, 72),
        ) ==> slh_verifies(
            SlhDsaVariant::Shake192f,
            sk@.subrange(48, 96),
            sig@,
            msg@,
        ),
{
    let key = slh_dsa::SigningKey::<slh_dsa::Shake192f>::try_from(sk).unwrap();
    key.sign(msg).to_vec()
}

/// `VerifyingKey::<Shake192f>::try_from` and `Signature::<Shake192f>::try_from` (which accept
/// any bytes of the right lengths), then `Verifier::verify`.
#[verifier::external_body]
pub(crate) fn slh_shake192f_verify(vk: &[u8], sig: &[u8], msg: &[u8]) -> (ok: bool)
    requires
        vk@.len() == 48,
        sig@.len() == 35664,
    ensures
        ok == slh_verifies(SlhDsaVariant::Shake192f, vk@, sig@, msg@),
{
    let key = slh_dsa::VerifyingKey::<slh_dsa::Shake192f>::try_from(vk).unwrap();
    let s = slh_dsa::Signature::<slh_dsa::Shake192f>::try_from(sig).unwrap();
    key.verify(msg, &s).is_ok()
}

/// `SigningKey::<Shake192s>::new(&mut OsRng)`, exported with `to_vec` as the signing key
/// (96 bytes) and the verifying key of `verifying_key()` (48 bytes), which is the
/// signing key's last 48 bytes; pk_root is derived from the seeds.
#[verifier::external_body]
pub(crate) fn slh_shake192s_generate() -> (r: (Vec<u8>, Vec<u8>))
    ensures
        r.0@.len() == 96,
        r.1@ == r.0@.subrange(48, 96),
        r.0@.subrange(72, 96) == slh_public_root(
            SlhDsaVariant::Shake192s,
            r.0@.subrange(0, 24),
            r.0@.subrange(48, 72),
        ),
{
    let sk = slh_dsa::SigningKey::<slh_dsa::Shake192s>::new(&mut rand_core::OsRng);
    (sk.to_vec(), sk.verifying_key().to_vec())
}

/// `SigningKey::<Shake192s>::try_from` (which accepts any 96 bytes), then `Signer::sign`
/// and `Signature::to_vec`. The signature is 16224 bytes long and, when the key's
/// pk_root is derived from its seeds, verifies on `msg` under the key's last 48 bytes
/// (FIPS 205 signing is exact, as the crate's usage example shows).
#[verifier::external_body]
pub(crate) fn slh_shake192s_sign(sk: &[u8], msg: &[u8]) -> (sig: Vec<u8>)
    requires
        sk@.len() == 96,
    ensures
        sig@ == slh_signature(SlhDsaVariant::Shake192s, sk@, msg@),
        sig@.len() == 16224,
        sk@.subrange(72, 96) == slh_public_root(
            SlhDsaVariant::Shake192s,
            sk@.subrange(0, 24),
            sk@.subrange(48, 72),
        ) ==> slh_verifies(
            SlhDsaVariant::Shake192s,
            sk@.subrange(48, 96),
            sig@,
            msg@,
        ),
{
    let key = slh_dsa::SigningKey::<slh_dsa::Shake192s>::try_from(sk).unwrap();
    key.sign(msg).to_vec()
}

/// `VerifyingKey::<Shake192s>::try_from` and `Signature::<Shake192s>::try_from` (which accept
/// any bytes of the right lengths), then `Verifier::verify`.
#[verifier::external_body]
pub(crate) fn slh_shake192s_verify(vk: &[u8], sig: &[u8], msg: &[u8]) -> (ok: bool)
    requires
        vk@.len() == 48,
        sig@.len() == 16224,
    ensures
        ok == slh_verifies(SlhDsaVariant::Shake192s, vk@, sig@, msg@),
{
    let key = slh_dsa::VerifyingKey::<slh_dsa::Shake192s>::try_from(vk).unwrap();
    let s = slh_dsa::Signature::<slh_dsa::Shake192s>::try_from(sig).unwrap();
    key.verify(msg, &s).is_ok()
}

/// `SigningKey::<Shake256f>::new(&mut OsRng)`, exported with `to_vec` as the signing key
/// (128 bytes) and the verifying key of `verifying_key()` (64 bytes), which is the
/// signing key's last 64 bytes; pk_root is derived from the seeds.
#[verifier::external_body]
pub(crate) fn slh_shake256f_generate() -> (r: (Vec<u8>, Vec<u8>))
    ensures
        r.0@.len() == 128,
        r.1@ == r.0@.subrange(64, 128),
        r.0@.subrange(96, 128) == slh_public_root(
            SlhDsaVariant::Shake256f,
            r.0@.subrange(0, 32),
            r.0@.subrange(64, 96),
        ),
{
    let sk = slh_dsa::SigningKey::<slh_dsa::Shake256f>::new(&mut rand_core::OsRng);
    (sk.to_vec(), sk.verifying_key().to_vec())
}

/// `SigningKey::<Shake256f>::try_from` (which accepts any 128 bytes), then `Signer::sign`
/// and `Signature::to_vec`. The signature is 49856 bytes long and, when the key's
/// pk_root is derived from its seeds, verifies on `msg` under the key's last 64 bytes
/// (FIPS 205 signing is exact, as the crate's usage example shows).
#[verifier::external_body]
pub(crate) fn slh_shake256f_sign(sk: &[u8], msg: &[u8]) -> (sig: Vec<u8>)
    requires
        sk@.len() == 128,
    ensures
        sig@ == slh_signature(SlhDsaVariant::Shake256f, sk@, msg@),
        sig@.len() == 49856,
        sk@.subrange(96, 128) == slh_public_root(
            SlhDsaVariant::Shake256f,
            sk@.subrange(0, 32),
            sk@.subrange(64, 96),
        ) ==> slh_verifies(
            SlhDsaVariant::Shake256f,
            sk@.subrange(64, 128),
            sig@,
            msg@,
        ),
{
    let key = slh_dsa::SigningKey::<slh_dsa::Shake256f>::try_from(sk).unwrap();
    key.sign(msg).to_vec()
}

/// `VerifyingKey::<Shake256f>::try_from` and `Signature::<Shake256f>::try_from` (which accept
/// any bytes of the right lengths), then `Verifier::verify`.
#[verifier::external_body]
pub(crate) fn slh_shake256f_verify(vk: &[u8], sig: &[u8], msg: &[u8]) -> (ok: bool)
    requires
        vk@.len() == 64,
        sig@.len() == 49856,
    ensures
        ok == slh_verifies(SlhDsaVariant::Shake256f, vk@, sig@, msg@),
{
    let key = slh_dsa::VerifyingKey::<slh_dsa::Shake256f>::try_from(vk).unwrap();
    let s = slh_dsa::Signature::<slh_dsa::Shake256f>::try_from(sig).unwrap();
    key.verify(msg, &s).is_ok()
}

/// `SigningKey::<Shake256s>::new(&mut OsRng)`, exported with `to_vec` as the signing key
/// (128 bytes) and the verifying key of `verifying_key()` (64 bytes), which is the
/// signing key's last 64 bytes; pk_root is derived from the seeds.
#[verifier::external_body]
pub(crate) fn slh_shake256s_generate() -> (r: (Vec<u8>, Vec<u8>))
    ensures
        r.0@.len() == 128,
        r.1@ == r.0@.subrange(64, 128),
        r.0@.subrange(96, 128) == slh_public_root(
            SlhDsaVariant::Shake256s,
            r.0@.subrange(0, 32),
            r.0@.subrange(64, 96),
        ),
{
    let sk = slh_dsa::SigningKey::<slh_dsa::Shake256s>::new(&mut rand_core::OsRng);
    (sk.to_vec(), sk.verifying_key().to_vec())
}

/// `SigningKey::<Shake256s>::try_from` (which accepts any 128 bytes), then `Signer::sign`
/// and `Signature::to_vec`. The signature is 29792 bytes long and, when the key's
/// pk_root is derived from its seeds, verifies on `msg` under the key's last 64 bytes
/// (FIPS 205 signing is exact, as the crate's usage example shows).
#[verifier::external_body]
pub(crate) fn slh_shake256s_sign(sk: &[u8], msg: &[u8]) -> (sig: Vec<u8>)
    requires
        sk@.len() == 128,
    ensures
        sig@ == slh_signature(SlhDsaVariant::Shake256s, sk@, msg@),
        sig@.len() == 29792,
        sk@.subrange(96, 128) == slh_public_root(
            SlhDsaVariant::Shake256s,
            sk@.subrange(0, 32),
            sk@.subrange(64, 96),
        ) ==> slh_verifies(
            SlhDsaVariant::Shake256s,
            sk@.subrange(64, 128),
            sig@,
            msg@,
        ),
{
    let key = slh_dsa::SigningKey::<slh_dsa::Shake256s>::try_from(sk).unwrap();
    key.sign(msg).to_vec()
}

/// `VerifyingKey::<Shake256s>::try_from` and `Signature::<Shake256s>::try_from` (which accept
/// any bytes of the right lengths), then `Verifier::verify`.
#[verifier::external_body]
pub(crate) fn slh_shake256s_verify(vk: &[u8], sig: &[u8], msg: &[u8]) -> (ok: bool)
    requires
        vk@.len() == 64,
        sig@.len() == 29792,
    ensures
        ok == slh_verifies(SlhDsaVariant::Shake256s, vk@, sig@, msg@),
{
    let key = slh_dsa::VerifyingKey::<slh_dsa::Shake256s>::try_from(vk).unwrap();
    let s = slh_dsa::Signature::<slh_dsa::Shake256s>::try_from(sig).unwrap();
    key.verify(msg, &s).is_ok()
}

/// `SigningKey::<Sha2_128f>::new(&mut OsRng)`, exported with `to_vec` as the signing key
/// (64 bytes) and the verifying key of `verifying_key()` (32 bytes), which is the
/// signing key's last 32 bytes; pk_root is derived from the seeds.
#[verifier::external_body]
pub(crate) fn slh_sha2_128f_generate() -> (r: (Vec<u8>, Vec<u8>))
    ensures
        r.0@.len() == 64,
        r.1@ == r.0@.subrange(32, 64),
        r.0@.subrange(48, 64) == slh_public_root(
            SlhDsaVariant::Sha2_128f,
            r.0@.subrange(0, 16),
            r.0@.subrange(32, 48),
        ),
{
    let sk = slh_dsa::SigningKey::<slh_dsa::Sha2_128f>::new(&mut rand_core::OsRng);
    (sk.to_vec(), sk.verifying_key().to_vec())
}

/// `SigningKey::<Sha2_128f>::try_from` (which accepts any 64 bytes), then `Signer::sign`
/// and `Signature::to_vec`. The signature is 17088 bytes long and, when the key's
/// pk_root is derived from its seeds, verifies on `msg` under the key's last 32 bytes
/// (FIPS 205 signing is exact, as the crate's usage example shows).
#[verifier::external_body]
pub(crate) fn slh_sha2_128f_sign(sk: &[u8], msg: &[u8]) -> (sig: Vec<u8>)
    requires
        sk@.len() == 64,
    ensures
        sig@ == slh_signature(SlhDsaVariant::Sha2_128f, sk@, msg@),
        sig@.len() == 17088,
        sk@.subrange(48, 64) == slh_public_root(
            SlhDsaVariant::Sha2_128f,
            sk@.subrange(0, 16),
            sk@.subrange(32, 48),
        ) ==> slh_verifies(
            SlhDsaVariant::Sha2_128f,
            sk@.subrange(32, 64),
            sig@,
            msg@,
        ),
{
    let key = slh_dsa::SigningKey::<slh_dsa::Sha2_128f>::try_from(sk).unwrap();
    key.sign(msg).to_vec()
}

/// `VerifyingKey::<Sha2_128f>::try_from` and `Signature::<Sha2_128f>::try_from` (which accept
/// any bytes of the right lengths), then `Verifier::verify`.
#[verifier::external_body]
pub(crate) fn slh_sha2_128f_verify(vk: &[u8], sig: &[u8], msg: &[u8]) -> (ok: bool)
    requires
        vk@.len() == 32,
        sig@.len() == 17088,
    ensures
        ok == slh_verifies(SlhDsaVariant::Sha2_128f, vk@, sig@, msg@),
{
    let key = slh_dsa::VerifyingKey::<slh_dsa::Sha2_128f>::try_from(vk).unwrap();
    let s = slh_dsa::Signature::<slh_dsa::Sha2_128f>::try_from(sig).unwrap();
    key.verify(msg, &s).is_ok()
}

/// `SigningKey::<Sha2_128s>::new(&mut OsRng)`, exported with `to_vec` as the signing key
/// (64 bytes) and the verifying key of `verifying_key()` (32 bytes), which is the
/// signing key's last 32 bytes; pk_root is derived from the seeds.
#[verifier::external_body]
pub(crate) fn slh_sha2_128s_generate() -> (r: (Vec<u8>, Vec<u8>))
    ensures
        r.0@.len() == 64,
        r.1@ == r.0@.subrange(32, 64),
        r.0@.subrange(48, 64) == slh_public_root(
            SlhDsaVariant::Sha2_128s,
            r.0@.subrange(0, 16),
            r.0@.subrange(32, 48),
        ),
{
    let sk = slh_dsa::SigningKey::<slh_dsa::Sha2_128s>::new(&mut rand_core::OsRng);
    (sk.to_vec(), sk.verifying_key().to_vec())
}

/// `SigningKey::<Sha2_128s>::try_from` (which accepts any 64 bytes), then `Signer::sign`
/// and `Signature::to_vec`. The signature is 7856 bytes long and, when the key's
/// pk_root is derived from its seeds, verifies on `msg` under the key's last 32 bytes
/// (FIPS 205 signing is exact, as the crate's usage example shows).
#[verifier::external_body]
pub(crate) fn slh_sha2_128s_sign(sk: &[u8], msg: &[u8]) -> (sig: Vec<u8>)
    requires
        sk@.len() == 64,
    ensures
        sig@ == slh_signature(SlhDsaVariant::Sha2_128s, sk@, msg@),
        sig@.len() == 7856,
        sk@.subrange(48, 64) == slh_public_root(
            SlhDsaVariant::Sha2_128s,
            sk@.subrange(0, 16),
            sk@.subrange(32, 48),
        ) ==> slh_verifies(
            SlhDsaVariant::Sha2_128s,
            sk@.subrange(32, 64),
            sig@,
            msg@,
        ),
{
    let key = slh_dsa::SigningKey::<slh_dsa::Sha2_128s>::try_from(sk).unwrap();
    key.sign(msg).to_vec()
}

/// `VerifyingKey::<Sha2_128s>::try_from` and `Signature::<Sha2_128s>::try_from` (which accept
/// any bytes of the right lengths), then `Verifier::verify`.
#[verifier::external_body]
pub(crate) fn slh_sha2_128s_verify(vk: &[u8], sig: &[u8], msg: &[u8]) -> (ok: bool)
    requires
        vk@.len() == 32,
        sig@.len() == 7856,
    ensures
        ok == slh_verifies(SlhDsaVariant::Sha2_128s, vk@, sig@, msg@),
{
    let key = slh_dsa::VerifyingKey::<slh_dsa::Sha2_128s>::try_from(vk).unwrap();
    let s = slh_dsa::Signature::<slh_dsa::Sha2_128s>::try_from(sig).unwrap();
    key.verify(msg, &s).is_ok()
}

/// `SigningKey::<Sha2_192f>::new(&mut OsRng)`, exported with `to_vec` as the signing key
/// (96 bytes) and the verifying key of `verifying_key()` (48 bytes), which is the
/// signing key's last 48 bytes; pk_root is derived from the seeds.
#[verifier::external_body]
pub(crate) fn slh_sha2_192f_generate() -> (r: (Vec<u8>, Vec<u8>))
    ensures
        r.0@.len() == 96,
        r.1@ == r.0@.subrange(48, 96),
        r.0@.subrange(72, 96) == slh_public_root(
            SlhDsaVariant::Sha2_192f,
            r.0@.subrange(0, 24),
            r.0@.subrange(48, 72),
        ),
{
    let sk = slh_dsa::SigningKey::<slh_dsa::Sha2_192f>::new(&mut rand_core::OsRng);
    (sk.to_vec(), sk.verifying_key().to_vec())
}

/// `SigningKey::<Sha2_192f>::try_from` (which accepts any 96 bytes), then `Signer::sign`
/// and `Signature::to_vec`. The signature is 35664 bytes long and, when the key's
/// pk_root is derived from its seeds, verifies on `msg` under the key's last 48 bytes
/// (FIPS 205 signing is exact, as the crate's usage example shows).
#[verifier::external_body]
pub(crate) fn slh_sha2_192f_sign(sk: &[u8], msg: &[u8]) -> (sig: Vec<u8>)
    requires
        sk@.len() == 96,
    ensures
        sig@ == slh_signature(SlhDsaVariant::Sha2_192f, sk@, msg@),
        sig@.len() == 35664,
        sk@.subrange(72, 96) == slh_public_root(
            SlhDsaVariant::Sha2_192f,
            sk@.subrange(0, 24),
            sk@.subrange(48, 72),
        ) ==> slh_verifies(
            SlhDsaVariant::Sha2_192f,
            sk@.subrange(48, 96),
            sig@,
            msg@,
        ),
{
    let key = slh_dsa::SigningKey::<slh_dsa::Sha2_192f>::try_from(sk).unwrap();
    key.sign(msg).to_vec()
}

/// `VerifyingKey::<Sha2_192f>::try_from` and `Signature::<Sha2_192f>::try_from` (which accept
/// any bytes of the right lengths), then `Verifier::verify`.
#[verifier::external_body]
pub(crate) fn slh_sha2_192f_verify(vk: &[u8], sig: &[u8], msg: &[u8]) -> (ok: bool)
    requires
        vk@.len() == 48,
        sig@.len() == 35664,
    ensures
        ok == slh_verifies(SlhDsaVariant::Sha2_192f, vk@, sig@, msg@),
{
    let key = slh_dsa::VerifyingKey::<slh_dsa::Sha2_192f>::try_from(vk).unwrap();
    let s = slh_dsa::Signature::<slh_dsa::Sha2_192f>::try_from(sig).unwrap();
    key.verify(msg, &s).is_ok()
}

/// `SigningKey::<Sha2_192s>::new(&mut OsRng)`, exported with `to_vec` as the signing key
/// (96 bytes) and the verifying key of `verifying_key()` (48 bytes), which is the
/// signing key's last 48 bytes; pk_root is derived from the seeds.
#[verifier::external_body]
pub(crate) fn slh_sha2_192s_generate() -> (r: (Vec<u8>, Vec<u8>))
    ensures
        r.0@.len() == 96,
        r.1@ == r.0@.subrange(48, 96),
        r.0@.subrange(72, 96) == slh_public_root(
            SlhDsaVariant::Sha2_192s,
            r.0@.subrange(0, 24),
            r.0@.subrange(48, 72),
        ),
{
    let sk = slh_dsa::SigningKey::<slh_dsa::Sha2_192s>::new(&mut rand_core::OsRng);
    (sk.to_vec(), sk.verifying_key().to_vec())
}

/// `SigningKey::<Sha2_192s>::try_from` (which accepts any 96 bytes), then `Signer::sign`
/// and `Signature::to_vec`. The signature is 16224 bytes long and, when the key's
/// pk_root is derived from its seeds, verifies on `msg` under the key's last 48 bytes
/// (FIPS 205 signing is exact, as the crate's usage example shows).
#[verifier::external_body]
pub(crate) fn slh_sha2_192s_sign(sk: &[u8], msg: &[u8]) -> (sig: Vec<u8>)
    requires
        sk@.len() == 96,
    ensures
        sig@ == slh_signature(SlhDsaVariant::Sha2_192s, sk@, msg@),
        sig@.len() == 16224,
        sk@.subrange(72, 96) == slh_public_root(
            SlhDsaVariant::Sha2_192s,
            sk@.subrange(0, 24),
            sk@.subrange(48, 72),
        ) ==> slh_verifies(
            SlhDsaVariant::Sha2_192s,
            sk@.subrange(48, 96),
            sig@,
            msg@,
        ),
{
    let key = slh_dsa::SigningKey::<slh_dsa::Sha2_192s>::try_from(sk).unwrap();
    key.sign(msg).to_vec()
}

/// `VerifyingKey::<Sha2_192s>::try_from` and `Signature::<Sha2_192s>::try_from` (which accept
/// any bytes of the right lengths), then `Verifier::verify`.
#[verifier::external_body]
pub(crate) fn slh_sha2_192s_verify(vk: &[u8], sig: &[u8], msg: &[u8]) -> (ok: bool)
    requires
        vk@.len() == 48,
        sig@.len() == 16224,
    ensures
        ok == slh_verifies(SlhDsaVariant::Sha2_192s, vk@, sig@, msg@),
{
    let key = slh_dsa::VerifyingKey::<slh_dsa::Sha2_192s>::try_from(vk).unwrap();
    let s = slh_dsa::Signature::<slh_dsa::Sha2_192s>::try_from(sig).unwrap();
    key.verify(msg, &s).is_ok()
}

/// `SigningKey::<Sha2_256f>::new(&mut OsRng)`, exported with `to_vec` as the signing key
/// (128 bytes) and the verifying key of `verifying_key()` (64 bytes), which is the
/// signing key's last 64 bytes; pk_root is derived from the seeds.
#[verifier::external_body]
pub(crate) fn slh_sha2_256f_generate() -> (r: (Vec<u8>, Vec<u8>))
    ensures
        r.0@.len() == 128,
        r.1@ == r.0@.subrange(64, 128),
        r.0@.subrange(96, 128) == slh_public_root(
            SlhDsaVariant::Sha2_256f,
            r.0@.subrange(0, 32),
            r.0@.subrange(64, 96),
        ),
{
    let sk = slh_dsa::SigningKey::<slh_dsa::Sha2_256f>::new(&mut rand_core::OsRng);
    (sk.to_vec(), sk.verifying_key().to_vec())
}

/// `SigningKey::<Sha2_256f>::try_from` (which accepts any 128 bytes), then `Signer::sign`
/// and `Signature::to_vec`. The signature is 49856 bytes long and, when the key's
/// pk_root is derived from its seeds, verifies on `msg` under the key's last 64 bytes
/// (FIPS 205 signing is exact, as the crate's usage example shows).
#[verifier::external_body]
pub(crate) fn slh_sha2_256f_sign(sk: &[u8], msg: &[u8]) -> (sig: Vec<u8>)
    requires
        sk@.len() == 128,
    ensures
        sig@ == slh_signature(SlhDsaVariant::Sha2_256f, sk@, msg@),
        sig@.len() == 49856,
        sk@.subrange(96, 128) == slh_public_root(
            SlhDsaVariant::Sha2_256f,
            sk@.subrange(0, 32),
            sk@.subrange(64, 96),
        ) ==> slh_verifies(
            SlhDsaVariant::Sha2_256f,
            sk@.subrange(64, 128),
            sig@,
            msg@,
        ),
{
    let key = slh_dsa::SigningKey::<slh_dsa::Sha2_256f>::try_from(sk).unwrap();
    key.sign(msg).to_vec()
}

/// `VerifyingKey::<Sha2_256f>::try_from` and `Signature::<Sha2_256f>::try_from` (which accept
/// any bytes of the right lengths), then `Verifier::verify`.
#[verifier::external_body]
pub(crate) fn slh_sha2_256f_verify(vk: &[u8], sig: &[u8], msg: &[u8]) -> (ok: bool)
    requires
        vk@.len() == 64,
        sig@.len() == 49856,
    ensures
        ok == slh_verifies(SlhDsaVariant::Sha2_256f, vk@, sig@, msg@),
{
    let key = slh_dsa::VerifyingKey::<slh_dsa::Sha2_256f>::try_from(vk).unwrap();
    let s = slh_dsa::Signature::<slh_dsa::Sha2_256f>::try_from(sig).unwrap();
    key.verify(msg, &s).is_ok()
}

/// `SigningKey::<Sha2_256s>::new(&mut OsRng)`, exported with `to_vec` as the signing key
/// (128 bytes) and the verifying key of `verifying_key()` (64 bytes), which is the
/// signing key's last 64 bytes; pk_root is derived from the seeds.
#[verifier::external_body]
pub(crate) fn slh_sha2_256s_generate() -> (r: (Vec<u8>, Vec<u8>))
    ensures
        r.0@.len() == 128,
        r.1@ == r.0@.subrange(64, 128),
        r.0@.subrange(96, 128) == slh_public_root(
            SlhDsaVariant::Sha2_256s,
            r.0@.subrange(0, 32),
            r.0@.subrange(64, 96),
        ),
{
    let sk = slh_dsa::SigningKey::<slh_dsa::Sha2_256s>::new(&mut rand_core::OsRng);
    (sk.to_vec(), sk.verifying_key().to_vec())
}

/// `SigningKey::<Sha2_256s>::try_from` (which accepts any 128 bytes), then `Signer::sign`
/// and `Signature::to_vec`. The signature is 29792 bytes long and, when the key's
/// pk_root is derived from its seeds, verifies on `msg` under the key's last 64 bytes
/// (FIPS 205 signing is exact, as the crate's usage example shows).
#[verifier::external_body]
pub(crate) fn slh_sha2_256s_sign(sk: &[u8], msg: &[u8]) -> (sig: Vec<u8>)
    requires
        sk@.len() == 128,
    ensures
        sig@ == slh_signature(SlhDsaVariant::Sha2_256s, sk@, msg@),
        sig@.len() == 29792,
        sk@.subrange(96, 128) == slh_public_root(
            SlhDsaVariant::Sha2_256s,
            sk@.subrange(0, 32),
            sk@.subrange(64, 96),
        ) ==> slh_verifies(
            SlhDsaVariant::Sha2_256s,
            sk@.subrange(64, 128),
            sig@,
            msg@,
        ),
{
    let key = slh_dsa::SigningKey::<slh_dsa::Sha2_256s>::try_from(sk).unwrap();
    key.sign(msg).to_vec()
}

/// `VerifyingKey::<Sha2_256s>::try_from` and `Signature::<Sha2_256s>::try_from` (which accept
/// any bytes of the right lengths), then `Verifier::verify`.
#[verifier::external_body]
pub(crate) fn slh_sha2_256s_verify(vk: &[u8], sig: &[u8], msg: &[u8]) -> (ok: bool)
    requires
        vk@.len() == 64,
        sig@.len() == 29792,
    ensures
        ok == slh_verifies(SlhDsaVariant::Sha2_256s, vk@, sig@, msg@),
{
    let key = slh_dsa::VerifyingKey::<slh_dsa::Sha2_256s>::try_from(vk).unwrap();
    let s = slh_dsa::Signature::<slh_dsa::Sha2_256s>::try_from(sig).unwrap();
    key.verify(msg, &s).is_ok()
}

} // verus!
