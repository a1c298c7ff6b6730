//! Properties that span several operations of the library.
use crate::kem::{
    decapsulation, ek_accepted, ek_import, encapsulation_key_of, encapsulation_outcome,
    encapsulation_with_result, generated_keypair, seed_import, shared_secret, KemAlgorithm,
};
use crate::kem_backend::{
    mlkem_encapsulation, mlkem_encapsulation_key, mlkem_shared_secret, xwing_encapsulation,
    xwing_encapsulation_key, xwing_shared_secret,
};
use crate::mldsa_backend::{
    mldsa_signature, mldsa_signature_decodes, mldsa_verifies, mldsa_verifying_key,
};
use crate::slh::{slh_sign_result, slh_verify_result};
use crate::slh_backend::{slh_signature, slh_verifies};
use crate::sig::{
    mldsa_generated, mldsa_keypair_from_seed, mldsa_sign_result, mldsa_verify_result, MlDsaLevel,
};
use crate::slh::{hash_choice, key_import, selected, speed_choice, slh_generated, variant_for_names, SlhDsaVariant};
use crate::text::{
    ascii_lowercase, is_ascii_text, lemma_ascii_lowercase_idempotent,
    lemma_lowercase_of_lowercase_ascii, text_lowercase,
};
use vstd::prelude::*;

verus! {

/// Encapsulating to the encapsulation key of a generated keypair always succeeds:
/// whatever randomness is drawn, the result is a 32-byte shared secret and a
/// ciphertext of the algorithm's length.
pub proof fn law_generated_key_encapsulates(
    alg: KemAlgorithm,
    seed: Seq<u8>,
    ek: Seq<u8>,
    r: Result<(Vec<u8>, Vec<u8>), String>,
)
    requires
        generated_keypair(alg, seed, ek),
        encapsulation_outcome(alg, ek, r),
    ensures
        r matches Ok((ss, ct)) && ss@.len() == 32 && ct@.len() == alg.ct_size(),
{
}

/// Decapsulating with the seed of a generated keypair fails only on a ciphertext of
/// the wrong length; otherwise it yields the shared secret of that seed and
/// ciphertext.
pub proof fn law_generated_seed_decapsulates(
    alg: KemAlgorithm,
    seed: Seq<u8>,
    ek: Seq<u8>,
    ct: Seq<u8>,
)
    requires
        generated_keypair(alg, seed, ek),
    ensures
        ct.len() == alg.ct_size() ==> decapsulation(alg, seed, ct) == Ok::<Seq<u8>, Seq<char>>(
            shared_secret(alg, seed, ct),
        ),
        ct.len() != alg.ct_size() ==> decapsulation(alg, seed, ct) == Err::<Seq<u8>, Seq<char>>(
            "Invalid ciphertext length"@,
        ),
{
}

/// The exported bytes of a generated KEM keypair import back unchanged: the seed as a
/// decapsulation key and the encoding as an encapsulation key.
pub proof fn law_kem_keypair_restores(alg: KemAlgorithm, seed: Seq<u8>, ek: Seq<u8>)
    requires
        generated_keypair(alg, seed, ek),
    ensures
        seed_import(alg, seed) == Ok::<Seq<u8>, Seq<char>>(seed),
        ek_import(alg, ek) == Ok::<Seq<u8>, Seq<char>>(ek),
{
}

/// Restoring an ML-DSA keypair from the seed of a generated keypair gives back the
/// same seed and the same verifying key.
pub proof fn law_mldsa_keypair_from_seed_restores(level: MlDsaLevel, seed: Seq<u8>, vk: Seq<u8>)
    requires
        mldsa_generated(level, seed, vk),
    ensures
        mldsa_keypair_from_seed(level, seed) == Ok::<(Seq<u8>, Seq<u8>), Seq<char>>((seed, vk)),
{
}

/// The exported bytes of a generated SLH-DSA keypair import back unchanged into the
/// same parameter set.
pub proof fn law_slh_keypair_restores(variant: SlhDsaVariant, sk: Seq<u8>, vk: Seq<u8>)
    requires
        slh_generated(variant, sk, vk),
    ensures
        key_import(variant.sk_size(), sk) == Ok::<Seq<u8>, Seq<char>>(sk),
        key_import(variant.vk_size(), vk) == Ok::<Seq<u8>, Seq<char>>(vk),
{
}

/// Parameter-set names are matched without regard to case: two spellings with the
/// same lowercase forms select the same parameter set, or are both refused (the
/// message quotes the name as given).
pub proof fn law_parameter_names_ignore_case(
    hash1: Seq<char>,
    speed1: Seq<char>,
    hash2: Seq<char>,
    speed2: Seq<char>,
)
    requires
        text_lowercase(hash1) == text_lowercase(hash2),
        text_lowercase(speed1) == text_lowercase(speed2),
    ensures
        selected(variant_for_names(hash1, speed1)) == selected(variant_for_names(hash2, speed2)),
{
}

/// Passing the lowercase forms of ASCII names selects what the names themselves
/// select.
pub proof fn law_lowercased_names_select_alike(hash: Seq<char>, speed: Seq<char>)
    requires
        is_ascii_text(hash),
        is_ascii_text(speed),
    ensures
        selected(variant_for_names(ascii_lowercase(hash), ascii_lowercase(speed))) == selected(
            variant_for_names(hash, speed),
        ),
{
    lemma_ascii_lowercase_idempotent(hash);
    lemma_ascii_lowercase_idempotent(speed);
}

/// A name that selects a parameter set is matched through a lowercase name, which
/// selects the same set when given directly: lowering the names once more changes
/// nothing.
pub proof fn law_selected_names_are_lowercase(hash: Seq<char>, speed: Seq<char>)
    ensures
        selected(variant_for_names(hash, speed)) is Some ==> selected(
            variant_for_names(text_lowercase(hash), text_lowercase(speed)),
        ) == selected(variant_for_names(hash, speed)),
{
    if selected(variant_for_names(hash, speed)) is Some {
        lemma_accepted_names_are_lowercase(text_lowercase(hash), text_lowercase(speed));
    }
}

/// Each accepted (lowercase) name is its own lowercase form.
proof fn lemma_accepted_names_are_lowercase(hash: Seq<char>, speed: Seq<char>)
    requires
        speed_choice(speed) is Some,
        hash_choice(hash) is Some,
    ensures
        text_lowercase(hash) == hash,
        text_lowercase(speed) == speed,
{
    reveal_strlit("fast");
    reveal_strlit("f");
    reveal_strlit("small");
    reveal_strlit("s");
    reveal_strlit("compact");
    reveal_strlit("shake128");
    reveal_strlit("shake192");
    reveal_strlit("shake256");
    reveal_strlit("sha2-128");
    reveal_strlit("sha2_128");
    reveal_strlit("sha2128");
    reveal_strlit("sha2-192");
    reveal_strlit("sha2_192");
    reveal_strlit("sha2192");
    reveal_strlit("sha2-256");
    reveal_strlit("sha2_256");
    reveal_strlit("sha2256");
    lemma_lowercase_of_lowercase_ascii(hash);
    lemma_lowercase_of_lowercase_ascii(speed);
}

/// The speed names "f" and "fast" select alike, and so do "s", "compact" and
/// "small", whatever the hash name.
pub proof fn law_speed_aliases(hash: Seq<char>)
    ensures
        selected(variant_for_names(hash, "f"@)) == selected(variant_for_names(hash, "fast"@)),
        selected(variant_for_names(hash, "s"@)) == selected(variant_for_names(hash, "small"@)),
        selected(variant_for_names(hash, "compact"@)) == selected(
            variant_for_names(hash, "small"@),
        ),
{
    reveal_strlit("fast");
    reveal_strlit("f");
    reveal_strlit("small");
    reveal_strlit("s");
    reveal_strlit("compact");
    lemma_speed_name_chars();
    lemma_lowercase_of_lowercase_ascii("f"@);
    lemma_lowercase_of_lowercase_ascii("fast"@);
    lemma_lowercase_of_lowercase_ascii("s"@);
    lemma_lowercase_of_lowercase_ascii("small"@);
    lemma_lowercase_of_lowercase_ascii("compact"@);
}

/// The SHA-2 hash names may be written with "-", "_" or nothing after "sha2": the three
/// spellings select alike, whatever the speed name.
pub proof fn law_sha2_spellings(speed: Seq<char>)
    ensures
        selected(variant_for_names("sha2_128"@, speed)) == selected(
            variant_for_names("sha2-128"@, speed),
        ),
        selected(variant_for_names("sha2128"@, speed)) == selected(
            variant_for_names("sha2-128"@, speed),
        ),
        selected(variant_for_names("sha2_192"@, speed)) == selected(
            variant_for_names("sha2-192"@, speed),
        ),
        selected(variant_for_names("sha2192"@, speed)) == selected(
            variant_for_names("sha2-192"@, speed),
        ),
        selected(variant_for_names("sha2_256"@, speed)) == selected(
            variant_for_names("sha2-256"@, speed),
        ),
        selected(variant_for_names("sha2256"@, speed)) == selected(
            variant_for_names("sha2-256"@, speed),
        ),
{
    reveal_strlit("shake128");
    reveal_strlit("shake192");
    reveal_strlit("shake256");
    reveal_strlit("sha2-128");
    reveal_strlit("sha2_128");
    reveal_strlit("sha2128");
    reveal_strlit("sha2-192");
    reveal_strlit("sha2_192");
    reveal_strlit("sha2192");
    reveal_strlit("sha2-256");
    reveal_strlit("sha2_256");
    reveal_strlit("sha2256");
    lemma_hash_name_chars();
    lemma_lowercase_of_lowercase_ascii("sha2-128"@);
    lemma_lowercase_of_lowercase_ascii("sha2_128"@);
    lemma_lowercase_of_lowercase_ascii("sha2128"@);
    lemma_lowercase_of_lowercase_ascii("sha2-192"@);
    lemma_lowercase_of_lowercase_ascii("sha2_192"@);
    lemma_lowercase_of_lowercase_ascii("sha2192"@);
    lemma_lowercase_of_lowercase_ascii("sha2-256"@);
    lemma_lowercase_of_lowercase_ascii("sha2_256"@);
    lemma_lowercase_of_lowercase_ascii("sha2256"@);
}

/// Decapsulation hands the ciphertext, as given, to the KEM crate: for a seed and a
/// ciphertext of the algorithm's lengths the result is the crate's shared secret for
/// exactly that seed and that ciphertext (ML-KEM's `decapsulate` of the key restored
/// from the seed, or X-Wing's), with nothing done to either.
pub proof fn law_decapsulation_is_the_crates(alg: KemAlgorithm, seed: Seq<u8>, ct: Seq<u8>)
    requires
        seed.len() == alg.seed_size(),
        ct.len() == alg.ct_size(),
    ensures
        alg == KemAlgorithm::XWing ==> decapsulation(alg, seed, ct) == Ok::<Seq<u8>, Seq<char>>(
            xwing_shared_secret(seed, ct),
        ),
        alg != KemAlgorithm::XWing ==> decapsulation(alg, seed, ct) == Ok::<Seq<u8>, Seq<char>>(
            mlkem_shared_secret(alg, seed, ct),
        ),
{
}

/// Encapsulation with given randomness returns the KEM crate's deterministic
/// encapsulation for that key and that randomness, unchanged: the shared secret and
/// the ciphertext are exactly the pair that `encapsulate_deterministic` produces.
pub proof fn law_encapsulation_is_the_crates(alg: KemAlgorithm, ek: Seq<u8>, m: Seq<u8>)
    requires
        ek_accepted(alg, ek),
    ensures
        alg == KemAlgorithm::XWing ==> encapsulation_with_result(alg, ek, m) == Ok::<
            (Seq<u8>, Seq<u8>),
            Seq<char>,
        >(xwing_encapsulation(ek, m)),
        alg != KemAlgorithm::XWing ==> encapsulation_with_result(alg, ek, m) == Ok::<
            (Seq<u8>, Seq<u8>),
            Seq<char>,
        >(mlkem_encapsulation(alg, ek, m)),
{
}

/// The ciphertext that encapsulation to a generated key returns is the one the crate
/// decapsulates: decapsulating it with the generated seed yields the crate's shared
/// secret for the seed and exactly that ciphertext (no transformation on either side).
pub proof fn law_encapsulated_ciphertext_reaches_decapsulation(
    alg: KemAlgorithm,
    seed: Seq<u8>,
    ek: Seq<u8>,
    m: Seq<u8>,
    ss: Seq<u8>,
    ct: Seq<u8>,
)
    requires
        generated_keypair(alg, seed, ek),
        encapsulation_with_result(alg, ek, m) == Ok::<(Seq<u8>, Seq<u8>), Seq<char>>((ss, ct)),
        ct.len() == alg.ct_size(),
    ensures
        alg == KemAlgorithm::XWing ==> (ss, ct) == xwing_encapsulation(xwing_encapsulation_key(seed), m)
            && decapsulation(alg, seed, ct) == Ok::<Seq<u8>, Seq<char>>(
            xwing_shared_secret(seed, xwing_encapsulation(xwing_encapsulation_key(seed), m).1),
        ),
        alg != KemAlgorithm::XWing ==> (ss, ct) == mlkem_encapsulation(
            alg,
            mlkem_encapsulation_key(alg, seed),
            m,
        ) && decapsulation(alg, seed, ct) == Ok::<Seq<u8>, Seq<char>>(
            mlkem_shared_secret(alg, seed, mlkem_encapsulation(alg, mlkem_encapsulation_key(alg, seed), m).1),
        ),
{
}

/// The encapsulation key of a generated KEM keypair is the one the KEM crate derives
/// from the generated seed.
pub proof fn law_generated_key_is_derived_from_seed(alg: KemAlgorithm, seed: Seq<u8>, ek: Seq<u8>)
    requires
        generated_keypair(alg, seed, ek),
    ensures
        alg == KemAlgorithm::XWing ==> ek == xwing_encapsulation_key(seed),
        alg != KemAlgorithm::XWing ==> ek == mlkem_encapsulation_key(alg, seed),
{
}

/// ML-DSA signing signs the message as given: for a 32-byte seed, a signature returned
/// is the crate's deterministic signature of exactly that message by the key derived
/// from that seed, and signing fails only when the crate produces no signature.
pub proof fn law_mldsa_signs_the_message_as_given(level: MlDsaLevel, seed: Seq<u8>, msg: Seq<u8>)
    requires
        seed.len() == 32,
    ensures
        mldsa_signature(level, seed, msg) matches Some(sig) ==> mldsa_sign_result(level, seed, msg)
            == Ok::<Seq<u8>, Seq<char>>(sig),
        mldsa_signature(level, seed, msg) is None ==> mldsa_sign_result(level, seed, msg) is Err,
{
}

/// ML-DSA verification checks the message as given: for a key and a signature of the
/// right lengths, a signature that decodes is accepted exactly when the crate's
/// verification accepts it on exactly that message under exactly that key.
pub proof fn law_mldsa_verifies_the_message_as_given(
    level: MlDsaLevel,
    vk: Seq<u8>,
    sig: Seq<u8>,
    msg: Seq<u8>,
)
    requires
        vk.len() == level.vk_size(),
        sig.len() == level.sig_size(),
        mldsa_signature_decodes(level, sig),
    ensures
        mldsa_verify_result(level, vk, sig, msg) == Ok::<bool, Seq<char>>(
            mldsa_verifies(level, vk, sig, msg),
        ),
{
}

/// Restoring an ML-DSA keypair from a seed gives the verifying key the crate derives
/// from exactly that seed.
pub proof fn law_mldsa_keypair_is_the_crates(level: MlDsaLevel, seed: Seq<u8>)
    requires
        seed.len() == 32,
    ensures
        mldsa_keypair_from_seed(level, seed) == Ok::<(Seq<u8>, Seq<u8>), Seq<char>>(
            (seed, mldsa_verifying_key(level, seed)),
        ),
{
}

/// SLH-DSA signing signs the message as given with the key as given: for a key of the
/// right length the result is the crate's deterministic signature of exactly that
/// message by exactly that key.
pub proof fn law_slh_signs_the_message_as_given(variant: SlhDsaVariant, sk: Seq<u8>, msg: Seq<u8>)
    requires
        sk.len() == variant.sk_size(),
    ensures
        slh_sign_result(variant, sk, msg) == Ok::<Seq<u8>, Seq<char>>(
            slh_signature(variant, sk, msg),
        ),
{
}

/// SLH-DSA verification checks the message as given: for a key and a signature of the
/// right lengths, the result is the crate's verification of exactly that signature on
/// exactly that message under exactly that key.
pub proof fn law_slh_verifies_the_message_as_given(
    variant: SlhDsaVariant,
    vk: Seq<u8>,
    sig: Seq<u8>,
    msg: Seq<u8>,
)
    requires
        vk.len() == variant.vk_size(),
        sig.len() == variant.sig_size(),
    ensures
        slh_verify_result(variant, vk, sig, msg) == Ok::<bool, Seq<char>>(
            slh_verifies(variant, vk, sig, msg),
        ),
{
}

/// The characters of the accepted speed names.
proof fn lemma_speed_name_chars()
    ensures
        "fast"@.len() == 4,
        "fast"@[0] == 'f',
        "fast"@[1] == 'a',
        "fast"@[2] == 's',
        "fast"@[3] == 't',
        "f"@.len() == 1,
        "f"@[0] == 'f',
        "small"@.len() == 5,
        "small"@[0] == 's',
        "small"@[1] == 'm',
        "small"@[2] == 'a',
        "small"@[3] == 'l',
        "small"@[4] == 'l',
        "s"@.len() == 1,
        "s"@[0] == 's',
        "compact"@.len() == 7,
        "compact"@[0] == 'c',
        "compact"@[1] == 'o',
        "compact"@[2] == 'm',
        "compact"@[3] == 'p',
        "compact"@[4] == 'a',
        "compact"@[5] == 'c',
        "compact"@[6] == 't',
{
    reveal_strlit("fast");
    reveal_strlit("f");
    reveal_strlit("small");
    reveal_strlit("s");
    reveal_strlit("compact");
}

/// The characters of the accepted hash names.
proof fn lemma_hash_name_chars()
    ensures
        "shake128"@.len() == 8,
        "shake128"@[0] == 's',
        "shake128"@[1] == 'h',
        "shake128"@[2] == 'a',
        "shake128"@[3] == 'k',
        "shake128"@[4] == 'e',
        "shake128"@[5] == '1',
        "shake128"@[6] == '2',
        "shake128"@[7] == '8',
        "shake192"@.len() == 8,
        "shake192"@[0] == 's',
        "shake192"@[1] == 'h',
        "shake192"@[2] == 'a',
        "shake192"@[3] == 'k',
        "shake192"@[4] == 'e',
        "shake192"@[5] == '1',
        "shake192"@[6] == '9',
        "shake192"@[7] == '2',
        "shake256"@.len() == 8,
        "shake256"@[0] == 's',
        "shake256"@[1] == 'h',
        "shake256"@[2] == 'a',
        "shake256"@[3] == 'k',
        "shake256"@[4] == 'e',
        "shake256"@[5] == '2',
        "shake256"@[6] == '5',
        "shake256"@[7] == '6',
        "sha2-128"@.len() == 8,
        "sha2-128"@[0] == 's',
        "sha2-128"@[1] == 'h',
        "sha2-128"@[2] == 'a',
        "sha2-128"@[3] == '2',
        "sha2-128"@[4] == '-',
        "sha2-128"@[5] == '1',
        "sha2-128"@[6] == '2',
        "sha2-128"@[7] == '8',
        "sha2_128"@.len() == 8,
        "sha2_128"@[0] == 's',
        "sha2_128"@[1] == 'h',
        "sha2_128"@[2] == 'a',
        "sha2_128"@[3] == '2',
        "sha2_128"@[4] == '_',
        "sha2_128"@[5] == '1',
        "sha2_128"@[6] == '2',
        "sha2_128"@[7] == '8',
        "sha2128"@.len() == 7,
        "sha2128"@[0] == 's',
        "sha2128"@[1] == 'h',
        "sha2128"@[2] == 'a',
        "sha2128"@[3] == '2',
        "sha2128"@[4] == '1',
        "sha2128"@[5] == '2',
        "sha2128"@[6] == '8',
        "sha2-192"@.len() == 8,
        "sha2-192"@[0] == 's',
        "sha2-192"@[1] == 'h',
        "sha2-192"@[2] == 'a',
        "sha2-192"@[3] == '2',
        "sha2-192"@[4] == '-',
        "sha2-192"@[5] == '1',
        "sha2-192"@[6] == '9',
        "sha2-192"@[7] == '2',
        "sha2_192"@.len() == 8,
        "sha2_192"@[0] == 's',
        "sha2_192"@[1] == 'h',
        "sha2_192"@[2] == 'a',
        "sha2_192"@[3] == '2',
        "sha2_192"@[4] == '_',
        "sha2_192"@[5] == '1',
        "sha2_192"@[6] == '9',
        "sha2_192"@[7] == '2',
        "sha2192"@.len() == 7,
        "sha2192"@[0] == 's',
        "sha2192"@[1] == 'h',
        "sha2192"@[2] == 'a',
        "sha2192"@[3] == '2',
        "sha2192"@[4] == '1',
        "sha2192"@[5] == '9',
        "sha2192"@[6] == '2',
        "sha2-256"@.len() == 8,
        "sha2-256"@[0] == 's',
        "sha2-256"@[1] == 'h',
        "sha2-256"@[2] == 'a',
        "sha2-256"@[3] == '2',
        "sha2-256"@[4] == '-',
        "sha2-256"@[5] == '2',
        "sha2-256"@[6] == '5',
        "sha2-256"@[7] == '6',
        "sha2_256"@.len() == 8,
        "sha2_256"@[0] == 's',
        "sha2_256"@[1] == 'h',
        "sha2_256"@[2] == 'a',
        "sha2_256"@[3] == '2',
        "sha2_256"@[4] == '_',
        "sha2_256"@[5] == '2',
        "sha2_256"@[6] == '5',
        "sha2_256"@[7] == '6',
        "sha2256"@.len() == 7,
        "sha2256"@[0] == 's',
        "sha2256"@[1] == 'h',
        "sha2256"@[2] == 'a',
        "sha2256"@[3] == '2',
        "sha2256"@[4] == '2',
        "sha2256"@[5] == '5',
        "sha2256"@[6] == '6',
{
    reveal_strlit("shake128");
    reveal_strlit("shake192");
    reveal_strlit("shake256");
    reveal_strlit("sha2-128");
    reveal_strlit("sha2_128");
    reveal_strlit("sha2128");
    reveal_strlit("sha2-192");
    reveal_strlit("sha2_192");
    reveal_strlit("sha2192");
    reveal_strlit("sha2-256");
    reveal_strlit("sha2_256");
    reveal_strlit("sha2256");
}

} // verus!
