//! SLH-DSA (FIPS 205): the twelve parameter sets, their selection by name, and the
//! signing and verifying keys of a chosen set.
use crate::kem::bytes_result;
use crate::sig::bool_result;
use crate::slh_backend::{
    signature_error_text,
    slh_public_root,
    slh_sha2_128f_generate,
    slh_sha2_128f_sign,
    slh_sha2_128f_verify,
    slh_sha2_128s_generate,
    slh_sha2_128s_sign,
    slh_sha2_128s_verify,
    slh_sha2_192f_generate,
    slh_sha2_192f_sign,
    slh_sha2_192f_verify,
    slh_sha2_192s_generate,
    slh_sha2_192s_sign,
    slh_sha2_192s_verify,
    slh_sha2_256f_generate,
    slh_sha2_256f_sign,
    slh_sha2_256f_verify,
    slh_sha2_256s_generate,
    slh_sha2_256s_sign,
    slh_sha2_256s_verify,
    slh_shake128f_generate,
    slh_shake128f_sign,
    slh_shake128f_verify,
    slh_shake128s_generate,
    slh_shake128s_sign,
    slh_shake128s_verify,
    slh_shake192f_generate,
    slh_shake192f_sign,
    slh_shake192f_verify,
    slh_shake192s_generate,
    slh_shake192s_sign,
    slh_shake192s_verify,
    slh_shake256f_generate,
    slh_shake256f_sign,
    slh_shake256f_verify,
    slh_shake256s_generate,
    slh_shake256s_sign,
    slh_shake256s_verify,
    slh_signature,
    slh_verifies,
};
use crate::text::{length_message, length_message_string, lowercase, same_text, text_lowercase};
use vstd::prelude::*;
use vstd::slice::slice_to_vec;

verus! {

/// The SLH-DSA parameter sets: hash family (SHAKE or SHA-2), security level
/// (128/192/256) and trade-off ("f": fast signing, larger signatures; "s": small).
#[derive(Clone, Copy, Debug, PartialEq, Eq, Structural)]
pub enum SlhDsaVariant {
    Shake128f,
    Shake128s,
    Shake192f,
    Shake192s,
    Shake256f,
    Shake256s,
    Sha2_128f,
    Sha2_128s,
    Sha2_192f,
    Sha2_192s,
    Sha2_256f,
    Sha2_256s,
}

impl SlhDsaVariant {
    /// The security parameter n: the length of each of the key's four parts.
    pub open spec fn n(self) -> nat {
        match self {
            SlhDsaVariant::Shake128f | SlhDsaVariant::Shake128s | SlhDsaVariant::Sha2_128f
            | SlhDsaVariant::Sha2_128s => 16,
            SlhDsaVariant::Shake192f | SlhDsaVariant::Shake192s | SlhDsaVariant::Sha2_192f
            | SlhDsaVariant::Sha2_192s => 24,
            _ => 32,
        }
    }

    /// Length of an encoded signing key: 4n.
    pub open spec fn sk_size(self) -> nat {
        4 * self.n()
    }

    /// Length of an encoded verifying key: 2n.
    pub open spec fn vk_size(self) -> nat {
        2 * self.n()
    }

    /// Length of a signature.
    pub open spec fn sig_size(self) -> nat {
        match self {
            SlhDsaVariant::Shake128f | SlhDsaVariant::Sha2_128f => 17088,
            SlhDsaVariant::Shake128s | SlhDsaVariant::Sha2_128s => 7856,
            SlhDsaVariant::Shake192f | SlhDsaVariant::Sha2_192f => 35664,
            SlhDsaVariant::Shake192s | SlhDsaVariant::Sha2_192s => 16224,
            SlhDsaVariant::Shake256f | SlhDsaVariant::Sha2_256f => 49856,
            SlhDsaVariant::Shake256s | SlhDsaVariant::Sha2_256s => 29792,
        }
    }

    pub fn sk_len(self) -> (n: usize)
        ensures
            n == self.sk_size(),
    {
        match self {
            SlhDsaVariant::Shake128f | SlhDsaVariant::Shake128s | SlhDsaVariant::Sha2_128f
            | SlhDsaVariant::Sha2_128s => 64,
            SlhDsaVariant::Shake192f | SlhDsaVariant::Shake192s | SlhDsaVariant::Sha2_192f
            | SlhDsaVariant::Sha2_192s => 96,
            SlhDsaVariant::Shake256f | SlhDsaVariant::Shake256s | SlhDsaVariant::Sha2_256f
            | SlhDsaVariant::Sha2_256s => 128,
        }
    }

    pub fn vk_len(self) -> (n: usize)
        ensures
            n == self.vk_size(),
    {
        match self {
            SlhDsaVariant::Shake128f | SlhDsaVariant::Shake128s | SlhDsaVariant::Sha2_128f
            | SlhDsaVariant::Sha2_128s => 32,
            SlhDsaVariant::Shake192f | SlhDsaVariant::Shake192s | SlhDsaVariant::Sha2_192f
            | SlhDsaVariant::Sha2_192s => 48,
            SlhDsaVariant::Shake256f | SlhDsaVariant::Shake256s | SlhDsaVariant::Sha2_256f
            | SlhDsaVariant::Sha2_256s => 64,
        }
    }

    pub fn sig_len(self) -> (n: usize)
        ensures
            n == self.sig_size(),
    {
        match self {
            SlhDsaVariant::Shake128f | SlhDsaVariant::Sha2_128f => 17088,
            SlhDsaVariant::Shake128s | SlhDsaVariant::Sha2_128s => 7856,
            SlhDsaVariant::Shake192f | SlhDsaVariant::Sha2_192f => 35664,
            SlhDsaVariant::Shake192s | SlhDsaVariant::Sha2_192s => 16224,
            SlhDsaVariant::Shake256f | SlhDsaVariant::Sha2_256f => 49856,
            SlhDsaVariant::Shake256s | SlhDsaVariant::Sha2_256s => 29792,
        }
    }
}

/// The trade-off that a lowercased speed name selects: `Some(true)` for "fast" or
/// "f", `Some(false)` for "small", "s" or "compact".
pub open spec fn speed_choice(speed: Seq<char>) -> Option<bool> {
    if speed == "fast"@ || speed == "f"@ {
        Some(true)
    } else if speed == "small"@ || speed == "s"@ || speed == "compact"@ {
        Some(false)
    } else {
        None
    }
}

/// The (fast, small) parameter sets that a lowercased hash name selects. The SHA-2
/// names may be written with "-", "_" or nothing after "sha2".
pub open spec fn hash_choice(hash: Seq<char>) -> Option<(SlhDsaVariant, SlhDsaVariant)> {
    if hash == "shake128"@ {
        Some((SlhDsaVariant::Shake128f, SlhDsaVariant::Shake128s))
    } else if hash == "shake192"@ {
        Some((SlhDsaVariant::Shake192f, SlhDsaVariant::Shake192s))
    } else if hash == "shake256"@ {
        Some((SlhDsaVariant::Shake256f, SlhDsaVariant::Shake256s))
    } else if hash == "sha2-128"@ || hash == "sha2_128"@ || hash == "sha2128"@ {
        Some((SlhDsaVariant::Sha2_128f, SlhDsaVariant::Sha2_128s))
    } else if hash == "sha2-192"@ || hash == "sha2_192"@ || hash == "sha2192"@ {
        Some((SlhDsaVariant::Sha2_192f, SlhDsaVariant::Sha2_192s))
    } else if hash == "sha2-256"@ || hash == "sha2_256"@ || hash == "sha2256"@ {
        Some((SlhDsaVariant::Sha2_256f, SlhDsaVariant::Sha2_256s))
    } else {
        None
    }
}

/// The message for an unknown speed name, quoting the name as given.
pub open spec fn invalid_speed_message(speed: Seq<char>) -> Seq<char> {
    "Invalid speed: '"@ + speed + "'. Use 'fast' or 'small'."@
}

/// The message for an unknown hash name, quoting the name as given.
pub open spec fn unknown_hash_message(hash: Seq<char>) -> Seq<char> {
    "Unknown hash: '"@ + hash
        + "'. Use 'shake128', 'shake192', 'shake256', 'sha2-128', 'sha2-192', or 'sha2-256'."@
}

/// The parameter set named by `hash` and `speed`, given their lowercase forms: the
/// speed is checked first, then the hash.
pub open spec fn named_variant(
    hash: Seq<char>,
    speed: Seq<char>,
    hash_lower: Seq<char>,
    speed_lower: Seq<char>,
) -> Result<SlhDsaVariant, Seq<char>> {
    match speed_choice(speed_lower) {
        None => Err(invalid_speed_message(speed)),
        Some(fast) => match hash_choice(hash_lower) {
            None => Err(unknown_hash_message(hash)),
            Some((f, s)) => Ok(
                if fast {
                    f
                } else {
                    s
                },
            ),
        },
    }
}

/// The parameter set that `from_params(hash, speed)` selects: `named_variant` applied
/// to the names and their lowercase forms.
pub open spec fn variant_for_names(hash: Seq<char>, speed: Seq<char>) -> Result<SlhDsaVariant, Seq<char>> {
    named_variant(hash, speed, text_lowercase(hash), text_lowercase(speed))
}

/// The parameter set a selection result names, if any (its message left aside).
pub open spec fn selected(r: Result<SlhDsaVariant, Seq<char>>) -> Option<SlhDsaVariant> {
    match r {
        Ok(v) => Some(v),
        Err(_) => None,
    }
}

/// A variant result with its message seen through its view.
pub open spec fn variant_result(r: Result<SlhDsaVariant, String>) -> Result<SlhDsaVariant, Seq<char>> {
    match r {
        Ok(v) => Ok(v),
        Err(e) => Err(e@),
    }
}

impl SlhDsaVariant {
    /// Selects a parameter set by hash and speed names, ignoring case.
    pub fn from_params(hash: &str, speed: &str) -> (r: Result<Self, String>)
        ensures
            variant_result(r) == variant_for_names(hash@, speed@),
    {
        let hash_lower = lowercase(hash);
        let speed_lower = lowercase(speed);
        Self::from_lowercase_params(hash, speed, hash_lower.as_str(), speed_lower.as_str())
    }

    /// Selects a parameter set from the lowercase forms of the names; `hash` and
    /// `speed`, as given, are quoted in the messages.
    pub fn from_lowercase_params(hash: &str, speed: &str, hash_lower: &str, speed_lower: &str) -> (r:
        Result<Self, String>)
        ensures
            variant_result(r) == named_variant(hash@, speed@, hash_lower@, speed_lower@),
    {
        let fast = if same_text(speed_lower, "fast") || same_text(speed_lower, "f") {
            true
        } else if same_text(speed_lower, "small") || same_text(speed_lower, "s") || same_text(
            speed_lower,
            "compact",
        ) {
            false
        } else {
            let mut m = String::from_str("Invalid speed: '");
            m.append(speed);
            m.append("'. Use 'fast' or 'small'.");
            return Err(m);
        };
        let (f, s) = if same_text(hash_lower, "shake128") {
            (SlhDsaVariant::Shake128f, SlhDsaVariant::Shake128s)
        } else if same_text(hash_lower, "shake192") {
            (SlhDsaVariant::Shake192f, SlhDsaVariant::Shake192s)
        } else if same_text(hash_lower, "shake256") {
            (SlhDsaVariant::Shake256f, SlhDsaVariant::Shake256s)
        } else if same_text(hash_lower, "sha2-128") || same_text(hash_lower, "sha2_128")
            || same_text(hash_lower, "sha2128") {
            (SlhDsaVariant::Sha2_128f, SlhDsaVariant::Sha2_128s)
        } else if same_text(hash_lower, "sha2-192") || same_text(hash_lower, "sha2_192")
            || same_text(hash_lower, "sha2192") {
            (SlhDsaVariant::Sha2_192f, SlhDsaVariant::Sha2_192s)
        } else if same_text(hash_lower, "sha2-256") || same_text(hash_lower, "sha2_256")
            || same_text(hash_lower, "sha2256") {
            (SlhDsaVariant::Sha2_256f, SlhDsaVariant::Sha2_256s)
        } else {
            let mut m = String::from_str("Unknown hash: '");
            m.append(hash);
            m.append(
                "'. Use 'shake128', 'shake192', 'shake256', 'sha2-128', 'sha2-192', or 'sha2-256'.",
            );
            return Err(m);
        };
        if fast {
            Ok(f)
        } else {
            Ok(s)
        }
    }
}

/// Whether an encoded signing key's pk_root is the one derived from its own seeds.
pub open spec fn slh_consistent(variant: SlhDsaVariant, sk: Seq<u8>) -> bool {
    let n = variant.n() as int;
    sk.subrange(3 * n, 4 * n) == slh_public_root(variant, sk.subrange(0, n), sk.subrange(2 * n, 3 * n))
}

/// The verifying key embedded in an encoded signing key: its last 2n bytes.
pub open spec fn embedded_vk(variant: SlhDsaVariant, sk: Seq<u8>) -> Seq<u8> {
    sk.subrange(2 * variant.n() as int, 4 * variant.n() as int)
}

/// What holds of every keypair that `slhdsa_generate` returns: a signing key of 4n
/// bytes whose pk_root is derived from its seeds, and its embedded verifying key.
pub open spec fn slh_generated(variant: SlhDsaVariant, sk: Seq<u8>, vk: Seq<u8>) -> bool {
    &&& sk.len() == variant.sk_size()
    &&& vk == embedded_vk(variant, sk)
    &&& slh_consistent(variant, sk)
}

/// The result of `slhdsa_sign(variant, sk, msg)`.
pub open spec fn slh_sign_result(variant: SlhDsaVariant, sk: Seq<u8>, msg: Seq<u8>) -> Result<
    Seq<u8>,
    Seq<char>,
> {
    if sk.len() != variant.sk_size() {
        Err("Invalid signing key: "@ + "signature error"@)
    } else {
        Ok(slh_signature(variant, sk, msg))
    }
}

/// The result of `slhdsa_verify(variant, vk, sig, msg)`.
pub open spec fn slh_verify_result(
    variant: SlhDsaVariant,
    vk: Seq<u8>,
    sig: Seq<u8>,
    msg: Seq<u8>,
) -> Result<bool, Seq<char>> {
    if vk.len() != variant.vk_size() {
        Err("Invalid verifying key: "@ + "signature error"@)
    } else if sig.len() != variant.sig_size() {
        Err("Invalid signature: "@ + "signature error"@)
    } else {
        Ok(slh_verifies(variant, vk, sig, msg))
    }
}

/// A fresh keypair of the parameter set: (encoded signing key, encoded verifying key).
pub fn slhdsa_generate(variant: SlhDsaVariant) -> (r: (Vec<u8>, Vec<u8>))
    ensures
        slh_generated(variant, r.0@, r.1@),
{
    match variant {
        SlhDsaVariant::Shake128f => slh_shake128f_generate(),
        SlhDsaVariant::Shake128s => slh_shake128s_generate(),
        SlhDsaVariant::Shake192f => slh_shake192f_generate(),
        SlhDsaVariant::Shake192s => slh_shake192s_generate(),
        SlhDsaVariant::Shake256f => slh_shake256f_generate(),
        SlhDsaVariant::Shake256s => slh_shake256s_generate(),
        SlhDsaVariant::Sha2_128f => slh_sha2_128f_generate(),
        SlhDsaVariant::Sha2_128s => slh_sha2_128s_generate(),
        SlhDsaVariant::Sha2_192f => slh_sha2_192f_generate(),
        SlhDsaVariant::Sha2_192s => slh_sha2_192s_generate(),
        SlhDsaVariant::Sha2_256f => slh_sha2_256f_generate(),
        SlhDsaVariant::Sha2_256s => slh_sha2_256s_generate(),
    }
}

/// Signs `msg` with the encoded signing key `sk`. When the key's pk_root is derived
/// from its seeds (as for every generated key), the signature verifies on `msg` under
/// the key's embedded verifying key.
pub fn slhdsa_sign(variant: SlhDsaVariant, sk: &[u8], msg: &[u8]) -> (r: Result<Vec<u8>, String>)
    ensures
        bytes_result(r) == slh_sign_result(variant, sk@, msg@),
        r matches Ok(sig) ==> sig@ == slh_signature(variant, sk@, msg@),
        r matches Ok(sig) ==> sig@.len() == variant.sig_size(),
        r matches Ok(sig) ==> (slh_consistent(variant, sk@) ==> slh_verify_result(
            variant,
            embedded_vk(variant, sk@),
            sig@,
            msg@,
        ) == Ok::<bool, Seq<char>>(true)),
{
    if sk.len() != variant.sk_len() {
        let mut m = String::from_str("Invalid signing key: ");
        let e = signature_error_text();
        m.append(e.as_str());
        return Err(m);
    }
    let sig = match variant {
        SlhDsaVariant::Shake128f => slh_shake128f_sign(sk, msg),
        SlhDsaVariant::Shake128s => slh_shake128s_sign(sk, msg),
        SlhDsaVariant::Shake192f => slh_shake192f_sign(sk, msg),
        SlhDsaVariant::Shake192s => slh_shake192s_sign(sk, msg),
        SlhDsaVariant::Shake256f => slh_shake256f_sign(sk, msg),
        SlhDsaVariant::Shake256s => slh_shake256s_sign(sk, msg),
        SlhDsaVariant::Sha2_128f => slh_sha2_128f_sign(sk, msg),
        SlhDsaVariant::Sha2_128s => slh_sha2_128s_sign(sk, msg),
        SlhDsaVariant::Sha2_192f => slh_sha2_192f_sign(sk, msg),
        SlhDsaVariant::Sha2_192s => slh_sha2_192s_sign(sk, msg),
        SlhDsaVariant::Sha2_256f => slh_sha2_256f_sign(sk, msg),
        SlhDsaVariant::Sha2_256s => slh_sha2_256s_sign(sk, msg),
    };
    Ok(sig)
}

/// Whether `sig` is a valid signature on `msg` under the encoded verifying key `vk`;
/// an error when the key or the signature has the wrong length.
pub fn slhdsa_verify(variant: SlhDsaVariant, vk: &[u8], sig: &[u8], msg: &[u8]) -> (r: Result<
    bool,
    String,
>)
    ensures
        bool_result(r) == slh_verify_result(variant, vk@, sig@, msg@),
        r matches Ok(b) ==> b == slh_verifies(variant, vk@, sig@, msg@),
{
    if vk.len() != variant.vk_len() {
        let mut m = String::from_str("Invalid verifying key: ");
        let e = signature_error_text();
        m.append(e.as_str());
        return Err(m);
    }
    if sig.len() != variant.sig_len() {
        let mut m = String::from_str("Invalid signature: ");
        let e = signature_error_text();
        m.append(e.as_str());
        return Err(m);
    }
    let ok = match variant {
        SlhDsaVariant::Shake128f => slh_shake128f_verify(vk, sig, msg),
        SlhDsaVariant::Shake128s => slh_shake128s_verify(vk, sig, msg),
        SlhDsaVariant::Shake192f => slh_shake192f_verify(vk, sig, msg),
        SlhDsaVariant::Shake192s => slh_shake192s_verify(vk, sig, msg),
        SlhDsaVariant::Shake256f => slh_shake256f_verify(vk, sig, msg),
        SlhDsaVariant::Shake256s => slh_shake256s_verify(vk, sig, msg),
        SlhDsaVariant::Sha2_128f => slh_sha2_128f_verify(vk, sig, msg),
        SlhDsaVariant::Sha2_128s => slh_sha2_128s_verify(vk, sig, msg),
        SlhDsaVariant::Sha2_192f => slh_sha2_192f_verify(vk, sig, msg),
        SlhDsaVariant::Sha2_192s => slh_sha2_192s_verify(vk, sig, msg),
        SlhDsaVariant::Sha2_256f => slh_sha2_256f_verify(vk, sig, msg),
        SlhDsaVariant::Sha2_256s => slh_sha2_256s_verify(vk, sig, msg),
    };
    Ok(ok)
}

/// An SLH-DSA signing key of one parameter set, kept as its encoding.
pub struct SlhDsaSigningKey {
    variant: SlhDsaVariant,
    seed: Vec<u8>,
}

impl Clone for SlhDsaSigningKey {
    /// A copy with the same kind and the same bytes.
    fn clone(&self) -> (c: Self)
        ensures
            c@ == self@,
            c.variant() == self.variant(),
    {
        proof {
            use_type_invariant(self);
        }
        SlhDsaSigningKey { variant: self.variant, seed: slice_to_vec(self.seed.as_slice()) }
    }
}

impl View for SlhDsaSigningKey {
    type V = Seq<u8>;

    closed spec fn view(&self) -> Seq<u8> {
        self.seed@
    }
}

impl SlhDsaSigningKey {
    /// The encoding always has the parameter set's length.
    #[verifier::type_invariant]
    spec fn encoding_fits(self) -> bool {
        self.seed@.len() == self.variant.sk_size()
    }

    pub closed spec fn variant(self) -> SlhDsaVariant {
        self.variant
    }

    pub fn kind(&self) -> (v: SlhDsaVariant)
        ensures
            v == self.variant(),
    {
        self.variant
    }

    /// The encoded key, from which `SlhDsa::importSigningKey` restores it.
    pub fn bytes(&self) -> (b: Vec<u8>)
        ensures
            b@ == self@,
            b@.len() == self.variant().sk_size(),
    {
        proof {
            use_type_invariant(self);
        }
        slice_to_vec(self.seed.as_slice())
    }

    /// Signs `message`; never fails. When the key's pk_root is derived from its seeds
    /// (as for every generated key), the signature verifies under its embedded key.
    pub fn sign(&self, message: &[u8]) -> (r: Result<Vec<u8>, String>)
        ensures
            bytes_result(r) == Ok::<Seq<u8>, Seq<char>>(
                slh_signature(self.variant(), self@, message@),
            ),
            r matches Ok(sig) ==> sig@.len() == self.variant().sig_size(),
            r matches Ok(sig) ==> (slh_consistent(self.variant(), self@) ==> slh_verify_result(
                self.variant(),
                embedded_vk(self.variant(), self@),
                sig@,
                message@,
            ) == Ok::<bool, Seq<char>>(true)),
    {
        proof {
            use_type_invariant(self);
        }
        slhdsa_sign(self.variant, self.seed.as_slice(), message)
    }
}

/// An SLH-DSA verifying key of one parameter set, kept as its encoding.
pub struct SlhDsaVerifyingKey {
    variant: SlhDsaVariant,
    bytes: Vec<u8>,
}

impl Clone for SlhDsaVerifyingKey {
    /// A copy with the same kind and the same bytes.
    fn clone(&self) -> (c: Self)
        ensures
            c@ == self@,
            c.variant() == self.variant(),
    {
        proof {
            use_type_invariant(self);
        }
        SlhDsaVerifyingKey { variant: self.variant, bytes: slice_to_vec(self.bytes.as_slice()) }
    }
}

impl View for SlhDsaVerifyingKey {
    type V = Seq<u8>;

    closed spec fn view(&self) -> Seq<u8> {
        self.bytes@
    }
}

impl SlhDsaVerifyingKey {
    /// The encoding always has the parameter set's length.
    #[verifier::type_invariant]
    spec fn encoding_fits(self) -> bool {
        self.bytes@.len() == self.variant.vk_size()
    }

    pub closed spec fn variant(self) -> SlhDsaVariant {
        self.variant
    }

    pub fn kind(&self) -> (v: SlhDsaVariant)
        ensures
            v == self.variant(),
    {
        self.variant
    }

    /// The encoded key, from which `SlhDsa::importVerifyingKey` restores it.
    pub fn bytes(&self) -> (b: Vec<u8>)
        ensures
            b@ == self@,
            b@.len() == self.variant().vk_size(),
    {
        proof {
            use_type_invariant(self);
        }
        slice_to_vec(self.bytes.as_slice())
    }

    /// Whether `signature` is valid on `message`; an error for a signature of the
    /// wrong length.
    pub fn verify(&self, signature: &[u8], message: &[u8]) -> (r: Result<bool, String>)
        ensures
            bool_result(r) == slh_verify_result(self.variant(), self@, signature@, message@),
            r is Err <==> signature@.len() != self.variant().sig_size(),
    {
        proof {
            use_type_invariant(self);
        }
        slhdsa_verify(self.variant, self.bytes.as_slice(), signature, message)
    }
}

/// The result of importing an encoded key of the expected length.
pub open spec fn key_import(expected: nat, bytes: Seq<u8>) -> Result<Seq<u8>, Seq<char>> {
    if bytes.len() == expected {
        Ok(bytes)
    } else {
        Err(length_message("Invalid key length"@, expected, bytes.len()))
    }
}

/// A chosen SLH-DSA parameter set: makes and imports its keys.
#[derive(Clone)]
pub struct SlhDsa {
    variant: SlhDsaVariant,
}

impl SlhDsa {
    pub closed spec fn variant(self) -> SlhDsaVariant {
        self.variant
    }

    pub fn kind(&self) -> (v: SlhDsaVariant)
        ensures
            v == self.variant(),
    {
        self.variant
    }

    /// Chooses the parameter set named by `hash` and `speed` (see
    /// `SlhDsaVariant::from_params`).
    pub fn __construct(hash: String, speed: String) -> (r: Result<Self, String>)
        ensures
            match r {
                Ok(s) => variant_for_names(hash@, speed@) == Ok::<SlhDsaVariant, Seq<char>>(
                    s.variant(),
                ),
                Err(e) => variant_for_names(hash@, speed@) == Err::<SlhDsaVariant, Seq<char>>(e@),
            },
    {
        match SlhDsaVariant::from_params(hash.as_str(), speed.as_str()) {
            Ok(variant) => Ok(SlhDsa { variant }),
            Err(e) => Err(e),
        }
    }

    /// A fresh keypair of the chosen set: (signing key, verifying key).
    #[allow(non_snake_case)]
    pub fn generateKeypair(&self) -> (r: (SlhDsaSigningKey, SlhDsaVerifyingKey))
        ensures
            r.0.variant() == self.variant(),
            r.1.variant() == self.variant(),
            slh_generated(self.variant(), r.0@, r.1@),
    {
        let (sk, vk) = slhdsa_generate(self.variant);
        (
            SlhDsaSigningKey { variant: self.variant, seed: sk },
            SlhDsaVerifyingKey { variant: self.variant, bytes: vk },
        )
    }

    /// Imports an encoded signing key of the chosen set (any bytes of its length).
    #[allow(non_snake_case)]
    pub fn importSigningKey(&self, bytes: &[u8]) -> (r: Result<SlhDsaSigningKey, String>)
        ensures
            match r {
                Ok(k) => k.variant() == self.variant() && key_import(
                    self.variant().sk_size(),
                    bytes@,
                ) == Ok::<Seq<u8>, Seq<char>>(k@),
                Err(e) => key_import(self.variant().sk_size(), bytes@) == Err::<
                    Seq<u8>,
                    Seq<char>,
                >(e@),
            },
    {
        let expected = self.variant.sk_len();
        if bytes.len() != expected {
            return Err(length_message_string("Invalid key length", expected, bytes.len()));
        }
        Ok(SlhDsaSigningKey { variant: self.variant, seed: slice_to_vec(bytes) })
    }

    /// Imports an encoded verifying key of the chosen set (any bytes of its length).
    #[allow(non_snake_case)]
    pub fn importVerifyingKey(&self, bytes: &[u8]) -> (r: Result<SlhDsaVerifyingKey, String>)
        ensures
            match r {
                Ok(k) => k.variant() == self.variant() && key_import(
                    self.variant().vk_size(),
                    bytes@,
                ) == Ok::<Seq<u8>, Seq<char>>(k@),
                Err(e) => key_import(self.variant().vk_size(), bytes@) == Err::<
                    Seq<u8>,
                    Seq<char>,
                >(e@),
            },
    {
        let expected = self.variant.vk_len();
        if bytes.len() != expected {
            return Err(length_message_string("Invalid key length", expected, bytes.len()));
        }
        Ok(SlhDsaVerifyingKey { variant: self.variant, bytes: slice_to_vec(bytes) })
    }
}

} // verus!
