//! ML-DSA signatures (FIPS 204): the parameter sets ML-DSA-44, -65 and -87.
//!
//! A signing key is kept as its 32-byte seed; verifying keys and signatures as their
//! encodings.
use crate::kem::{bytes_result, pair_result};
use crate::mldsa_backend::{
    mldsa44_generate, mldsa44_sign, mldsa44_verify, mldsa44_verifying_key, mldsa65_generate,
    mldsa65_sign, mldsa65_verify, mldsa65_verifying_key, mldsa87_generate, mldsa87_sign,
    mldsa87_verify, mldsa87_verifying_key, mldsa_signature, mldsa_signature_decodes,
    mldsa_verifies, mldsa_verifying_key,
};
use crate::text::{length_message, length_message_string};
use vstd::prelude::*;
use vstd::slice::slice_to_vec;

verus! {

/// The ML-DSA parameter sets.
#[derive(Clone, Copy, Debug, PartialEq, Eq, Structural)]
pub enum MlDsaLevel {
    MlDsa44,
    MlDsa65,
    MlDsa87,
}

impl MlDsaLevel {
    /// Length of an encoded verifying key.
    pub open spec fn vk_size(self) -> nat {
        match self {
            MlDsaLevel::MlDsa44 => 1312,
            MlDsaLevel::MlDsa65 => 1952,
            MlDsaLevel::MlDsa87 => 2592,
        }
    }

    /// Length of an encoded signature.
    pub open spec fn sig_size(self) -> nat {
        match self {
            MlDsaLevel::MlDsa44 => 2420,
            MlDsaLevel::MlDsa65 => 3309,
            MlDsaLevel::MlDsa87 => 4627,
        }
    }

    /// Length of a signing key's seed, the same for every level.
    pub fn seed_len(&self) -> (n: usize)
        ensures
            n == 32,
    {
        32
    }

    pub fn vk_len(&self) -> (n: usize)
        ensures
            n == self.vk_size(),
    {
        match self {
            MlDsaLevel::MlDsa44 => 1312,
            MlDsaLevel::MlDsa65 => 1952,
            MlDsaLevel::MlDsa87 => 2592,
        }
    }

    pub fn sig_len(&self) -> (n: usize)
        ensures
            n == self.sig_size(),
    {
        match self {
            MlDsaLevel::MlDsa44 => 2420,
            MlDsaLevel::MlDsa65 => 3309,
            MlDsaLevel::MlDsa87 => 4627,
        }
    }
}

/// A boolean result with its message seen through its view.
pub open spec fn bool_result(r: Result<bool, String>) -> Result<bool, Seq<char>> {
    match r {
        Ok(b) => Ok(b),
        Err(e) => Err(e@),
    }
}

/// The result of `keypair_from_seed(seed)`: the seed and the verifying key derived
/// from it, or the length message.
pub open spec fn mldsa_keypair_from_seed(level: MlDsaLevel, seed: Seq<u8>) -> Result<
    (Seq<u8>, Seq<u8>),
    Seq<char>,
> {
    if seed.len() != 32 {
        Err(length_message("Invalid seed length"@, 32, seed.len()))
    } else {
        Ok((seed, mldsa_verifying_key(level, seed)))
    }
}

/// The result of `sign(seed, msg)`.
pub open spec fn mldsa_sign_result(level: MlDsaLevel, seed: Seq<u8>, msg: Seq<u8>) -> Result<
    Seq<u8>,
    Seq<char>,
> {
    if seed.len() != 32 {
        Err("Invalid seed length"@)
    } else {
        match mldsa_signature(level, seed, msg) {
            Some(sig) => Ok(sig),
            None => Err("signature operation failed"@),
        }
    }
}

/// The result of `verify(vk, sig, msg)`.
pub open spec fn mldsa_verify_result(
    level: MlDsaLevel,
    vk: Seq<u8>,
    sig: Seq<u8>,
    msg: Seq<u8>,
) -> Result<bool, Seq<char>> {
    if vk.len() != level.vk_size() {
        Err("Invalid verifying key length"@)
    } else if sig.len() != level.sig_size() {
        Err("Invalid signature length"@)
    } else if !mldsa_signature_decodes(level, sig) {
        Err("Invalid signature"@)
    } else {
        Ok(mldsa_verifies(level, vk, sig, msg))
    }
}

/// What holds of every keypair that `generate` returns: a 32-byte seed and the
/// verifying key derived from it.
pub open spec fn mldsa_generated(level: MlDsaLevel, seed: Seq<u8>, vk: Seq<u8>) -> bool {
    &&& seed.len() == 32
    &&& vk == mldsa_verifying_key(level, seed)
    &&& vk.len() == level.vk_size()
}

impl MlDsaLevel {
    /// A fresh keypair: (seed, encoded verifying key).
    pub fn generate(&self) -> (r: (Vec<u8>, Vec<u8>))
        ensures
            mldsa_generated(*self, r.0@, r.1@),
    {
        match self {
            MlDsaLevel::MlDsa44 => mldsa44_generate(),
            MlDsaLevel::MlDsa65 => mldsa65_generate(),
            MlDsaLevel::MlDsa87 => mldsa87_generate(),
        }
    }

    /// The keypair restored from a seed: (seed, encoded verifying key).
    pub fn keypair_from_seed(&self, seed: &[u8]) -> (r: Result<(Vec<u8>, Vec<u8>), String>)
        ensures
            pair_result(r) == mldsa_keypair_from_seed(*self, seed@),
            r matches Ok((s, vk)) ==> vk@.len() == self.vk_size(),
    {
        if seed.len() != 32 {
            return Err(length_message_string("Invalid seed length", 32, seed.len()));
        }
        let vk = match self {
            MlDsaLevel::MlDsa44 => mldsa44_verifying_key(seed),
            MlDsaLevel::MlDsa65 => mldsa65_verifying_key(seed),
            MlDsaLevel::MlDsa87 => mldsa87_verifying_key(seed),
        };
        Ok((slice_to_vec(seed), vk))
    }

    /// Signs `msg` with the key restored from `seed`. A signature returned verifies on
    /// `msg` under the verifying key derived from the same seed.
    pub fn sign(&self, seed: &[u8], msg: &[u8]) -> (r: Result<Vec<u8>, String>)
        ensures
            bytes_result(r) == mldsa_sign_result(*self, seed@, msg@),
            r matches Ok(sig) ==> mldsa_verify_result(
                *self,
                mldsa_verifying_key(*self, seed@),
                sig@,
                msg@,
            ) == Ok::<bool, Seq<char>>(true),
            r matches Ok(sig) ==> mldsa_signature(*self, seed@, msg@) == Some(sig@),
            r matches Ok(sig) ==> mldsa_verifies(
                *self,
                mldsa_verifying_key(*self, seed@),
                sig@,
                msg@,
            ),
    {
        if seed.len() != 32 {
            return Err(String::from_str("Invalid seed length"));
        }
        let sig = match self {
            MlDsaLevel::MlDsa44 => mldsa44_sign(seed, msg),
            MlDsaLevel::MlDsa65 => mldsa65_sign(seed, msg),
            MlDsaLevel::MlDsa87 => mldsa87_sign(seed, msg),
        };
        match sig {
            Some(sig) => Ok(sig),
            None => Err(String::from_str("signature operation failed")),
        }
    }

    /// Whether `sig` is a valid signature on `msg` under the encoded key `vk`; an error
    /// when the key or the signature is malformed.
    pub fn verify(&self, vk: &[u8], sig: &[u8], msg: &[u8]) -> (r: Result<bool, String>)
        ensures
            bool_result(r) == mldsa_verify_result(*self, vk@, sig@, msg@),
            r matches Ok(b) ==> b == mldsa_verifies(*self, vk@, sig@, msg@),
    {
        if vk.len() != self.vk_len() {
            return Err(String::from_str("Invalid verifying key length"));
        }
        if sig.len() != self.sig_len() {
            return Err(String::from_str("Invalid signature length"));
        }
        let ok = match self {
            MlDsaLevel::MlDsa44 => mldsa44_verify(vk, sig, msg),
            MlDsaLevel::MlDsa65 => mldsa65_verify(vk, sig, msg),
            MlDsaLevel::MlDsa87 => mldsa87_verify(vk, sig, msg),
        };
        match ok {
            Some(b) => Ok(b),
            None => Err(String::from_str("Invalid signature")),
        }
    }
}

/// The operations of one ML-DSA parameter set, on byte strings.
pub trait SigOps {
    /// The parameter set these operations implement.
    spec fn level() -> MlDsaLevel;

    /// A fresh keypair: (seed, encoded verifying key).
    fn generate() -> (r: (Vec<u8>, Vec<u8>))
        ensures
            mldsa_generated(Self::level(), r.0@, r.1@),
    ;

    /// The keypair restored from a seed.
    fn keypair_from_seed(seed: &[u8]) -> (r: Result<(Vec<u8>, Vec<u8>), String>)
        ensures
            pair_result(r) == mldsa_keypair_from_seed(Self::level(), seed@),
    ;

    /// A signature on `msg` by the key restored from `seed`.
    fn sign(seed: &[u8], msg: &[u8]) -> (r: Result<Vec<u8>, String>)
        ensures
            bytes_result(r) == mldsa_sign_result(Self::level(), seed@, msg@),
            r matches Ok(sig) ==> mldsa_verify_result(
                Self::level(),
                mldsa_verifying_key(Self::level(), seed@),
                sig@,
                msg@,
            ) == Ok::<bool, Seq<char>>(true),
    ;

    /// Whether `sig` is a valid signature on `msg` under `vk`.
    fn verify(vk: &[u8], sig: &[u8], msg: &[u8]) -> (r: Result<bool, String>)
        ensures
            bool_result(r) == mldsa_verify_result(Self::level(), vk@, sig@, msg@),
    ;

    fn seed_len() -> (n: usize)
        ensures
            n == 32,
    ;

    fn vk_len() -> (n: usize)
        ensures
            n == Self::level().vk_size(),
    ;
}

/// ML-DSA-44 (security category 2).
pub struct MlDsa44Ops;

/// ML-DSA-65 (security category 3).
pub struct MlDsa65Ops;

/// ML-DSA-87 (security category 5).
pub struct MlDsa87Ops;

impl SigOps for MlDsa44Ops {
    open spec fn level() -> MlDsaLevel {
        MlDsaLevel::MlDsa44
    }

    fn generate() -> (r: (Vec<u8>, Vec<u8>)) {
        MlDsaLevel::MlDsa44.generate()
    }

    fn keypair_from_seed(seed: &[u8]) -> (r: Result<(Vec<u8>, Vec<u8>), String>) {
        MlDsaLevel::MlDsa44.keypair_from_seed(seed)
    }

    fn sign(seed: &[u8], msg: &[u8]) -> (r: Result<Vec<u8>, String>) {
        MlDsaLevel::MlDsa44.sign(seed, msg)
    }

    fn verify(vk: &[u8], sig: &[u8], msg: &[u8]) -> (r: Result<bool, String>) {
        MlDsaLevel::MlDsa44.verify(vk, sig, msg)
    }

    fn seed_len() -> (n: usize) {
        MlDsaLevel::MlDsa44.seed_len()
    }

    fn vk_len() -> (n: usize) {
        MlDsaLevel::MlDsa44.vk_len()
    }
}

impl SigOps for MlDsa65Ops {
    open spec fn level() -> MlDsaLevel {
        MlDsaLevel::MlDsa65
    }

    fn generate() -> (r: (Vec<u8>, Vec<u8>)) {
        MlDsaLevel::MlDsa65.generate()
    }

    fn keypair_from_seed(seed: &[u8]) -> (r: Result<(Vec<u8>, Vec<u8>), String>) {
        MlDsaLevel::MlDsa65.keypair_from_seed(seed)
    }

    fn sign(seed: &[u8], msg: &[u8]) -> (r: Result<Vec<u8>, String>) {
        MlDsaLevel::MlDsa65.sign(seed, msg)
    }

    fn verify(vk: &[u8], sig: &[u8], msg: &[u8]) -> (r: Result<bool, String>) {
        MlDsaLevel::MlDsa65.verify(vk, sig, msg)
    }

    fn seed_len() -> (n: usize) {
        MlDsaLevel::MlDsa65.seed_len()
    }

    fn vk_len() -> (n: usize) {
        MlDsaLevel::MlDsa65.vk_len()
    }
}

impl SigOps for MlDsa87Ops {
    open spec fn level() -> MlDsaLevel {
        MlDsaLevel::MlDsa87
    }

    fn generate() -> (r: (Vec<u8>, Vec<u8>)) {
        MlDsaLevel::MlDsa87.generate()
    }

    fn keypair_from_seed(seed: &[u8]) -> (r: Result<(Vec<u8>, Vec<u8>), String>) {
        MlDsaLevel::MlDsa87.keypair_from_seed(seed)
    }

    fn sign(seed: &[u8], msg: &[u8]) -> (r: Result<Vec<u8>, String>) {
        MlDsaLevel::MlDsa87.sign(seed, msg)
    }

    fn verify(vk: &[u8], sig: &[u8], msg: &[u8]) -> (r: Result<bool, String>) {
        MlDsaLevel::MlDsa87.verify(vk, sig, msg)
    }

    fn seed_len() -> (n: usize) {
        MlDsaLevel::MlDsa87.seed_len()
    }

    fn vk_len() -> (n: usize) {
        MlDsaLevel::MlDsa87.vk_len()
    }
}

/// An ML-DSA signing key, kept as its 32-byte seed.
pub struct MlDsaSigningKey {
    level: MlDsaLevel,
    seed: Vec<u8>,
}

impl Clone for MlDsaSigningKey {
    /// A copy with the same kind and the same bytes.
    fn clone(&self) -> (c: Self)
        ensures
            c@ == self@,
            c.level() == self.level(),
    {
        proof {
            use_type_invariant(self);
        }
        MlDsaSigningKey { level: self.level, seed: slice_to_vec(self.seed.as_slice()) }
    }
}

impl View for MlDsaSigningKey {
    type V = Seq<u8>;

    closed spec fn view(&self) -> Seq<u8> {
        self.seed@
    }
}

impl MlDsaSigningKey {
    /// The seed is always 32 bytes long.
    #[verifier::type_invariant]
    spec fn seed_fits(self) -> bool {
        self.seed@.len() == 32
    }

    pub closed spec fn level(self) -> MlDsaLevel {
        self.level
    }

    pub fn kind(&self) -> (l: MlDsaLevel)
        ensures
            l == self.level(),
    {
        self.level
    }

    /// The seed, from which `fromBytes` restores this key.
    pub fn bytes(&self) -> (b: Vec<u8>)
        ensures
            b@ == self@,
            b@.len() == 32,
    {
        proof {
            use_type_invariant(self);
        }
        slice_to_vec(self.seed.as_slice())
    }

    /// Signs `message`; fails only if the signing loop runs out of nonces.
    pub fn sign(&self, message: &[u8]) -> (r: Result<Vec<u8>, String>)
        ensures
            bytes_result(r) == mldsa_sign_result(self.level(), self@, message@),
            r matches Ok(sig) ==> mldsa_verify_result(
                self.level(),
                mldsa_verifying_key(self.level(), self@),
                sig@,
                message@,
            ) == Ok::<bool, Seq<char>>(true),
    {
        proof {
            use_type_invariant(self);
        }
        self.level.sign(self.seed.as_slice(), message)
    }

    /// Restores a key from its seed.
    #[allow(non_snake_case)]
    pub fn fromBytes(level: MlDsaLevel, bytes: &[u8]) -> (r: Result<Self, String>)
        ensures
            match r {
                Ok(k) => bytes@.len() == 32 && k@ == bytes@ && k.level() == level,
                Err(e) => bytes@.len() != 32 && e@ == length_message(
                    "Invalid seed length"@,
                    32,
                    bytes@.len(),
                ),
            },
    {
        if bytes.len() != 32 {
            return Err(length_message_string("Invalid seed length", 32, bytes.len()));
        }
        Ok(MlDsaSigningKey { level, seed: slice_to_vec(bytes) })
    }
}

/// An ML-DSA verifying key, kept as its encoding.
pub struct MlDsaVerifyingKey {
    level: MlDsaLevel,
    bytes: Vec<u8>,
}

impl Clone for MlDsaVerifyingKey {
    /// A copy with the same kind and the same bytes.
    fn clone(&self) -> (c: Self)
        ensures
            c@ == self@,
            c.level() == self.level(),
    {
        proof {
            use_type_invariant(self);
        }
        MlDsaVerifyingKey { level: self.level, bytes: slice_to_vec(self.bytes.as_slice()) }
    }
}

impl View for MlDsaVerifyingKey {
    type V = Seq<u8>;

    closed spec fn view(&self) -> Seq<u8> {
        self.bytes@
    }
}

impl MlDsaVerifyingKey {
    /// The encoding always has the level's length.
    #[verifier::type_invariant]
    spec fn encoding_fits(self) -> bool {
        self.bytes@.len() == self.level.vk_size()
    }

    pub closed spec fn level(self) -> MlDsaLevel {
        self.level
    }

    pub fn kind(&self) -> (l: MlDsaLevel)
        ensures
            l == self.level(),
    {
        self.level
    }

    /// The encoded key, from which `fromBytes` restores it.
    pub fn bytes(&self) -> (b: Vec<u8>)
        ensures
            b@ == self@,
            b@.len() == self.level().vk_size(),
    {
        proof {
            use_type_invariant(self);
        }
        slice_to_vec(self.bytes.as_slice())
    }

    /// Whether `signature` is valid on `message`; an error for a malformed signature.
    pub fn verify(&self, signature: &[u8], message: &[u8]) -> (r: Result<bool, String>)
        ensures
            bool_result(r) == mldsa_verify_result(self.level(), self@, signature@, message@),
    {
        self.level.verify(self.bytes.as_slice(), signature, message)
    }

    /// Restores a key from its encoding (of the level's length).
    #[allow(non_snake_case)]
    pub fn fromBytes(level: MlDsaLevel, bytes: &[u8]) -> (r: Result<Self, String>)
        ensures
            match r {
                Ok(k) => bytes@.len() == level.vk_size() && k@ == bytes@ && k.level() == level,
                Err(e) => bytes@.len() != level.vk_size() && e@ == length_message(
                    "Invalid key length"@,
                    level.vk_size(),
                    bytes@.len(),
                ),
            },
    {
        let expected = level.vk_len();
        if bytes.len() != expected {
            return Err(length_message_string("Invalid key length", expected, bytes.len()));
        }
        Ok(MlDsaVerifyingKey { level, bytes: slice_to_vec(bytes) })
    }
}

impl MlDsaLevel {
    /// A fresh keypair as key objects: (signing key, verifying key).
    #[allow(non_snake_case)]
    pub fn generateKeypair(&self) -> (r: (MlDsaSigningKey, MlDsaVerifyingKey))
        ensures
            r.0.level() == *self,
            r.1.level() == *self,
            mldsa_generated(*self, r.0@, r.1@),
    {
        let (seed, vk) = self.generate();
        (MlDsaSigningKey { level: *self, seed }, MlDsaVerifyingKey { level: *self, bytes: vk })
    }

    /// The keypair restored from a seed, as key objects.
    #[allow(non_snake_case)]
    pub fn keypairFromSeed(&self, seed: &[u8]) -> (r: Result<(MlDsaSigningKey, MlDsaVerifyingKey), String>)
        ensures
            match r {
                Ok((sk, vk)) => sk.level() == *self && vk.level() == *self
                    && mldsa_keypair_from_seed(*self, seed@) == Ok::<(Seq<u8>, Seq<u8>), Seq<char>>((sk@, vk@)),
                Err(e) => mldsa_keypair_from_seed(*self, seed@) == Err::<(Seq<u8>, Seq<u8>), Seq<char>>(e@),
            },
    {
        match self.keypair_from_seed(seed) {
            Ok((s, vk)) => Ok(
                (MlDsaSigningKey { level: *self, seed: s }, MlDsaVerifyingKey { level: *self, bytes: vk }),
            ),
            Err(e) => Err(e),
        }
    }
}

} // verus!
