//! Key encapsulation: ML-KEM-512/768/1024 and X-Wing (X25519 + ML-KEM-768).
//!
//! A decapsulation key is kept as its seed (64 bytes for ML-KEM, 32 for X-Wing), an
//! encapsulation key as its encoding. Every operation works on byte strings; the
//! lattice and curve arithmetic is done by `ml-kem` and `x-wing`.
use crate::kem_backend::{
    ek_coefficients_reduced, mlkem1024_decapsulate, mlkem1024_encapsulate, mlkem1024_generate,
    mlkem512_decapsulate, mlkem512_encapsulate, mlkem512_generate, mlkem768_decapsulate,
    mlkem768_encapsulate, mlkem768_generate, mlkem_encapsulation, mlkem_encapsulation_key,
    mlkem_shared_secret, random_bytes, xwing_decapsulate, xwing_encapsulate,
    xwing_encapsulation, xwing_encapsulation_key, xwing_generate, xwing_shared_secret,
};
use crate::text::{length_message, length_message_string};
use vstd::prelude::*;
use vstd::slice::slice_to_vec;

verus! {

/// The key encapsulation mechanisms of this library.
#[derive(Clone, Copy, Debug, PartialEq, Eq, Structural)]
pub enum KemAlgorithm {
    MlKem512,
    MlKem768,
    MlKem1024,
    XWing,
}

impl KemAlgorithm {
    /// Length of a decapsulation key's seed.
    pub open spec fn seed_size(self) -> nat {
        match self {
            KemAlgorithm::XWing => 32,
            _ => 64,
        }
    }

    /// Length of an encoded encapsulation key.
    pub open spec fn ek_size(self) -> nat {
        match self {
            KemAlgorithm::MlKem512 => 800,
            KemAlgorithm::MlKem768 => 1184,
            KemAlgorithm::MlKem1024 => 1568,
            KemAlgorithm::XWing => 1216,
        }
    }

    /// Length of a ciphertext.
    pub open spec fn ct_size(self) -> nat {
        match self {
            KemAlgorithm::MlKem512 => 768,
            KemAlgorithm::MlKem768 => 1088,
            KemAlgorithm::MlKem1024 => 1568,
            KemAlgorithm::XWing => 1120,
        }
    }

    /// Rank k of the ML-KEM module lattice (X-Wing embeds ML-KEM-768).
    pub open spec fn rank(self) -> nat {
        match self {
            KemAlgorithm::MlKem512 => 2,
            KemAlgorithm::MlKem1024 => 4,
            _ => 3,
        }
    }

    /// Bytes of randomness one encapsulation draws.
    pub open spec fn rand_size(self) -> nat {
        match self {
            KemAlgorithm::XWing => 64,
            _ => 32,
        }
    }

    pub fn rand_len(&self) -> (n: usize)
        ensures
            n == self.rand_size(),
    {
        match self {
            KemAlgorithm::XWing => 64,
            _ => 32,
        }
    }

    pub fn seed_len(&self) -> (n: usize)
        ensures
            n == self.seed_size(),
    {
        match self {
            KemAlgorithm::XWing => 32,
            _ => 64,
        }
    }

    pub fn ek_len(&self) -> (n: usize)
        ensures
            n == self.ek_size(),
    {
        match self {
            KemAlgorithm::MlKem512 => 800,
            KemAlgorithm::MlKem768 => 1184,
            KemAlgorithm::MlKem1024 => 1568,
            KemAlgorithm::XWing => 1216,
        }
    }

    pub fn ct_len(&self) -> (n: usize)
        ensures
            n == self.ct_size(),
    {
        match self {
            KemAlgorithm::MlKem512 => 768,
            KemAlgorithm::MlKem768 => 1088,
            KemAlgorithm::MlKem1024 => 1568,
            KemAlgorithm::XWing => 1120,
        }
    }
}

/// Whether `encapsulate` accepts these encapsulation-key bytes: the right length, and
/// the encoded ML-KEM vector passes the FIPS 203 modulus check (for X-Wing, the
/// ML-KEM-768 key in its first 1184 bytes; its X25519 part is never refused).
pub open spec fn ek_accepted(alg: KemAlgorithm, ek: Seq<u8>) -> bool {
    match alg {
        KemAlgorithm::XWing => ek.len() == 1216 && ek_coefficients_reduced(ek.subrange(0, 1184), 3),
        _ => ek.len() == alg.ek_size() && ek_coefficients_reduced(ek, alg.rank()),
    }
}

/// The message with which `encapsulate` refuses a key that `ek_accepted` rejects.
/// ML-KEM checks the length first; X-Wing reports a wrong length as an invalid key.
pub open spec fn ek_rejection(alg: KemAlgorithm, ek: Seq<u8>) -> Seq<char> {
    if alg != KemAlgorithm::XWing && ek.len() != alg.ek_size() {
        "Invalid encapsulation key length"@
    } else {
        "Invalid encapsulation key: "@ + "InvalidKey"@
    }
}

/// The encapsulation key of the decapsulation key restored from `seed`.
pub open spec fn encapsulation_key_of(alg: KemAlgorithm, seed: Seq<u8>) -> Seq<u8> {
    match alg {
        KemAlgorithm::XWing => xwing_encapsulation_key(seed),
        _ => mlkem_encapsulation_key(alg, seed),
    }
}

/// (shared secret, ciphertext) that encapsulating to `ek` with the randomness `m`
/// (of `alg.rand_size()` bytes) produces.
pub open spec fn encapsulation_with(alg: KemAlgorithm, ek: Seq<u8>, m: Seq<u8>) -> (
    Seq<u8>,
    Seq<u8>,
) {
    match alg {
        KemAlgorithm::XWing => xwing_encapsulation(ek, m),
        _ => mlkem_encapsulation(alg, ek, m),
    }
}

/// The result of encapsulating to `ek` with the randomness `m`: the pair that
/// `encapsulation_with` gives when the key is accepted, else the rejection message.
pub open spec fn encapsulation_with_result(alg: KemAlgorithm, ek: Seq<u8>, m: Seq<u8>) -> Result<
    (Seq<u8>, Seq<u8>),
    Seq<char>,
> {
    if ek_accepted(alg, ek) {
        Ok(encapsulation_with(alg, ek, m))
    } else {
        Err(ek_rejection(alg, ek))
    }
}

/// A pair result seen through its views.
pub open spec fn pair_result(r: Result<(Vec<u8>, Vec<u8>), String>) -> Result<
    (Seq<u8>, Seq<u8>),
    Seq<char>,
> {
    match r {
        Ok((a, b)) => Ok((a@, b@)),
        Err(e) => Err(e@),
    }
}

/// What holds of every outcome of `encapsulate(ek)`: success exactly when the key is
/// accepted, and then the pair is (a 32-byte shared secret, a ciphertext of the
/// algorithm's length) that encapsulating to `ek` with some randomness of the
/// algorithm's size produces; otherwise the rejection message.
pub open spec fn encapsulation_outcome(
    alg: KemAlgorithm,
    ek: Seq<u8>,
    r: Result<(Vec<u8>, Vec<u8>), String>,
) -> bool {
    match r {
        Ok((ss, ct)) => {
            &&& ek_accepted(alg, ek)
            &&& ss@.len() == 32
            &&& ct@.len() == alg.ct_size()
            &&& exists|m: Seq<u8>|
                m.len() == alg.rand_size() && #[trigger] encapsulation_with(alg, ek, m) == (
                    ss@,
                    ct@,
                )
        },
        Err(e) => !ek_accepted(alg, ek) && e@ == ek_rejection(alg, ek),
    }
}

/// The shared secret that decapsulating `ct` with the key restored from `seed` yields.
pub open spec fn shared_secret(alg: KemAlgorithm, seed: Seq<u8>, ct: Seq<u8>) -> Seq<u8> {
    match alg {
        KemAlgorithm::XWing => xwing_shared_secret(seed, ct),
        _ => mlkem_shared_secret(alg, seed, ct),
    }
}

/// The result of `decapsulate(seed, ct)`.
pub open spec fn decapsulation(alg: KemAlgorithm, seed: Seq<u8>, ct: Seq<u8>) -> Result<
    Seq<u8>,
    Seq<char>,
> {
    if seed.len() != alg.seed_size() {
        Err("Invalid seed length"@)
    } else if ct.len() != alg.ct_size() {
        Err("Invalid ciphertext length"@)
    } else {
        Ok(shared_secret(alg, seed, ct))
    }
}

/// A byte result seen through its views.
pub open spec fn bytes_result(r: Result<Vec<u8>, String>) -> Result<Seq<u8>, Seq<char>> {
    match r {
        Ok(b) => Ok(b@),
        Err(e) => Err(e@),
    }
}

/// What holds of every keypair that `generate` returns: the seed has the algorithm's
/// length, the key is the encapsulation key of the decapsulation key restored from
/// that seed, has the algorithm's length, and `encapsulate` accepts it.
pub open spec fn generated_keypair(alg: KemAlgorithm, seed: Seq<u8>, ek: Seq<u8>) -> bool {
    &&& seed.len() == alg.seed_size()
    &&& ek == encapsulation_key_of(alg, seed)
    &&& ek.len() == alg.ek_size()
    &&& ek_accepted(alg, ek)
}

impl KemAlgorithm {
    /// Generates a fresh keypair: the decapsulation key's seed and the encoded
    /// encapsulation key.
    pub fn generate(&self) -> (r: (Vec<u8>, Vec<u8>))
        ensures
            generated_keypair(*self, r.0@, r.1@),
            *self == KemAlgorithm::XWing ==> r.1@ == xwing_encapsulation_key(r.0@),
            *self != KemAlgorithm::XWing ==> r.1@ == mlkem_encapsulation_key(*self, r.0@),
    {
        match self {
            KemAlgorithm::MlKem512 => mlkem512_generate(),
            KemAlgorithm::MlKem768 => mlkem768_generate(),
            KemAlgorithm::MlKem1024 => mlkem1024_generate(),
            KemAlgorithm::XWing => xwing_generate(),
        }
    }

    /// Encapsulates a fresh shared secret to the holder of `ek_bytes`'s decapsulation
    /// key; returns (shared secret, ciphertext).
    pub fn encapsulate(&self, ek_bytes: &[u8]) -> (r: Result<(Vec<u8>, Vec<u8>), String>)
        ensures
            encapsulation_outcome(*self, ek_bytes@, r),
            r matches Ok((ss, ct)) ==> (*self == KemAlgorithm::XWing ==> exists|m: Seq<u8>|
                m.len() == 64 && #[trigger] xwing_encapsulation(ek_bytes@, m) == (ss@, ct@)),
            r matches Ok((ss, ct)) ==> (*self != KemAlgorithm::XWing ==> exists|m: Seq<u8>|
                m.len() == 32 && #[trigger] mlkem_encapsulation(*self, ek_bytes@, m) == (
                    ss@,
                    ct@,
                )),
    {
        if *self != KemAlgorithm::XWing && ek_bytes.len() != self.ek_len() {
            return Err(String::from_str("Invalid encapsulation key length"));
        }
        let m = random_bytes(self.rand_len());
        let r = self.encapsulate_with_randomness(ek_bytes, m.as_slice());
        match r {
            Ok((ss, ct)) => {
                assert(encapsulation_with(*self, ek_bytes@, m@) == (ss@, ct@));
                Ok((ss, ct))
            },
            Err(e) => Err(e),
        }
    }

    /// Encapsulates to the holder of `ek_bytes`'s decapsulation key with the given
    /// randomness `m` (32 bytes for ML-KEM, 64 for X-Wing, as `encapsulate` draws);
    /// returns (shared secret, ciphertext). The same key and randomness always give
    /// the same result, which makes known-answer tests possible.
    pub fn encapsulate_with_randomness(&self, ek_bytes: &[u8], m: &[u8]) -> (r: Result<
        (Vec<u8>, Vec<u8>),
        String,
    >)
        requires
            m@.len() == self.rand_size(),
        ensures
            pair_result(r) == encapsulation_with_result(*self, ek_bytes@, m@),
            r matches Ok((ss, ct)) ==> ss@.len() == 32 && ct@.len() == self.ct_size(),
            r matches Ok((ss, ct)) ==> (*self == KemAlgorithm::XWing ==> (ss@, ct@)
                == xwing_encapsulation(ek_bytes@, m@)),
            r matches Ok((ss, ct)) ==> (*self != KemAlgorithm::XWing ==> (ss@, ct@)
                == mlkem_encapsulation(*self, ek_bytes@, m@)),
    {
        if *self != KemAlgorithm::XWing && ek_bytes.len() != self.ek_len() {
            return Err(String::from_str("Invalid encapsulation key length"));
        }
        let r = match self {
            KemAlgorithm::MlKem512 => mlkem512_encapsulate(ek_bytes, m),
            KemAlgorithm::MlKem768 => mlkem768_encapsulate(ek_bytes, m),
            KemAlgorithm::MlKem1024 => mlkem1024_encapsulate(ek_bytes, m),
            KemAlgorithm::XWing => xwing_encapsulate(ek_bytes, m),
        };
        match r {
            Ok(pair) => Ok(pair),
            Err(e) => Err(String::from_str("Invalid encapsulation key: ").concat(e.as_str())),
        }
    }

    /// Recovers the shared secret from a ciphertext with the key restored from `seed`.
    pub fn decapsulate(&self, seed: &[u8], ct: &[u8]) -> (r: Result<Vec<u8>, String>)
        ensures
            bytes_result(r) == decapsulation(*self, seed@, ct@),
            r matches Ok(ss) ==> ss@.len() == 32,
            r matches Ok(ss) ==> (*self == KemAlgorithm::XWing ==> ss@ == xwing_shared_secret(
                seed@,
                ct@,
            )),
            r matches Ok(ss) ==> (*self != KemAlgorithm::XWing ==> ss@ == mlkem_shared_secret(
                *self,
                seed@,
                ct@,
            )),
    {
        if seed.len() != self.seed_len() {
            return Err(String::from_str("Invalid seed length"));
        }
        let ss = match self {
            KemAlgorithm::MlKem512 => mlkem512_decapsulate(seed, ct),
            KemAlgorithm::MlKem768 => mlkem768_decapsulate(seed, ct),
            KemAlgorithm::MlKem1024 => mlkem1024_decapsulate(seed, ct),
            KemAlgorithm::XWing => xwing_decapsulate(seed, ct),
        };
        match ss {
            Some(ss) => Ok(ss),
            None => Err(String::from_str("Invalid ciphertext length")),
        }
    }
}

/// The operations of one key encapsulation mechanism, on byte strings.
pub trait KemOps {
    /// The mechanism these operations implement.
    spec fn algorithm() -> KemAlgorithm;

    /// A fresh keypair: (decapsulation-key seed, encapsulation key).
    fn generate() -> (r: (Vec<u8>, Vec<u8>))
        ensures
            generated_keypair(Self::algorithm(), r.0@, r.1@),
    ;

    /// (shared secret, ciphertext) for the holder of `ek_bytes`'s decapsulation key.
    fn encapsulate(ek_bytes: &[u8]) -> (r: Result<(Vec<u8>, Vec<u8>), String>)
        ensures
            encapsulation_outcome(Self::algorithm(), ek_bytes@, r),
    ;

    /// The shared secret in `ct`, for the key restored from `seed`.
    fn decapsulate(seed: &[u8], ct: &[u8]) -> (r: Result<Vec<u8>, String>)
        ensures
            bytes_result(r) == decapsulation(Self::algorithm(), seed@, ct@),
            r matches Ok(ss) ==> ss@.len() == 32,
    ;

    fn seed_len() -> (n: usize)
        ensures
            n == Self::algorithm().seed_size(),
    ;

    fn ek_len() -> (n: usize)
        ensures
            n == Self::algorithm().ek_size(),
    ;
}

/// ML-KEM-512 (FIPS 203, security category 1).
pub struct MlKem512Ops;

/// ML-KEM-768 (FIPS 203, security category 3).
pub struct MlKem768Ops;

/// ML-KEM-1024 (FIPS 203, security category 5).
pub struct MlKem1024Ops;

/// X-Wing: the hybrid of X25519 and ML-KEM-768.
pub struct XWingOps;

impl KemOps for MlKem512Ops {
    open spec fn algorithm() -> KemAlgorithm {
        KemAlgorithm::MlKem512
    }

    fn generate() -> (r: (Vec<u8>, Vec<u8>)) {
        KemAlgorithm::MlKem512.generate()
    }

    fn encapsulate(ek_bytes: &[u8]) -> (r: Result<(Vec<u8>, Vec<u8>), String>) {
        KemAlgorithm::MlKem512.encapsulate(ek_bytes)
    }

    fn decapsulate(seed: &[u8], ct: &[u8]) -> (r: Result<Vec<u8>, String>) {
        KemAlgorithm::MlKem512.decapsulate(seed, ct)
    }

    fn seed_len() -> (n: usize) {
        KemAlgorithm::MlKem512.seed_len()
    }

    fn ek_len() -> (n: usize) {
        KemAlgorithm::MlKem512.ek_len()
    }
}

impl KemOps for MlKem768Ops {
    open spec fn algorithm() -> KemAlgorithm {
        KemAlgorithm::MlKem768
    }

    fn generate() -> (r: (Vec<u8>, Vec<u8>)) {
        KemAlgorithm::MlKem768.generate()
    }

    fn encapsulate(ek_bytes: &[u8]) -> (r: Result<(Vec<u8>, Vec<u8>), String>) {
        KemAlgorithm::MlKem768.encapsulate(ek_bytes)
    }

    fn decapsulate(seed: &[u8], ct: &[u8]) -> (r: Result<Vec<u8>, String>) {
        KemAlgorithm::MlKem768.decapsulate(seed, ct)
    }

    fn seed_len() -> (n: usize) {
        KemAlgorithm::MlKem768.seed_len()
    }

    fn ek_len() -> (n: usize) {
        KemAlgorithm::MlKem768.ek_len()
    }
}

impl KemOps for MlKem1024Ops {
    open spec fn algorithm() -> KemAlgorithm {
        KemAlgorithm::MlKem1024
    }

    fn generate() -> (r: (Vec<u8>, Vec<u8>)) {
        KemAlgorithm::MlKem1024.generate()
    }

    fn encapsulate(ek_bytes: &[u8]) -> (r: Result<(Vec<u8>, Vec<u8>), String>) {
        KemAlgorithm::MlKem1024.encapsulate(ek_bytes)
    }

    fn decapsulate(seed: &[u8], ct: &[u8]) -> (r: Result<Vec<u8>, String>) {
        KemAlgorithm::MlKem1024.decapsulate(seed, ct)
    }

    fn seed_len() -> (n: usize) {
        KemAlgorithm::MlKem1024.seed_len()
    }

    fn ek_len() -> (n: usize) {
        KemAlgorithm::MlKem1024.ek_len()
    }
}

impl KemOps for XWingOps {
    open spec fn algorithm() -> KemAlgorithm {
        KemAlgorithm::XWing
    }

    fn generate() -> (r: (Vec<u8>, Vec<u8>)) {
        KemAlgorithm::XWing.generate()
    }

    fn encapsulate(ek_bytes: &[u8]) -> (r: Result<(Vec<u8>, Vec<u8>), String>) {
        KemAlgorithm::XWing.encapsulate(ek_bytes)
    }

    fn decapsulate(seed: &[u8], ct: &[u8]) -> (r: Result<Vec<u8>, String>) {
        KemAlgorithm::XWing.decapsulate(seed, ct)
    }

    fn seed_len() -> (n: usize) {
        KemAlgorithm::XWing.seed_len()
    }

    fn ek_len() -> (n: usize) {
        KemAlgorithm::XWing.ek_len()
    }
}

/// The result of importing a decapsulation key's seed: the seed itself when it has
/// the algorithm's length, else the length message.
pub open spec fn seed_import(alg: KemAlgorithm, bytes: Seq<u8>) -> Result<Seq<u8>, Seq<char>> {
    if bytes.len() == alg.seed_size() {
        Ok(bytes)
    } else {
        Err(length_message("Invalid seed length"@, alg.seed_size(), bytes.len()))
    }
}

/// The result of importing an encoded encapsulation key: the bytes themselves when
/// they have the algorithm's length, else the length message. (Whether the
/// coefficients are reduced is checked only by `encapsulate`.)
pub open spec fn ek_import(alg: KemAlgorithm, bytes: Seq<u8>) -> Result<Seq<u8>, Seq<char>> {
    if bytes.len() == alg.ek_size() {
        Ok(bytes)
    } else {
        Err(length_message("Invalid key length"@, alg.ek_size(), bytes.len()))
    }
}

/// A decapsulation key of one algorithm, kept as its seed.
pub struct KemDecapsulationKey {
    alg: KemAlgorithm,
    seed: Vec<u8>,
}

impl Clone for KemDecapsulationKey {
    /// A copy with the same kind and the same bytes.
    fn clone(&self) -> (c: Self)
        ensures
            c@ == self@,
            c.algorithm() == self.algorithm(),
    {
        proof {
            use_type_invariant(self);
        }
        KemDecapsulationKey { alg: self.alg, seed: slice_to_vec(self.seed.as_slice()) }
    }
}

impl View for KemDecapsulationKey {
    type V = Seq<u8>;

    closed spec fn view(&self) -> Seq<u8> {
        self.seed@
    }
}

impl KemDecapsulationKey {
    /// The seed always has the algorithm's length.
    #[verifier::type_invariant]
    spec fn seed_fits(self) -> bool {
        self.seed@.len() == self.alg.seed_size()
    }

    pub closed spec fn algorithm(self) -> KemAlgorithm {
        self.alg
    }

    pub fn kind(&self) -> (a: KemAlgorithm)
        ensures
            a == self.algorithm(),
    {
        self.alg
    }

    /// The seed, from which `fromBytes` restores this key.
    pub fn bytes(&self) -> (b: Vec<u8>)
        ensures
            b@ == self@,
            b@.len() == self.algorithm().seed_size(),
    {
        proof {
            use_type_invariant(self);
        }
        slice_to_vec(self.seed.as_slice())
    }

    /// The shared secret in `ciphertext`; fails only on a ciphertext of the wrong length.
    pub fn decapsulate(&self, ciphertext: &[u8]) -> (r: Result<Vec<u8>, String>)
        ensures
            bytes_result(r) == decapsulation(self.algorithm(), self@, ciphertext@),
            r is Err <==> ciphertext@.len() != self.algorithm().ct_size(),
            r matches Ok(ss) ==> ss@.len() == 32,
    {
        proof {
            use_type_invariant(self);
        }
        self.alg.decapsulate(self.seed.as_slice(), ciphertext)
    }

    /// Restores a key from its seed.
    #[allow(non_snake_case)]
    pub fn fromBytes(alg: KemAlgorithm, bytes: &[u8]) -> (r: Result<Self, String>)
        ensures
            match r {
                Ok(k) => seed_import(alg, bytes@) == Ok::<Seq<u8>, Seq<char>>(k@) && k.algorithm()
                    == alg,
                Err(e) => seed_import(alg, bytes@) == Err::<Seq<u8>, Seq<char>>(e@),
            },
    {
        let expected = alg.seed_len();
        if bytes.len() != expected {
            return Err(length_message_string("Invalid seed length", expected, bytes.len()));
        }
        Ok(KemDecapsulationKey { alg, seed: slice_to_vec(bytes) })
    }
}

/// An encapsulation key of one algorithm, kept as its encoding.
pub struct KemEncapsulationKey {
    alg: KemAlgorithm,
    bytes: Vec<u8>,
}

impl Clone for KemEncapsulationKey {
    /// A copy with the same kind and the same bytes.
    fn clone(&self) -> (c: Self)
        ensures
            c@ == self@,
            c.algorithm() == self.algorithm(),
    {
        proof {
            use_type_invariant(self);
        }
        KemEncapsulationKey { alg: self.alg, bytes: slice_to_vec(self.bytes.as_slice()) }
    }
}

impl View for KemEncapsulationKey {
    type V = Seq<u8>;

    closed spec fn view(&self) -> Seq<u8> {
        self.bytes@
    }
}

impl KemEncapsulationKey {
    /// The encoding always has the algorithm's length.
    #[verifier::type_invariant]
    spec fn encoding_fits(self) -> bool {
        self.bytes@.len() == self.alg.ek_size()
    }

    pub closed spec fn algorithm(self) -> KemAlgorithm {
        self.alg
    }

    pub fn kind(&self) -> (a: KemAlgorithm)
        ensures
            a == self.algorithm(),
    {
        self.alg
    }

    /// The encoded key, from which `fromBytes` restores it.
    pub fn bytes(&self) -> (b: Vec<u8>)
        ensures
            b@ == self@,
            b@.len() == self.algorithm().ek_size(),
    {
        proof {
            use_type_invariant(self);
        }
        slice_to_vec(self.bytes.as_slice())
    }

    /// Encapsulates a fresh shared secret; returns (shared secret, ciphertext).
    pub fn encapsulate(&self) -> (r: Result<(Vec<u8>, Vec<u8>), String>)
        ensures
            encapsulation_outcome(self.algorithm(), self@, r),
    {
        self.alg.encapsulate(self.bytes.as_slice())
    }

    /// Restores a key from its encoding (of the algorithm's length).
    #[allow(non_snake_case)]
    pub fn fromBytes(alg: KemAlgorithm, bytes: &[u8]) -> (r: Result<Self, String>)
        ensures
            match r {
                Ok(k) => ek_import(alg, bytes@) == Ok::<Seq<u8>, Seq<char>>(k@) && k.algorithm()
                    == alg,
                Err(e) => ek_import(alg, bytes@) == Err::<Seq<u8>, Seq<char>>(e@),
            },
    {
        let expected = alg.ek_len();
        if bytes.len() != expected {
            return Err(length_message_string("Invalid key length", expected, bytes.len()));
        }
        Ok(KemEncapsulationKey { alg, bytes: slice_to_vec(bytes) })
    }
}

impl KemAlgorithm {
    /// A fresh keypair as key objects: (decapsulation key, encapsulation key).
    #[allow(non_snake_case)]
    pub fn generateKeypair(&self) -> (r: (KemDecapsulationKey, KemEncapsulationKey))
        ensures
            r.0.algorithm() == *self,
            r.1.algorithm() == *self,
            generated_keypair(*self, r.0@, r.1@),
    {
        let (seed, ek) = self.generate();
        (KemDecapsulationKey { alg: *self, seed }, KemEncapsulationKey { alg: *self, bytes: ek })
    }
}

} // verus!
