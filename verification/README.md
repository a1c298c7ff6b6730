# php_ext_pqcrypto

Post-quantum cryptography for PHP: ML-KEM-512/768/1024 and X-Wing key
encapsulation, ML-DSA-44/65/87 and SLH-DSA (all twelve FIPS 205 parameter sets)
signatures. The cryptography itself is done by the RustCrypto crates `ml-kem`,
`x-wing`, `ml-dsa` and `slh-dsa`.

- `src/` is the library, verified with Verus: every operation on byte strings, the
  length checks and error messages, the selection of SLH-DSA parameter sets by name,
  and key objects whose encodings always have their algorithm's length. The calls
  into the cryptographic crates sit in `src/*_backend.rs`, each behind a contract
  stated over byte strings.
- `app/` is the PHP extension: the PHP classes (`PQCrypto\MLKem768`,
  `PQCrypto\MLDSA44\SigningKey`, `PQCrypto\SLHDSA`, ...) over the library's key
  objects, built with `ext-php-rs`.
- `tests/` runs the library against the real crates.
