[package]
name = "php_ext_pqcrypto"
version = "0.1.0"
edition = "2021"
publish = false

[dependencies]
ml-kem = "=0.3.4"
ml-dsa = "=0.1.2"
slh-dsa = "=0.1.0"
x-wing = { version = "=0.1.1", features = ["getrandom"] }
rand = "=0.10.3"
rand_core = { version = "=0.6.4", features = ["getrandom"] }
signature = "=2.3.0-pre.4"
ext-php-rs = "=0.16.4"
