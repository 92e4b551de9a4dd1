[package]
name = "passport_prover"
version = "0.1.0"
edition = "2021"
publish = false

[dependencies]
ark-circom = "=0.6.0"
ark-bn254 = "=0.6.0"
ark-ff = "=0.6.0"
ark-groth16 = "=0.6.0"
ark-crypto-primitives = { version = "=0.6.0", features = ["snark"] }
ark-relations = "=0.6.0"
ark-serialize = "=0.6.0"
ark-std = { version = "=0.6.0", features = ["getrandom"] }
color-eyre = "=0.6.5"
wasmer = "=6.1.0"
jni = "=0.19.0"
log = "=0.4.34"
android_logger = "=0.11.3"
