[package]
name = "ivc_fold"
version = "0.1.0"
edition = "2021"
publish = false

[dependencies]
ark-crypto-primitives = { version = "=0.6.0", features = ["sponge"] }
ark-ed-on-bn254 = "=0.6.0"
ark-ff = "=0.6.0"
nova-scotia = "=0.5.0"
nova-snark = "=0.23.0"
num-bigint = "=0.5.1"
pasta_curves = "=0.5.2"
serde_json = "=1.0.151"
