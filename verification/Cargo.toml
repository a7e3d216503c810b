[package]
name = "hyperpumpkin"
version = "0.1.0"
edition = "2021"
publish = false

[dependencies]
aes = "0.8"
anyhow = "1"
base64 = "0.22"
bytes = "1"
cfb8 = "0.8"
ctrlc = "3"
derive_more = { version = "1", features = ["deref", "deref_mut"] }
flate2 = "1"
flecs_ecs = "0.2"
hmac = "0.12"
lazy_static = "1"
md5 = "0.7"
rand = "0.8"
rsa = "0.9"
serde_json = "1"
sha2 = "0.10"
sharded-slab = "0.1"
thiserror = "1"
tracing = "0.1"
tracing-chrome = "0.7"
tracing-subscriber = "0.3"
uuid = "1"
valence_text = "0.2.0-alpha.1"
