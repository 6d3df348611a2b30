[package]
name = "rcxcore"
version = "0.1.0"
edition = "2021"
publish = false

[dependencies]
aes-gcm = "0.10"
argon2 = "0.5"
clap = { version = "4", features = ["derive"] }
ffmpeg-next = "*"
hex = "0.4"
hkdf = "0.12"
hmac = "0.12"
jni = "0.21"
rand_core = { version = "0.6", features = ["getrandom"] }
sha2 = "0.10"
subtle = "2"
x25519-dalek = { version = "2", features = ["static_secrets"] }
zeroize = "1"
