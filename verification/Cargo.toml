[package]
name = "gaze"
version = "0.1.0"
edition = "2021"
publish = false

[dependencies]
aes-gcm = "=0.11.1"
anyhow = "1"
clap = { version = "4", features = ["derive"] }
clap_complete = { version = "4", features = ["unstable-dynamic"] }
console = "=0.16.6"
dialoguer = "=0.12.0"
futures = "0.3"
getrandom = "=0.4.3"
image = { version = "=0.25.10", default-features = false, features = ["jpeg"] }
libc = "0.2"
serde = { version = "1", features = ["derive"] }
sha2 = "=0.11.1"
tokio = { version = "1", features = ["full"] }
toml = "=1.1.8"
tracing = "0.1"
zbus = { version = "=5.19.0", default-features = false, features = ["tokio"] }
zeroize = "=1.9.1"
zvariant = "5"
