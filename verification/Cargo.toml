[package]
name = "bitwarden-ssh-agent"
version = "0.1.0"
edition = "2021"
publish = false

[dependencies]
anyhow = "=1.0.104"
clap = { version = "=4.6.7", features = ["derive"] }
env_logger = "=0.11.11"
indicatif = "=0.17.11"
inquire = "=0.7.5"
log = "=0.4.35"
rsa = { version = "=0.9.10", features = ["sha2"] }
secrecy = "=0.10.3"
serde = { version = "=1.0.229", features = ["derive"] }
serde_json = "=1.0.154"
signature = "=2.2.0"
ssh-agent-lib = "0.6"
ssh-key = { version = "=0.6.7", features = ["alloc", "std", "crypto", "ed25519", "rsa", "p256", "p384", "encryption", "getrandom"] }
tokio = { version = "=1.54.1", features = ["io-util", "macros", "net", "process", "rt-multi-thread", "signal", "sync", "time"] }
toml = "=0.8.23"
zeroize = "=1.9.1"
