[package]
name = "zk_intent_prover"
version = "0.1.0"
edition = "2021"
publish = false

[dependencies]
anyhow = "1"
axum = "*"
p3-air = "*"
p3-baby-bear = "*"
p3-challenger = "*"
p3-commit = "*"
p3-dft = "*"
p3-field = "*"
p3-fri = "*"
p3-matrix = "*"
p3-merkle-tree = "*"
p3-poseidon2 = "*"
p3-symmetric = "*"
p3-uni-stark = "*"
rand = "*"
serde = { version = "1", features = ["derive"] }
serde_json = "1"
sha2 = "0.10"
tokio = { version = "1", features = ["macros", "rt-multi-thread", "net"] }
tower-http = { version = "*", features = ["cors"] }
tracing = "0.1"
tracing-subscriber = { version = "0.3", features = ["env-filter"] }
