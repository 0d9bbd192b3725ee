[package]
name = "gitforge"
version = "0.1.0"
edition = "2021"
publish = false

[dependencies]
git2 = "=0.19.0"
chrono = { version = "=0.4.45", features = ["serde"] }
axum = "0.7"
async-trait = "0.1"
tokio = { version = "1", features = ["macros", "rt-multi-thread", "process", "io-util", "net"] }
tower-http = { version = "0.5", features = ["trace"] }
tracing = "0.1"
tracing-subscriber = { version = "0.3", features = ["env-filter"] }
dotenv = "0.15"
bcrypt = "0.15"
rand = "0.8"
serde = { version = "1", features = ["derive"] }
sqlx = { version = "0.8", features = ["postgres", "runtime-tokio", "chrono"], default-features = false }

[dev-dependencies]
remove_dir_all = "*"
tempfile = "3"
walkdir = "2"
