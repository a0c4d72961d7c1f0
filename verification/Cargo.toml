[package]
name = "request_pipeline"
version = "0.1.0"
edition = "2021"
publish = false

[dependencies]
axum = { version = "=0.6.20", features = ["headers"] }
bytes = "=1.12.1"
http-body = "=0.4.6"
serde = { version = "=1.0.229", features = ["derive"] }
serde_json = "=1.0.154"
ciborium = "=0.2.2"
rmp-serde = "=1.3.1"
surrealdb = { version = "=1.0.0", default-features = false }
tower-http = { version = "=0.4.4", features = ["limit"] }
# Nothing here calls darling. It is named to hold it at a release with which
# revision-derive, a derive crate that surrealdb builds on, still compiles.
darling = "=0.20.3"
