[package]
name = "fitness_core"
version = "0.1.0"
edition = "2021"
publish = false

[dependencies]
uuid = { version = "=1.29.0", features = ["serde"] }
leptos = { version = "=0.6.15", features = ["ssr"] }
leptos_axum = "=0.6.15"
leptos_meta = { version = "=0.6.15", features = ["ssr"] }
leptos_router = { version = "=0.6.15", features = ["ssr"] }
sqlx = { version = "=0.7.4", default-features = false, features = ["postgres", "runtime-tokio", "uuid", "chrono"] }
