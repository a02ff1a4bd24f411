[package]
name = "voice_session"
version = "0.1.0"
edition = "2021"
publish = false

[dependencies]
pyo3 = "0.20"
pyo3-asyncio = { version = "0.20", features = ["tokio-runtime"] }
songbird = { version = "0.3", default-features = false, features = ["driver", "rustls"] }
tokio = { version = "1", features = ["sync", "rt-multi-thread"] }
