[package]
name = "nearby_stations"
version = "0.1.0"
edition = "2021"
publish = false

[dependencies]
serde = { version = "=1.0.229", features = ["derive"] }
serde_json = "=1.0.151"
reqwest = { version = "=0.12.28", default-features = false, features = ["json"] }
wasm-bindgen = "=0.2.129"
wasm-bindgen-futures = "=0.4.79"
web-sys = { version = "=0.3.106", features = ["Window", "Navigator", "Geolocation", "Position", "PositionError", "Coordinates"] }
yew = { version = "=0.21.0", features = ["csr"] }
yew-router = "=0.18.0"
