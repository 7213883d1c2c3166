[package]
name = "picture_upload"
version = "0.1.0"
edition = "2021"
publish = false

[dependencies]
anyhow = "1"
base64 = "0.21"
diesel = { version = "2", features = ["sqlite"] }
image = "0.24"
kamadak-exif = "0.5"
rand = "0.8"
rocket = { version = "0.5", features = ["json"] }
rocket_auth = { version = "0.4", features = ["rusqlite"] }
rocket_dyn_templates = { version = "0.1", features = ["tera"] }
rocket_sync_db_pools = { version = "0.1", features = ["diesel_sqlite_pool"] }
seahash = "4"
