[package]
name = "mirnet_server"
version = "0.1.0"
edition = "2021"
publish = false

[dependencies]
rusqlite = { version = "*", features = ["bundled"] }
argon2 = "*"
uuid = { version = "*", features = ["v4"] }
chrono = { version = "*", default-features = false, features = ["clock"] }
image = { version = "*", default-features = false, features = ["png", "jpeg"] }
actix-web = { version = "*", default-features = false, features = ["macros", "cookies"] }
actix-identity = "*"
actix-session = { version = "*", features = ["cookie-session"] }
actix-multipart = "*"
actix-cors = "*"
actix-files = "*"
serde = { version = "*", features = ["derive"] }
futures = "*"
structopt = "*"
tensorflow = "*"
