[package]
name = "timetable_bot"
version = "0.1.0"
edition = "2021"
publish = false

[dependencies]
carapax = { version = "=0.40.0", features = ["session-fs"] }
chrono = "=0.4.45"
dotenv = "=0.15.0"
log = "=0.4.34"
once_cell = "=1.21.4"
reqwest = { version = "=0.13.5", features = ["json"] }
serde = { version = "=1.0.229", features = ["derive"] }
simplelog = "=0.12.2"
tokio = { version = "=1.53.2", features = ["macros", "rt-multi-thread"] }
