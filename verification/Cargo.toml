[package]
name = "activity_digest"
version = "0.1.0"
edition = "2021"
publish = false

[dependencies]
dotenv = "*"
flowsnet-platform-sdk = "*"
github-flows = "*"
http_req = "*"
log = "*"
openai-flows = "*"
serde = { version = "*", features = ["derive"] }
serde_json = "*"
slack-flows = "*"
tokio = { version = "*", features = ["macros", "rt"] }
urlencoding = "*"
