[package]
name = "ssb_patchql"
version = "0.1.0"
edition = "2021"
publish = false

[dependencies]
base64 = "0.10"
bytes = "0.4"
serde = "1"
serde_derive = "1"
serde_json = "1"
diesel = { version = "1.4", features = ["sqlite"] }
diesel_migrations = "1.4"
dotenv = "0.15"
env_logger = "0.6"
log = "0.4"
flumedb = "*"
private-box = "*"
itertools = "0.8"
juniper = "0.11"
juniper_iron = "0.3"
iron = "0.6"
iron-cors = "*"
mount = "0.4"
logger = "0.4"
ssb-causal-sort = "*"
ssb-multiformats = "*"
