[package]
name = "actix_middleware_discord_interactions"
version = "0.1.0"
edition = "2021"
publish = false

[dependencies]
actix-middleware-ed25519-authentication = "*"
actix-web = "*"
futures-util = "*"
ed25519-dalek = "*"
