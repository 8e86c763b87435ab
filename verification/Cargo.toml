[package]
name = "bulma_notifications"
version = "0.1.0"
edition = "2021"
publish = false

[dependencies]
yew = "=0.18.0"
