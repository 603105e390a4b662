[package]
name = "chat-prompts"
version = "0.1.0"
edition = "2021"
publish = false

[dependencies]
endpoints = "0.1"
