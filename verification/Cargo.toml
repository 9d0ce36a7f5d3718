[package]
name = "graphql-strip-sensitive-literals"
version = "0.1.0"
edition = "2021"
publish = false

[dependencies]
apollo-compiler = "1"
