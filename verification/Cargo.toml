[package]
name = "monots_docgen"
version = "0.1.0"
edition = "2021"
publish = false

[dependencies]
anyhow = "1"
deno_ast = "*"
flate2 = "1"
napi = "2"
napi-derive = "2"
tar = "0.4"
termcolor = "1"
zip = { version = "0.6", default-features = false, features = ["deflate"] }
