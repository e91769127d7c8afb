[package]
name = "module_resolver"
version = "0.1.0"
edition = "2021"
publish = false

[dependencies]
anyhow = "=1.0.104"
clap = { version = "=4.6.7", features = ["derive"] }
serde = { version = "=1.0.229", features = ["derive"] }
serde_json = "=1.0.154"
swc_bundler = "=57.0.0"
swc_common = { version = "=26.0.0", features = ["sourcemap", "tty-emitter"] }
swc_ecma_ast = "=29.0.2"
swc_ecma_codegen = "=32.0.5"
swc_ecma_loader = "=27.0.0"
swc_ecma_parser = "=46.1.2"
