[package]
name = "esm_compiler"
version = "0.1.0"
edition = "2021"
publish = false

[dependencies]
swc_common = { version = "=26.0.0", features = ["sourcemap"] }
swc_ecma_transforms_base = { version = "=50.0.0", features = ["inline-helpers"] }
swc_ecmascript = { version = "=74.0.0", features = ["codegen", "parser", "transforms", "visit", "react", "typescript", "proposal"] }
