[package]
name = "esm_dev_server"
version = "0.1.0"
edition = "2021"
publish = false

[dependencies]
hyper = { version = "=0.14.32", features = ["server", "http1", "tcp"] }
swc_core = { version = "=82.2.0", features = ["base", "common", "ecma_ast", "ecma_parser", "ecma_parser_typescript", "ecma_visit"] }
swc_ecma_loader = { version = "=27.0.0", features = ["node"] }
swc_ecma_visit = "=29.0.0"
tokio = { version = "=1.54.1", features = ["rt-multi-thread", "macros", "fs"] }

[dev-dependencies]
tempfile = "=3.27.0"
