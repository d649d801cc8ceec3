[package]
name = "watchdoc"
version = "0.1.0"
edition = "2021"
publish = false

[dependencies]
axum = "=0.8.9"
cargo-config2 = "=0.1.45"
cargo_metadata = "=0.23.1"
clap = { version = "=4.6.7", features = ["derive"] }
color-eyre = "=0.6.5"
http-body = "=1.1.0"
ignore-files = "=3.0.8"
log = "=0.4.34"
opener = "=0.9.0"
portpicker = "=0.1.1"
stderrlog = "=0.6.0"
tokio = { version = "=1.54.1", features = ["rt-multi-thread", "macros", "net"] }
tower-http = { version = "=0.7.1", features = ["fs"] }
tower-livereload = "=0.10.3"
unindent = "=0.2.4"
watchexec = "=8.4.4"
watchexec-events = "=6.1.3"
watchexec-filterer-globset = "=8.0.6"
watchexec-signals = "=5.1.1"
