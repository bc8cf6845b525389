[package]
name = "nts_ke_conn"
version = "0.1.0"
edition = "2021"
publish = false

[dependencies]
byteorder = "1.3"
mio = "0.6"
rustls = "0.16"
slog = "2.5"

[dev-dependencies]
webpki = "0.21"
