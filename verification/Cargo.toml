[package]
name = "blogger2zola"
version = "0.1.0"
edition = "2021"
publish = false

[dependencies]
anyhow = "*"
atom_syndication = "=0.12.10"
chrono = "=0.4.45"
log = "*"
pretty_env_logger = "*"
select = "=0.6.1"
slug = "=0.1.6"
structopt = "=0.3.26"
thiserror = "*"
ureq = "=3.4.2"
