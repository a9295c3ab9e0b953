[package]
name = "f1_ext_install"
version = "0.1.0"
edition = "2021"
publish = false

[dependencies]
anyhow = "1"
envy = "0.4"
num_cpus = "1"
regex = "1"
snafu = "0.6"
structopt = "0.3"
