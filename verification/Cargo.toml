[package]
name = "lookup_bot"
version = "0.1.0"
edition = "2021"
publish = false

[dependencies]
regex = "=1.13.1"
irc = "=0.13.6"
futures = "=0.1.31"
failure = "=0.1.8"
openssl-probe = "=0.1.6"
airkorea = "=0.4.3"
backslash-z = "=0.2.0"
daummap = "=0.2.2"
reqwest = "=0.9.24"
serde_json = "=1.0.154"
