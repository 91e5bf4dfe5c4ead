[package]
name = "gnome-search-providers-jetbrains"
version = "1.18.0"
edition = "2021"
publish = false

[dependencies]
anyhow = "=1.0.104"
async-trait = "=0.1.92"
clap = { version = "=4.6.7", features = ["cargo"] }
elementtree = "=1.2.3"
futures-channel = { version = "=0.3.34", features = ["sink"] }
futures-util = { version = "=0.3.34", features = ["sink"] }
gio = { version = "=0.18.4", features = ["v2_60"] }
glib = { version = "=0.18.5", features = ["log"] }
indexmap = "=2.14.2"
libc = "=0.2.191"
logcontrol-tracing = "=0.2.2"
logcontrol-zbus = "=2.0.0"
regex = "=1.13.1"
tracing = "=0.1.44"
tracing-futures = "=0.2.5"
tracing-log = "=0.2.0"
tracing-subscriber = { version = "=0.3.23", features = ["env-filter"] }
zbus = "=4.4.0"
