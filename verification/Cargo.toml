[package]
name = "babble"
version = "0.1.0"
edition = "2021"
publish = false

[dependencies]
anyhow = "=1.0.104"
chrono = "=0.4.45"
clap-verbosity-flag = "=0.3.2"
confy = "=0.4.0"
egg-mode = "=0.16.1"
figlet-rs = "=0.1.5"
log = "=0.4.34"
regex = "=1.13.1"
serde = { version = "=1.0.229", features = ["derive"] }
serde_json = "=1.0.154"
simplelog = "=0.10.2"
structopt = "=0.3.26"
termion = "=1.5.6"
text_io = "=0.1.13"
tokio = { version = "=1.54.1", features = ["macros", "rt-multi-thread", "signal", "time"] }
