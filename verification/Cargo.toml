[package]
name = "encoder_benchmark"
version = "0.1.0"
edition = "2021"
publish = false

[dependencies]
clap = { version = "4", features = ["derive"] }
compound_duration = "*"
crossbeam-channel = "0.5"
ctrlc = "3"
dont_disappear = "*"
figlet-rs = "*"
filetime = "0.2"
indicatif = "0.17"
itertools = "*"
num_cpus = "1"
nvml-wrapper = "*"
regex = "1"
rev_buf_reader = "*"
stoppable_thread = "*"
text_io = "*"
