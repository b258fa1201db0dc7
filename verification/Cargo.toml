[package]
name = "template-switch-error-free-inners"
version = "0.1.0"
edition = "2021"
publish = false

[dependencies]
bitvec = "=1.1.1"
compact-genome = "=12.5.0"
log = "=0.4.34"
suffix = "=1.3.0"

[dev-dependencies]
traitsequence = "=8.1.2"
