[package]
name = "cuesplit"
version = "0.1.0"
edition = "2021"
publish = false

[dependencies]
argh = "0.1"
chardet = "0.2"
colour = "*"
encoding = "0.2"
indicatif = "*"
levenshtein = "1"
lofty = "*"
rayon = "1"
