[package]
name = "dice_roll_impl"
version = "0.1.0"
edition = "2021"
publish = false

[dependencies]
anyhow = "=1.0.104"
dice-roll = "=0.1.1"
emacs = "=0.18.0"
emacs-native-async = "=0.1.2"
rand = "=0.8.8"
rand_chacha = "=0.3.1"
rand_xoshiro = "=0.6.0"
