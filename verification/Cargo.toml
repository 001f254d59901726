[package]
name = "oxifoc"
version = "0.3.0"
edition = "2021"
publish = false

[dependencies]
cortex-m = "0.7"
cortex-m-rt = "0.7"
libm = "0.2"
stm32f1 = { version = "0.15", features = ["stm32f103", "rt"] }
