[package]
name = "betrusted_ec"
version = "0.1.0"
edition = "2021"
publish = false

[dependencies]
sha2 = "=0.9.9"
md5 = "=0.7.0"
utralib = "=0.1.27"
volatile = "=0.2.7"
bitflags = "=1.3.2"
riscv = "=0.6.0"
riscv-rt = "=0.8.1"
vexriscv = "=0.0.3"
vcell = "=0.1.3"
bare-metal = "=0.2.5"
c-types = "*"
const_format = "=0.2.37"
ssh2 = "=0.9.6"
