//! Decoded instruction → [`DecodedFields`](super::types::DecodedFields)
//! extraction, per guest ISA.

pub mod aarch64;
pub mod riscv64;
