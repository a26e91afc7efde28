//! A decoder for AVM1 action records.
//!
//! A [`read::Reader`] walks a borrowed byte buffer and hands out one
//! [`types::Action`] per call. What each call returns is stated against the
//! byte-level grammar in [`wire`], a set of spec functions over `Seq<u8>`.

pub mod error;
pub mod laws;
pub mod opcode;
pub mod read;
pub mod types;
pub mod wire;
