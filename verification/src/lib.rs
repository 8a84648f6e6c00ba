//! Runtime tunnel protocol: semantic frames, their JSON form, and the bridge between
//! frames and the terminal runtime.
//!
//! - [`protocol`] and [`runtime`] hold the values that frames and commands carry.
//! - [`tunnel`] holds frames, codec and transport boundaries, and the bridge.
//! - [`wire`] says which JSON tree stands for a frame; [`reader`] and [`writer`] go from
//!   one to the other, with [`members`] for tags and fields.
//! - [`refusal`] says what is wrong with a JSON tree that is no frame, [`inspect`] finds
//!   it, and [`verdict`] proves that something is wrong with exactly those trees.
//! - [`json`], [`errors`] and [`octets`] hold what is trusted of the outside crates.
//! - [`codec`] is the JSON codec.
//! - [`round_trip`] and [`laws`] prove what holds of the whole, [`bridge_laws`],
//!   [`write_laws`], [`read_laws`], [`json_laws`] and [`refusal_laws`] what each operation
//!   does with what it is given.
pub mod bridge_laws;
pub mod codec;
pub mod errors;
pub mod inspect;
pub mod json;
pub mod json_laws;
pub mod laws;
pub mod members;
pub mod octets;
pub mod protocol;
pub mod read_laws;
pub mod reader;
pub mod refusal;
pub mod refusal_laws;
pub mod round_trip;
pub mod runtime;
pub mod tunnel;
pub mod verdict;
pub mod wire;
pub mod write_laws;
pub mod writer;
