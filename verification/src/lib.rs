//! Verified core of the Rust bindings to MLX: the checks and conversions that stand between a
//! caller and the MLX C API, and the plain-value models of the backend objects they describe.

use vstd::prelude::*;

pub mod device;
pub mod dtype;
pub mod error;
pub mod fast;
pub mod fft;
pub mod graph_utils;
pub mod metal;
pub mod utils;

verus! {

} // verus!
