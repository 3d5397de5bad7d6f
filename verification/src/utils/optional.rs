//! Optional arguments in the shape the MLX C API takes them: a value and a flag that says
//! whether the value is meant.

use vstd::prelude::*;

use crate::dtype::Dtype;

verus! {

/// An optional [`Dtype`]: `value` is ignored when `has_value` is false.
#[derive(Clone, Copy, Debug)]
pub struct OptionalDtype {
    pub value: Dtype,
    pub has_value: bool,
}

/// An optional `bool`: `value` is ignored when `has_value` is false.
#[derive(Clone, Copy, Debug)]
pub struct OptionalBool {
    pub value: bool,
    pub has_value: bool,
}

/// An optional `i32`: `value` is ignored when `has_value` is false.
#[derive(Clone, Copy, Debug)]
pub struct OptionalInt {
    pub value: i32,
    pub has_value: bool,
}

/// An optional 32-bit float, given by its bit pattern (`f32::to_bits`): `value_bits` is
/// ignored when `has_value` is false.
#[derive(Clone, Copy, Debug)]
pub struct OptionalFloat {
    pub value_bits: u32,
    pub has_value: bool,
}

/// Convert an optional 32-bit float, given by its bit pattern. When `None`, the value passed
/// along is `0.0` (the bit pattern 0), which MLX ignores.
pub fn optional_float(value_bits: Option<u32>) -> (r: OptionalFloat)
    ensures
        r.has_value == value_bits is Some,
        r.value_bits == (match value_bits {
            Some(b) => b,
            None => 0u32,
        }),
{
    OptionalFloat {
        value_bits: match value_bits {
            Some(b) => b,
            None => 0,
        },
        has_value: value_bits.is_some(),
    }
}

/// Convert an optional [`Dtype`]. When `None`, MLX picks the dtype; the value that is passed
/// along then is `Float32`, which MLX ignores.
pub fn optional_dtype(value: Option<Dtype>) -> (r: OptionalDtype)
    ensures
        r.has_value == value is Some,
        r.value == (match value {
            Some(d) => d,
            None => Dtype::Float32,
        }),
{
    match value {
        Some(dtype) => OptionalDtype { value: dtype, has_value: true },
        None => OptionalDtype { value: Dtype::Float32, has_value: false },
    }
}

/// Convert an optional `bool` flag. When `None`, MLX decides; the value passed along is then
/// `false`, which MLX ignores.
pub fn optional_bool(value: Option<bool>) -> (r: OptionalBool)
    ensures
        r.has_value == value is Some,
        r.value == (match value {
            Some(b) => b,
            None => false,
        }),
{
    match value {
        Some(value) => OptionalBool { value, has_value: true },
        None => OptionalBool { value: false, has_value: false },
    }
}

/// Convert an optional `i32`, substituting `default` when `None`.
pub fn optional_int(value: Option<i32>, default: i32) -> (r: OptionalInt)
    ensures
        r.has_value == value is Some,
        r.value == (match value {
            Some(v) => v,
            None => default,
        }),
{
    OptionalInt {
        value: match value {
            Some(v) => v,
            None => default,
        },
        has_value: value.is_some(),
    }
}

} // verus!
