//! Metal backend controls: the arguments of the calls that take a path.

use vstd::prelude::*;
use vstd::utf8::encode_utf8;

use crate::error::Exception;
use crate::utils::{nul_free, CText};

verus! {

/// The message of the error for a shader library path that cannot be passed to C.
pub open spec fn invalid_metallib_path_message() -> Seq<char> {
    "Invalid metallib path"@
}

/// The message of the error for a capture path that cannot be passed to C.
pub open spec fn invalid_capture_path_message() -> Seq<char> {
    "Invalid capture path"@
}

/// The path handed to MLX when overriding where it loads `mlx.metallib` from, or the error
/// when `path` holds a nul byte (and MLX is not called).
pub fn metallib_path_arg(path: &str) -> (r: Result<CText, Exception>)
    ensures
        r is Ok <==> nul_free(path@),
        r matches Ok(t) ==> t@ == encode_utf8(path@),
        r matches Err(e) ==> e@ == invalid_metallib_path_message(),
{
    match CText::new(path) {
        Some(t) => Ok(t),
        None => Err(Exception::custom("Invalid metallib path")),
    }
}

/// The path handed to MLX when starting a GPU trace capture, or the error when `path` holds a
/// nul byte (and MLX is not called).
pub fn capture_path_arg(path: &str) -> (r: Result<CText, Exception>)
    ensures
        r is Ok <==> nul_free(path@),
        r matches Ok(t) ==> t@ == encode_utf8(path@),
        r matches Err(e) ==> e@ == invalid_capture_path_message(),
{
    match CText::new(path) {
        Some(t) => Ok(t),
        None => Err(Exception::custom("Invalid capture path")),
    }
}

} // verus!
