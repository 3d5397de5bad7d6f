//! Discrete Fourier Transform sample frequencies.
//!
//! The frequencies of an FFT window of size `n` with sample spacing `d` are `k / (d * n)` for
//! the integer frequency bins `k` computed here, in the order MLX returns them. The division by
//! `d * n` is floating-point work and is done where the values are produced. The spacing is
//! given by the bit pattern of its 64-bit float (`f64::to_bits`), which is all the check that
//! it is non-zero needs.

use vstd::prelude::*;

use crate::error::Exception;

verus! {

/// Whether a 64-bit float with bit pattern `bits` is zero, positive or negative.
pub open spec fn is_zero_spacing(bits: u64) -> bool {
    bits & 0x7fff_ffff_ffff_ffffu64 == 0
}

/// The frequency bin at position `k` of a window of size `n`: `k` for the first `(n + 1) / 2`
/// positions, then the negative bins `k - n`.
pub open spec fn fftfreq_bin(n: int, k: int) -> int {
    if k < (n + 1) / 2 {
        k
    } else {
        k - n
    }
}

/// The messages of the errors of `fftfreq` and `rfftfreq`: for a window size that is not
/// positive, and for a zero sample spacing.
pub open spec fn fftfreq_window_message() -> Seq<char> {
    "[fftfreq] n must be greater than 0"@
}

pub open spec fn fftfreq_spacing_message() -> Seq<char> {
    "[fftfreq] d must be non-zero"@
}

pub open spec fn rfftfreq_window_message() -> Seq<char> {
    "[rfftfreq] n must be greater than 0"@
}

pub open spec fn rfftfreq_spacing_message() -> Seq<char> {
    "[rfftfreq] d must be non-zero"@
}

fn is_zero_spacing_exec(bits: u64) -> (b: bool)
    ensures
        b == is_zero_spacing(bits),
{
    bits & 0x7fff_ffff_ffff_ffffu64 == 0
}

/// The frequency bins of `fftfreq` for a window of size `n` and a spacing with bit pattern
/// `spacing_bits`: `[0, 1, ..., (n - 1) / 2, -(n / 2), ..., -1]`.
///
/// Fails when `n` is not positive, and otherwise when the spacing is zero.
pub fn fftfreq_bins(n: i32, spacing_bits: u64) -> (r: Result<Vec<i32>, Exception>)
    ensures
        r is Ok <==> n > 0 && !is_zero_spacing(spacing_bits),
        r matches Ok(bins) ==> bins@.len() == n && forall|k: int|
            0 <= k < n ==> #[trigger] bins@[k] == fftfreq_bin(n as int, k),
        r matches Err(e) ==> e@ == (if n <= 0 {
            fftfreq_window_message()
        } else {
            fftfreq_spacing_message()
        }),
{
    if n <= 0 {
        return Err(Exception::custom("[fftfreq] n must be greater than 0"));
    }
    if is_zero_spacing_exec(spacing_bits) {
        return Err(Exception::custom("[fftfreq] d must be non-zero"));
    }
    let positive: i32 = n / 2 + n % 2;
    let mut bins: Vec<i32> = Vec::new();
    let mut k: i32 = 0;
    while k < n
        invariant
            0 <= k <= n,
            positive == (n + 1) / 2,
            bins@.len() == k,
            forall|j: int| 0 <= j < k ==> #[trigger] bins@[j] == fftfreq_bin(n as int, j),
        decreases n - k,
    {
        if k < positive {
            bins.push(k);
        } else {
            bins.push(k - n);
        }
        k = k + 1;
    }
    Ok(bins)
}

/// The frequency bins of `rfftfreq` for a window of size `n` and a spacing with bit pattern
/// `spacing_bits`: the `n / 2 + 1` non-negative bins `[0, 1, ..., n / 2]`, matching the
/// output length of a real-input FFT.
///
/// Fails when `n` is not positive, and otherwise when the spacing is zero.
pub fn rfftfreq_bins(n: i32, spacing_bits: u64) -> (r: Result<Vec<i32>, Exception>)
    ensures
        r is Ok <==> n > 0 && !is_zero_spacing(spacing_bits),
        r matches Ok(bins) ==> bins@.len() == n / 2 + 1 && forall|k: int|
            0 <= k < bins@.len() ==> #[trigger] bins@[k] == k,
        r matches Err(e) ==> e@ == (if n <= 0 {
            rfftfreq_window_message()
        } else {
            rfftfreq_spacing_message()
        }),
{
    if n <= 0 {
        return Err(Exception::custom("[rfftfreq] n must be greater than 0"));
    }
    if is_zero_spacing_exec(spacing_bits) {
        return Err(Exception::custom("[rfftfreq] d must be non-zero"));
    }
    let last: i32 = n / 2;
    let mut bins: Vec<i32> = Vec::new();
    let mut k: i32 = 0;
    while k <= last
        invariant
            0 <= k <= last + 1,
            last == n / 2,
            n > 0,
            bins@.len() == k,
            forall|j: int| 0 <= j < k ==> #[trigger] bins@[j] == j,
        decreases last + 1 - k,
    {
        bins.push(k);
        k = k + 1;
    }
    Ok(bins)
}

/// The bins of `fftfreq` for a window of size `n` run over `[-(n / 2), (n - 1) / 2]`, each
/// congruent to its position modulo `n`; the non-negative ones are exactly the first
/// `(n + 1) / 2`, which are also the first bins of `rfftfreq`; `rfftfreq` adds, for even `n`,
/// the magnitude `n / 2` of the most negative bin of `fftfreq`.
pub proof fn law_fftfreq_bins(n: int)
    requires
        n > 0,
    ensures
        forall|k: int|
            0 <= k < n ==> -(n / 2) <= #[trigger] fftfreq_bin(n, k) <= (n - 1) / 2,
        forall|k: int| 0 <= k < n ==> (#[trigger] fftfreq_bin(n, k) - k) % n == 0,
        forall|k: int| 0 <= k < n ==> (#[trigger] fftfreq_bin(n, k) >= 0 <==> k < (n + 1) / 2),
        forall|k: int| 0 <= k < (n + 1) / 2 ==> #[trigger] fftfreq_bin(n, k) == k,
        n % 2 == 0 ==> fftfreq_bin(n, n / 2) == -(n / 2),
        (n + 1) / 2 <= n / 2 + 1,
{
    assert forall|k: int| 0 <= k < n implies (#[trigger] fftfreq_bin(n, k) - k) % n == 0 by {
        if k < (n + 1) / 2 {
            assert(fftfreq_bin(n, k) - k == 0);
        } else {
            assert(fftfreq_bin(n, k) - k == -n);
            assert((-n) % n == 0) by (nonlinear_arith)
                requires
                    n > 0,
            ;
        }
    }
}

/// The spacing check rejects exactly the two zeros of a 64-bit float, `+0.0` (bit pattern 0)
/// and `-0.0` (only the sign bit set); every other spacing, however small, is accepted.
pub proof fn law_only_zero_spacing_is_rejected(bits: u64)
    ensures
        is_zero_spacing(bits) <==> (bits == 0u64 || bits == 0x8000_0000_0000_0000u64),
{
    assert((bits & 0x7fff_ffff_ffff_ffffu64 == 0) <==> (bits == 0u64 || bits
        == 0x8000_0000_0000_0000u64)) by (bit_vector);
}

} // verus!
