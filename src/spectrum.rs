//! The spectral analyzer: a forward discrete Fourier transform of a sample
//! window, one complex bin per sample.

use rustfft::num_complex::Complex;
use rustfft::num_traits::Float;
use rustfft::{FftNum, FftPlanner};
use vstd::prelude::*;

verus! {

/// The complex number type of num-complex (re-exported by rustfft), in which
/// the bins come. Relied on only as an opaque value that is carried and
/// copied; nothing is assumed of what it holds.
#[verifier::external_type_specification]
#[verifier::external_body]
#[verifier::reject_recursive_types(T)]
pub struct ExComplex<T>(Complex<T>);

/// Forward transform of `data`, one bin per sample; an empty window gives no
/// bins. No window function is applied here.
///
/// Relies on rustfft's `FftPlanner::plan_fft_forward` and `Fft::process`:
/// `process` transforms the buffer in place, so the output has the input's
/// length, and it returns at once for a transform of length zero. Samples
/// are floating-point: on a float type the butterflies' sums round instead
/// of overflowing, where on a signed integer type (which rustfft also
/// accepts) they could overflow and panic.
#[verifier::external_body]
pub fn fft<T: FftNum + Float>(data: &[T]) -> (r: Vec<Complex<T>>)
    ensures
        r@.len() == data@.len(),
{
    let mut planner = FftPlanner::<T>::new();
    let transform = planner.plan_fft_forward(data.len());
    let mut bins: Vec<Complex<T>> = data.iter().map(|s| Complex::from(*s)).collect();
    transform.process(&mut bins);
    bins
}

} // verus!
