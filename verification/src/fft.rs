//! The transform engine: a radix-2 decimation-in-time fast Fourier transform
//! and its inverse, over sequences of complex samples.
//!
//! The index bookkeeping of the algorithm — the even/odd split, the
//! recursion, the placement of the butterfly results, the length of every
//! intermediate sequence — is verified. The complex arithmetic itself is
//! floating point and goes through the trusted wrappers of `complex_ops`.
use crate::complex_ops::{cadd, cconj, cmul, cscale, csub, real_to_complex, recip_of_len, twiddle};
use vstd::prelude::*;

verus! {

/// n is a power of two: 1, 2, 4, 8, ...
pub open spec fn is_pow2(n: nat) -> bool
    decreases n,
{
    if n == 0 {
        false
    } else if n == 1 {
        true
    } else {
        n % 2 == 0 && is_pow2(n / 2)
    }
}

/// Decides whether a sequence length is a power of two, exactly as
/// `is_pow2` states it.
pub fn is_power_of_two(n: usize) -> (r: bool)
    ensures
        r == is_pow2(n as nat),
{
    if n == 0 {
        return false;
    }
    let mut m: usize = n;
    while m % 2 == 0
        invariant
            1 <= m,
            is_pow2(n as nat) == is_pow2(m as nat),
        decreases m,
    {
        m = m / 2;
    }
    m == 1
}

/// The lengths a transform accepts: the empty sequence or any power-of-two
/// length.
pub open spec fn valid_length(n: nat) -> bool {
    n == 0 || is_pow2(n)
}

/// Rejection of a sequence whose length is not a power of two.
#[derive(Clone, Copy, Debug, PartialEq, Eq, Structural)]
pub enum TransformError {
    InvalidInputLength,
}

/// Splits a sequence into the half-length subsequences of its even-indexed
/// and its odd-indexed elements: the decimation-in-time step.
pub fn split_even_odd<T: Copy + num_traits::Num>(values: &Vec<num_complex::Complex<T>>) -> (r: (
    Vec<num_complex::Complex<T>>,
    Vec<num_complex::Complex<T>>,
))
    ensures
        r.0.len() == values.len() / 2,
        r.1.len() == values.len() / 2,
        forall|j: int| 0 <= j < r.0.len() ==> r.0@[j] == values@[2 * j],
        forall|j: int| 0 <= j < r.1.len() ==> r.1@[j] == values@[2 * j + 1],
{
    let half: usize = values.len() / 2;
    let mut even: Vec<num_complex::Complex<T>> = Vec::new();
    let mut odd: Vec<num_complex::Complex<T>> = Vec::new();
    let mut i: usize = 0;
    while i < half
        invariant
            i <= half,
            half == values.len() / 2,
            even.len() == i,
            odd.len() == i,
            forall|j: int| 0 <= j < i ==> even@[j] == values@[2 * j],
            forall|j: int| 0 <= j < i ==> odd@[j] == values@[2 * j + 1],
        decreases half - i,
    {
        even.push(values[2 * i]);
        odd.push(values[2 * i + 1]);
        i = i + 1;
    }
    (even, odd)
}

/// The core recursive transform: a radix-2 decimation-in-time Cooley-Tukey
/// FFT over complex values.
///
/// A sequence of length 0 or 1 is its own transform and comes back
/// unchanged. A longer sequence is split into its even- and odd-indexed
/// halves, each half is transformed recursively, and the halves are combined
/// by the butterfly step: bin i is even[i] + twiddle(i, n) * odd[i], bin
/// i + n/2 is even[i] - twiddle(i, n) * odd[i]. The result has the length of
/// the input. Frequency-domain meaning is only owed for power-of-two
/// lengths; any other length still terminates and keeps the length.
pub fn inner_fft<T: num_traits::Float + num_traits::FloatConst>(
    amplitudes: Vec<num_complex::Complex<T>>,
) -> (r: Vec<num_complex::Complex<T>>)
    ensures
        r.len() == amplitudes.len(),
        amplitudes.len() <= 1 ==> r@ == amplitudes@,
    decreases amplitudes.len(),
{
    let len: usize = amplitudes.len();
    if len <= 1 {
        return amplitudes;
    }
    let half: usize = len / 2;

    let (even_in, odd_in) = split_even_odd(&amplitudes);
    let even: Vec<num_complex::Complex<T>> = inner_fft(even_in);
    let odd: Vec<num_complex::Complex<T>> = inner_fft(odd_in);

    let mut front: Vec<num_complex::Complex<T>> = Vec::new();
    let mut back: Vec<num_complex::Complex<T>> = Vec::new();
    let mut i: usize = 0;
    while i < half
        invariant
            i <= half,
            half == len / 2,
            even.len() == half,
            odd.len() == half,
            front.len() == i,
            back.len() == i,
        decreases half - i,
    {
        let pos: num_complex::Complex<T> = cmul(twiddle(i, len), odd[i]);
        front.push(cadd(even[i], pos));
        back.push(csub(even[i], pos));
        i = i + 1;
    }
    front.append(&mut back);

    // An odd length (outside the power-of-two contract) leaves one trailing
    // element untouched by the split; carry it over so that the length is
    // kept in every case.
    let mut j: usize = 2 * half;
    while j < len
        invariant
            2 * half <= j <= len,
            len == amplitudes.len(),
            front.len() == j,
        decreases len - j,
    {
        front.push(amplitudes[j]);
        j = j + 1;
    }
    front
}

/// The forward transform: turns every real sample into a complex value with
/// zero imaginary part and applies the core recursive transform.
///
/// The result has one frequency bin per input sample. A single sample has no
/// frequency decomposition to perform: its one bin carries the sample itself
/// as real part.
pub fn fft<T: num_traits::Float + num_traits::FloatConst>(amplitudes: Vec<T>) -> (r: Vec<
    num_complex::Complex<T>,
>)
    ensures
        r.len() == amplitudes.len(),
        amplitudes.len() == 1 ==> r@[0].re == amplitudes@[0],
{
    let len: usize = amplitudes.len();
    let mut cs: Vec<num_complex::Complex<T>> = Vec::new();
    let mut i: usize = 0;
    while i < len
        invariant
            i <= len,
            len == amplitudes.len(),
            cs.len() == i,
            forall|j: int| 0 <= j < i ==> cs@[j].re == amplitudes@[j],
        decreases len - i,
    {
        cs.push(real_to_complex(amplitudes[i]));
        i = i + 1;
    }
    inner_fft(cs)
}

/// The inverse transform: conjugates every element, applies the core
/// recursive transform, then conjugates every element of the result again
/// and scales both components by the reciprocal 1/n of the length, computed
/// in floating point.
pub fn inverse_fft<T: num_traits::Float + num_traits::FloatConst>(
    amplitudes: Vec<num_complex::Complex<T>>,
) -> (r: Vec<num_complex::Complex<T>>)
    ensures
        r.len() == amplitudes.len(),
{
    let len: usize = amplitudes.len();

    let mut conjugated: Vec<num_complex::Complex<T>> = Vec::new();
    let mut i: usize = 0;
    while i < len
        invariant
            i <= len,
            len == amplitudes.len(),
            conjugated.len() == i,
        decreases len - i,
    {
        conjugated.push(cconj(amplitudes[i]));
        i = i + 1;
    }

    let transformed: Vec<num_complex::Complex<T>> = inner_fft(conjugated);

    let scale: T = recip_of_len(len);
    let mut out: Vec<num_complex::Complex<T>> = Vec::new();
    let mut k: usize = 0;
    while k < len
        invariant
            k <= len,
            len == transformed.len(),
            out.len() == k,
        decreases len - k,
    {
        out.push(cscale(cconj(transformed[k]), scale));
        k = k + 1;
    }
    out
}

/// The forward transform with the length validated first: a sequence whose
/// length is neither empty nor a power of two is rejected with
/// `InvalidInputLength`, exactly when `valid_length` refuses it.
pub fn checked_fft<T: num_traits::Float + num_traits::FloatConst>(amplitudes: Vec<T>) -> (r:
    Result<Vec<num_complex::Complex<T>>, TransformError>)
    ensures
        r is Ok <==> valid_length(amplitudes.len() as nat),
        r matches Ok(bins) ==> bins.len() == amplitudes.len(),
        r matches Ok(bins) ==> (amplitudes.len() == 1 ==> bins@[0].re == amplitudes@[0]),
        r matches Err(e) ==> e == TransformError::InvalidInputLength,
{
    let len: usize = amplitudes.len();
    if len == 0 || is_power_of_two(len) {
        Ok(fft(amplitudes))
    } else {
        Err(TransformError::InvalidInputLength)
    }
}

/// The inverse transform with the length validated first, under the same
/// rule as `checked_fft`.
pub fn checked_inverse_fft<T: num_traits::Float + num_traits::FloatConst>(
    amplitudes: Vec<num_complex::Complex<T>>,
) -> (r: Result<Vec<num_complex::Complex<T>>, TransformError>)
    ensures
        r is Ok <==> valid_length(amplitudes.len() as nat),
        r matches Ok(samples) ==> samples.len() == amplitudes.len(),
        r matches Err(e) ==> e == TransformError::InvalidInputLength,
{
    let len: usize = amplitudes.len();
    if len == 0 || is_power_of_two(len) {
        Ok(inverse_fft(amplitudes))
    } else {
        Err(TransformError::InvalidInputLength)
    }
}

} // verus!

