//! Trusted boundary to num_complex: the complex-number arithmetic of the
//! transform engine. Every floating-point operation of the engine happens in
//! one of the small wrappers below; the surrounding algorithm is verified
//! against their contracts.
use vstd::prelude::*;

verus! {

#[verifier::external_type_specification]
#[verifier::reject_recursive_types(T)]
pub struct ExComplex<T>(num_complex::Complex<T>);

/// Relies on num_complex's `Complex::new` and num_traits' `Zero::zero`:
/// the real part of the result is the sample itself, the imaginary part is
/// the zero of `T`.
#[verifier::external_body]
pub(crate) fn real_to_complex<T: Copy + num_traits::Num>(x: T) -> (r: num_complex::Complex<T>)
    ensures
        r.re == x,
{
    num_complex::Complex::new(x, num_traits::Zero::zero())
}

/// Relies on num_complex's `Add<Complex<T>> for Complex<T>`: component-wise
/// complex addition.
#[verifier::external_body]
pub(crate) fn cadd<T: Copy + num_traits::Num>(
    a: num_complex::Complex<T>,
    b: num_complex::Complex<T>,
) -> num_complex::Complex<T> {
    a + b
}

/// Relies on num_complex's `Sub<Complex<T>> for Complex<T>`: component-wise
/// complex subtraction.
#[verifier::external_body]
pub(crate) fn csub<T: Copy + num_traits::Num>(
    a: num_complex::Complex<T>,
    b: num_complex::Complex<T>,
) -> num_complex::Complex<T> {
    a - b
}

/// Relies on num_complex's `Mul<Complex<T>> for Complex<T>`: the complex
/// product (a.re*b.re - a.im*b.im, a.re*b.im + a.im*b.re).
#[verifier::external_body]
pub(crate) fn cmul<T: Copy + num_traits::Num>(
    a: num_complex::Complex<T>,
    b: num_complex::Complex<T>,
) -> num_complex::Complex<T> {
    a * b
}

/// Relies on num_complex's `Complex::conj`, which returns
/// `Complex::new(self.re.clone(), -self.im.clone())`: the real part is kept
/// unchanged, the imaginary part is negated.
#[verifier::external_body]
pub(crate) fn cconj<T: Copy + num_traits::Num + core::ops::Neg<Output = T>>(
    a: num_complex::Complex<T>,
) -> (r: num_complex::Complex<T>)
    ensures
        r.re == a.re,
{
    a.conj()
}

/// Relies on num_complex's `Complex::new` and `Complex::exp`, and num_traits'
/// `FloatConst::PI` and `NumCast::from` (which never fails on `usize`
/// sources): the twiddle factor e^(-2*pi*i*k/n) of the butterfly step, a
/// unit rotation by the angle -2*pi*k/n.
#[verifier::external_body]
pub(crate) fn twiddle<T: num_traits::Float + num_traits::FloatConst>(
    k: usize,
    n: usize,
) -> num_complex::Complex<T> {
    let full_turn = T::PI() + T::PI();
    let angle = -full_turn * T::from(k).unwrap() / T::from(n).unwrap();
    num_complex::Complex::new(T::zero(), angle).exp()
}

/// Relies on num_traits' `NumCast::from` (which never fails on `usize`
/// sources) and floating-point division: the reciprocal 1/n of the input
/// length, computed in floating point so that it does not truncate to zero
/// for n > 1.
#[verifier::external_body]
pub(crate) fn recip_of_len<T: num_traits::Float>(n: usize) -> T {
    T::one() / T::from(n).unwrap()
}

/// Relies on num_complex's `Mul<T> for Complex<T>`: scales the real and the
/// imaginary component by the scalar.
#[verifier::external_body]
pub(crate) fn cscale<T: Copy + num_traits::Num>(
    a: num_complex::Complex<T>,
    s: T,
) -> num_complex::Complex<T> {
    a * s
}

} // verus!
