//! A verified core for a spectral audio visualizer: a radix-2
//! decimation-in-time fast Fourier transform and its inverse over complex
//! samples, with the floating-point arithmetic delegated to num_complex
//! behind a small trusted boundary.
mod complex_ops;
pub mod fft;
