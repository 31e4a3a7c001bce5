//! Renders a region of the complex plane as an uncompressed 24-bit bitmap,
//! classifying every pixel against a Mandelbrot, Julia or Newton fractal.

pub mod fixed_point;
pub mod fractals;
pub mod graphics;
pub mod my_complex;
pub mod render;
