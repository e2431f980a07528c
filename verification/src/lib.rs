//! A verified fixed-point core for rendering fractals: complex arithmetic,
//! a polynomial evaluator, the Mandelbrot and Newton kernels, and the view
//! transform that pan and zoom gestures compose into.

pub mod complex;
pub mod controls;
pub mod fixed;
pub mod fractal_view;
pub mod gesture;
pub mod kernel;
pub mod matrix;
pub mod poly;
pub mod transform;
