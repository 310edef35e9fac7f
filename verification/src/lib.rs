//! Interpreter-side building blocks of the Artichoke Ruby runtime: the
//! small-array buffer behind `Array`, the `SecureRandom` standard library
//! module, and the initialization protocols of the core classes.

pub mod class;
pub mod extn;
pub mod value;
