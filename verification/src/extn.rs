//! Extensions to the interpreter: core classes and standard library modules.

pub mod core_classes;
pub mod stdlib;
