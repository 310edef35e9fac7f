//! Standard library modules.

pub mod securerandom;
