//! Level content: challenge data, the test-harness generator for
//! function challenges, output validation, puzzle state and map data.

pub mod harness;
pub mod map_loader;
pub mod puzzle;
pub mod validator;
pub mod loader;
