//! Decision logic of the submission commands: which test cases a run
//! uses, what feedback the player sees, and the result records handed
//! to the front end.

pub mod code;
pub mod game;
pub mod progress;
