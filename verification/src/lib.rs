//! Core library for a C-programming learning game: a sandboxed
//! compile-and-run pipeline, a test-harness generator for function
//! challenges, and the game's progression and level data model.
//!
//! Process spawning, filesystem scratch directories and environment
//! probing live in the surrounding application; this crate holds every
//! decision the pipeline makes, as verified functions with contracts.

pub mod auth;
pub mod auth_middleware;
pub mod commands;
pub mod compiler;
pub mod game;
pub mod db;
pub mod email;
pub mod events;
pub mod levels;
pub mod persistence;
pub mod strutil;
