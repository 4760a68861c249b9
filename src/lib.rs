//! Console engine for administering questionnaire campaigns on a remote
//! service: command interpretation, argument resolution, request building,
//! response interpretation and terminal layout.

pub mod config;
pub mod text;
pub mod tokens;
pub mod resolver;
pub mod model;
pub mod client;
pub mod render;
pub mod console;
pub mod commands;
