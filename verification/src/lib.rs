//! Project maintenance tasks: name validation, command planning and
//! template bootstrapping.

pub mod text;
pub mod names;
pub mod replace;
pub mod commands;
pub mod tasks;
pub mod bootstrap;
