//! Redis-backed cache database and system kernel of a trading platform.

pub mod adapter;
pub mod command;
pub mod config;
pub mod database;
pub mod effects;
pub mod error;
pub mod kernel;
pub mod keys;
pub mod loading;
pub mod payload;
pub mod pipeline;
pub mod plan;
pub mod processor;
pub mod routing;
pub mod streaming;
pub mod text;
