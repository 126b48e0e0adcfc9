//! The serving core of a local LLM runner: error classification, settings,
//! request validation, response shaping, and the decisions of the generation
//! and interactive loops.

pub mod api;
pub mod cli;
pub mod config;
pub mod engine;
pub mod error;
pub mod service;
pub mod settings;
pub mod text;
