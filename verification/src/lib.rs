use vstd::prelude::*;

pub mod cli;
pub mod command;
pub mod config;
pub mod error;
pub mod filesystem_skill;
pub mod git_skill;
pub mod github;
pub mod ids;
pub mod json;
pub mod model;
pub mod ollama;
pub mod openrouter;
pub mod paths;
pub mod planning_skill;
pub mod process_prompt;
pub mod qwen;
pub mod schema;
pub mod session_repository;
pub mod text;
