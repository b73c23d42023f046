//! The logic of a QQ chat bot that hands each private message to an LLM agent with tools.

pub mod agent;
pub mod bot;
pub mod chat_completions;
pub mod config;
pub mod db;
pub mod handling;
pub mod json;
pub mod llm;
pub mod skills;
pub mod store;
pub mod text;
pub mod tools;
