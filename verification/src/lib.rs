//! Turn-by-turn pairing of two chat-completion providers: one answers, the
//! other reviews, and the finished rounds can be exported as markdown.

pub mod chat;
pub mod config;
pub mod decimal;
pub mod export;
pub mod orchestrator;
pub mod session;
pub mod text;
pub mod timestamp;
