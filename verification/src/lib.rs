//! Verified core of a terminal coding assistant: text utilities, structured
//! tool output, permission policy, task bookkeeping and conversation logic.

pub mod api_errors;
pub mod background_tasks;
pub mod commands;
pub mod compact;
pub mod config;
pub mod context;
pub mod engine;
pub mod events;
pub mod hooks;
pub mod messages;
pub mod model_router;
pub mod output;
pub mod path_safety;
pub mod permissions;
pub mod session;
pub mod streaming;
pub mod task_store;
pub mod text;
pub mod tool_input;
pub mod tool_output;
pub mod tools;
pub mod toon;
