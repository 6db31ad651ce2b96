//! Verified core of the Mentalist agent runtime: command validation, prompt
//! sanitisation, task-graph scheduling, tool-call recovery from model text and
//! the registries that tie tools, executors and middlewares together.
pub mod text;
pub mod security;
pub mod tools;
pub mod json;
pub mod context;
pub mod execution;
pub mod middleware;
pub mod config;
pub mod error;
pub mod executor;
pub mod agent;
pub mod core_loop;
pub mod mcp;
pub mod provider;
pub mod cognition;
pub mod llm;
pub mod memory;
pub mod telemetry;
pub mod skills;
pub mod wasm_tools;
pub mod bridge;
