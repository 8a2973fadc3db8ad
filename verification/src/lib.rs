//! A read-only task tracker behind a tool-calling interface.
//!
//! The crate holds the task model, the query engine that filters a snapshot
//! of tasks and summarises it, and the dispatcher that turns a named tool
//! call with loosely typed arguments into a reply or a classified failure.
//! Reading the backing document and speaking the wire protocol are left to
//! the embedding program, which hands the outcome of each read to the
//! dispatcher as a plain value.

pub mod catalog;
pub mod config;
pub mod json;
pub mod mcp_handler;
pub mod models;
pub mod server;
pub mod statistics;
pub mod storage;
pub mod string_map;
pub mod task_service;
pub mod text;

pub use catalog::{ToolDescriptor, ToolParameter};
pub use config::AppConfig;
pub use mcp_handler::{TaskMcpHandler, ToolCall, ToolError, ToolReply};
pub use models::{Priority, Task, TaskCollection, TaskStatus};
pub use server::TaskServer;
pub use storage::{StorageRead, TaskStorage};
pub use string_map::StringMap;
pub use statistics::TaskStatistics;
pub use task_service::TaskService;
