//! Customer-service agent runtime: the decision logic of the agent loop, the
//! layered conversation context, memory trimming and summarising, the built-in
//! tools' text rules and the streaming wire decoding, each with its contract.

pub mod agent;
pub mod config;
pub mod context;
pub mod error;
pub mod fields;
pub mod memory;
pub mod mock;
pub mod openai;
pub mod points;
pub mod records;
pub mod registry;
pub mod server_config;
pub mod sse;
pub mod text;
pub mod tools;
pub mod types;
