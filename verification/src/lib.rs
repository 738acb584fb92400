//! Verified core of a chat-completion gateway.
//!
//! The gateway sits between three client dialects (OpenAI chat completions,
//! OpenAI responses, Ollama chat) and one upstream backend that speaks a
//! single canonical dialect.  This crate holds the logic worth proving:
//! the credential lifecycle (device-flow classification, token expiry,
//! refresh planning), the request normalizer that repairs missing tool-call
//! identifiers, the dialect converters, and the three streaming transcoders
//! that rebuild each client's event shape from the upstream delta stream.
//! Network and disk I/O live outside, handing plain values in and out.

pub mod auth;
pub mod chat_stream;
pub mod clock;
pub mod config;
pub mod copilot;
pub mod ollama;
pub mod openai;
pub mod responses;
pub mod responses_stream;
pub mod server;
pub mod storage;
pub mod text;
pub mod token_manager;
