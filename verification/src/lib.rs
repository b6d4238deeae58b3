//! Core logic of a conversational agent for a social network: deciding
//! whether an inbound post addresses the agent, reconstructing the
//! surrounding thread, assembling retrieval-augmented context, driving a
//! bounded tool-call generation loop, and deriving deterministic memory
//! entries for the finished exchange.

pub mod cliui;
pub mod context;
pub mod genloop;
pub mod json;
pub mod memory;
pub mod post;
pub mod relevance;
pub mod text;
pub mod thread;
pub mod toolcall;
pub mod tools;
pub mod turn;
