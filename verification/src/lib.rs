//! Request shaping and token budgeting for a streaming text-generation client.
//!
//! The crate decides between the two request shapes the hosted service
//! accepts (multi-turn chat and single-turn completion), measures prompts
//! with the byte-pair-encoding vocabulary that belongs to each shape, derives
//! the token budget a request may spend on generation, assembles the request,
//! folds a streamed response into printable text, and bounds the retry loop
//! that absorbs transient failures before streaming begins.

pub mod budget;
pub mod config;
pub mod mode;
pub mod request;
pub mod retry;
pub mod stream;
pub mod tokenizer;
pub mod window;
