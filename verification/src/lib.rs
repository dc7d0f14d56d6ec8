//! Conversation orchestration around a local language-model inference engine.
//!
//! The crate holds the parts of a chat session that can be stated exactly:
//! how turns are laid out as prompt text, how generated text is cut at stop
//! markers, how tokens are scheduled into bounded decode batches, and how the
//! agent loop alternates between input, generation and script evaluation.
//! The inference engine itself stays outside: it is driven by the caller, who
//! hands its results to the state machines defined here.

pub mod hook_llm;
pub mod llm;
pub mod script_llm;
pub mod text;

pub use crate::hook_llm::{HookLlama, IOHook, Token};
