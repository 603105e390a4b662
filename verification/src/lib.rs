//! Single-turn prompt templates for chat models.
//!
//! A template takes a message history, keeps the first message of the user,
//! wraps its trimmed text in the markers of one model family and drops the
//! rest of the history.

pub mod builder;
pub mod error;
pub mod message;
pub mod mistral;
pub mod text;

pub use builder::{discard_leading_non_user, BuildChatPrompt};
pub use error::PromptError;
pub use message::{ChatMessage, Role};
pub use mistral::{MistralInstructPrompt, MistralLitePrompt, OpenChatPrompt};
