//! Interactive commit-message helper: a filterable commit-type selector and a
//! grapheme-aware single-line editor, both written as pure state machines
//! over key presses so that every transition carries a proved contract.

pub mod editor;
pub mod error;
pub mod grapheme;
pub mod key;
pub mod message;
pub mod selector;
pub mod session;
pub mod text;
pub mod vocabulary;
