//! The logic behind a desktop viewer for manual pages: reading what the user
//! typed, assembling the fetched page into a document, and keeping the
//! viewer's settings within their limits.

pub mod alias;
pub mod document;
pub mod error;
pub mod invoker;
pub mod number;
pub mod query;
pub mod settings;
pub mod text;
