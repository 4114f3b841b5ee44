//! Looks a word up in an online dictionary: builds the request address,
//! reads the answer's JSON, and words the summary that is shown to the user.
//!
//! The request itself is made by the caller; everything before and after it
//! is decided here. A caller asks [`request_url`] where to send the request,
//! sends it, and hands what came back to [`respond`].

pub mod entry;
pub mod json;
pub mod lookup;
pub mod text;

pub use entry::{Definition, License, Meaning, Phonetic, WordEntry};
pub use lookup::{lookup, respond, LookupError, Reply};
pub use text::{normalize, request_url};
