pub mod crypto;
pub mod document;
pub mod error;
pub mod identifier;
pub mod json;
pub mod resolve;
pub mod strutil;
