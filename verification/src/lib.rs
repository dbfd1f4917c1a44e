//! An HTML tokenizer.
//!
//! The tokenizer reads a string and emits tokens: DOCTYPEs, start and end tags,
//! comments, processing instructions, characters, and the end of the file. What it
//! does is stated over a mathematical machine, [`model::Machine`], and proved.
//!
//! ```ignore
//! let mut t = HtmlTokenizer::new("<p>hello</p>");
//! while let Some(token) = t.next_token() {
//!     // use the token
//! }
//! ```

pub mod chars;
pub mod entities;
pub mod laws;
pub mod model;
pub mod strings;
pub mod tokenizer;
pub mod trait_def;
pub mod types;

pub use tokenizer::HtmlTokenizer;
pub use trait_def::Tokenizer;
pub use types::{DoctypeToken, State, TagKind, TagToken, Token};
