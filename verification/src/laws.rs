//! What holds of the tokenizer as a whole.

pub mod attributes;
pub mod calls;
pub mod cdata;
pub mod characters;
pub mod comments;
pub mod declarations;
pub mod doctypes;
pub mod endings;
pub mod inputs;
pub mod instructions;
pub mod markup;
pub mod names;
pub mod numerals;
pub mod openings;
pub mod raw;
pub mod references;
pub mod resolved;
pub mod script;
pub mod scripts;
pub mod stream;
pub mod tags;
pub mod text;
pub mod tidy;
pub mod values;
