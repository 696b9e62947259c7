//! Lexical classification of schema identifiers.
//!
//! A raw lexeme and the source span it was read from are turned into an
//! [`Identifier`]: an environment reference, a dotted path, a plain local
//! name, a hyphenated bare string, or an unusable token. The rules are
//! stated over sequences of characters, and the code is proved to follow
//! them.

pub mod identifier;
pub mod lemmas;
pub mod reference;
pub mod span;
pub mod text;

pub use identifier::Identifier;
pub use reference::RefIdentifier;
pub use span::Span;
