//! Lexical tokens for hand-written lexers and parsers.
//!
//! A [`Tok`] pairs a token kind, chosen from a vocabulary that the user
//! defines by implementing [`TokKind`], with the [`SrcSpan`] of source text
//! that it was lexed from.

mod span;
mod tok;

pub use span::{SrcLoc, SrcSpan};
pub use tok::{Tok, TokKind};
