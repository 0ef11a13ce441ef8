//! Lexical tokens of the scripting sublanguage. The tokenizer itself lives
//! elsewhere; layout never consumes these values.

use vstd::prelude::*;

verus! {

/// A lexical token: a single-character punctuator or a numeric literal.
#[derive(Debug, Clone, PartialEq, Eq)]
pub enum Token {
    /// https://262.ecma-international.org/#sec-punctuators
    Punctuator(char),
    /// https://262.ecma-international.org/#sec-literals-numeric-literals
    Number(u64),
}

} // verus!
