use vstd::prelude::*;
use crate::lexer::Lexer;

verus! {

/// Holds the lexer whose text it reads.
pub struct Parser {
    pub lexer: Lexer,
}

impl Parser {
    /// A parser over the given lexer.
    pub fn new(lexer: Lexer) -> (r: Parser)
        ensures
            r.lexer.input@ == lexer.input@,
    {
        Parser { lexer }
    }
}

} // verus!
