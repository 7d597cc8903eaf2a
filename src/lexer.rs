use vstd::prelude::*;

verus! {

/// Holds the source text that the compiler reads.
pub struct Lexer {
    pub input: String,
}

impl Lexer {
    /// A lexer over the given text.
    pub fn new(input: String) -> (r: Lexer)
        ensures
            r.input@ == input@,
    {
        Lexer { input }
    }
}

} // verus!
