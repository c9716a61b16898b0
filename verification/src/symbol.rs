use vstd::prelude::*;

verus! {

/// An opaque identifier naming a variable: a single character, compared
/// structurally.
#[derive(Debug, Clone, Copy, PartialEq, Eq, Hash, Structural)]
pub struct Symbol(char);

impl View for Symbol {
    type V = char;

    closed spec fn view(&self) -> char {
        self.0
    }
}

impl Symbol {
    /// Builds the symbol named by the given character.
    pub fn of_character(c: char) -> (s: Self)
        ensures
            s@ == c,
    {
        Symbol(c)
    }

    /// The character that names this symbol.
    pub fn character(&self) -> (c: char)
        ensures
            c == self@,
    {
        self.0
    }
}

} // verus!
