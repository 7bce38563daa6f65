//! The working unit of the pipeline: a program text together with the symbol
//! records that the passes collect.

use vstd::prelude::*;

verus! {

/// The character sequences that a list of names stands for.
pub open spec fn names_view(names: Seq<Vec<char>>) -> Seq<Seq<char>> {
    names.map_values(|name: Vec<char>| name@)
}

/// A program as the pipeline sees it.
///
/// Every pass takes the program by value and hands back the next one, so no
/// pass can observe a program that another one is changing. The size of a
/// program is the number of characters of its text.
#[derive(Debug, PartialEq, Eq)]
pub struct Program {
    /// The source text.
    pub text: Vec<char>,
    /// The names that replaced identifiers had before, in the order of
    /// replacement. They are needed to read the output, not to run it.
    pub debug_symbols: Vec<Vec<char>>,
}

/// Mathematical model of a [`Program`].
pub struct ProgramView {
    /// The source text.
    pub text: Seq<char>,
    /// The names that replaced identifiers had before.
    pub debug_symbols: Seq<Seq<char>>,
}

impl View for Program {
    type V = ProgramView;

    open spec fn view(&self) -> ProgramView {
        ProgramView { text: self.text@, debug_symbols: names_view(self.debug_symbols@) }
    }
}

impl Program {
    /// A program with the given text and no symbol records.
    pub fn from_text(text: Vec<char>) -> (p: Self)
        ensures
            p@.text == text@,
            p@.debug_symbols == Seq::<Seq<char>>::empty(),
    {
        let p = Program { text, debug_symbols: Vec::new() };
        assert(p@.debug_symbols =~= Seq::<Seq<char>>::empty());
        p
    }

    /// Size of the program: the number of characters of its text.
    pub fn size(&self) -> (n: usize)
        ensures
            n == self@.text.len(),
    {
        self.text.len()
    }

    /// Drops the symbol records and keeps the text.
    pub fn strip_debug_info(&mut self)
        ensures
            final(self)@.text == old(self)@.text,
            final(self)@.debug_symbols == Seq::<Seq<char>>::empty(),
    {
        self.debug_symbols = Vec::new();
        assert(self@.debug_symbols =~= Seq::<Seq<char>>::empty());
    }
}

} // verus!
