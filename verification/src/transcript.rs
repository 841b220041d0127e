//! The lines written to a console, kept in the order in which they were
//! written.

use vstd::prelude::*;

verus! {

/// A console transcript: every line written so far, oldest first.
pub struct Transcript {
    lines: Vec<String>,
}

impl View for Transcript {
    type V = Seq<Seq<char>>;

    /// The lines as sequences of characters, oldest first.
    closed spec fn view(&self) -> Seq<Seq<char>> {
        Seq::new(self.lines@.len(), |i: int| self.lines@[i]@)
    }
}

impl Transcript {
    /// A transcript on which nothing has been written.
    pub fn new() -> (out: Transcript)
        ensures
            out@ == Seq::<Seq<char>>::empty(),
    {
        let out = Transcript { lines: Vec::new() };
        assert(out@ =~= Seq::<Seq<char>>::empty());
        out
    }

    /// Writes `text` as the next line. The lines written before stay as they
    /// were.
    pub fn print_line(&mut self, text: &str)
        ensures
            final(self)@ == old(self)@.push(text@),
    {
        self.lines.push(text.to_owned());
        assert(self@ =~= old(self)@.push(text@));
    }

    /// The lines written so far, oldest first.
    pub fn lines(&self) -> (lines: &Vec<String>)
        ensures
            lines@.len() == self@.len(),
            forall|i: int| 0 <= i < lines@.len() ==> lines@[i]@ == #[trigger] self@[i],
    {
        &self.lines
    }
}

} // verus!
