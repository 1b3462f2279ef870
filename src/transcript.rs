use vstd::prelude::*;

verus! {

/// The characters decoded so far, oldest first.
pub struct Transcript {
    chars: Vec<char>,
}

impl View for Transcript {
    type V = Seq<char>;

    closed spec fn view(&self) -> Seq<char> {
        self.chars@
    }
}

impl Transcript {
    /// An empty transcript.
    pub fn new() -> (r: Transcript)
        ensures
            r@ == Seq::<char>::empty(),
    {
        Transcript { chars: Vec::new() }
    }

    /// Adds `c` at the end.
    pub fn append(&mut self, c: char)
        ensures
            final(self)@ == old(self)@.push(c),
    {
        self.chars.push(c);
    }

    /// Empties the transcript.
    pub fn clear(&mut self)
        ensures
            final(self)@ == Seq::<char>::empty(),
    {
        self.chars.clear();
    }

    /// Drops the last character; an empty transcript stays empty.
    pub fn remove_last(&mut self)
        ensures
            old(self)@.len() == 0 ==> final(self)@ == old(self)@,
            old(self)@.len() > 0 ==> final(self)@ == old(self)@.drop_last(),
    {
        self.chars.pop();
    }

    /// The characters, oldest first.
    pub fn chars(&self) -> (r: &Vec<char>)
        ensures
            r@ == self@,
    {
        &self.chars
    }

    /// The number of characters.
    pub fn len(&self) -> (r: usize)
        ensures
            r == self@.len(),
    {
        self.chars.len()
    }
}

} // verus!
