//! The ordered collection of violation messages gathered during one check.

use vstd::prelude::*;

verus! {

/// The violations found so far, in the order in which they were found.
///
/// Messages are only ever appended. The same message may occur more than once.
#[derive(Debug)]
pub struct RepErrors {
    errors: Vec<String>,
}

impl View for RepErrors {
    type V = Seq<Seq<char>>;

    closed spec fn view(&self) -> Seq<Seq<char>> {
        Seq::new(self.errors@.len(), |i: int| self.errors@[i]@)
    }
}

impl RepErrors {
    /// An empty collection.
    pub fn new() -> (e: RepErrors)
        ensures
            e@ == Seq::<Seq<char>>::empty(),
    {
        RepErrors { errors: Vec::new() }
    }

    /// Whether no message was added.
    pub fn is_empty(&self) -> (empty: bool)
        ensures
            empty == (self@.len() == 0),
    {
        self.errors.len() == 0
    }

    /// The number of messages.
    pub fn len(&self) -> (n: usize)
        ensures
            n == self@.len(),
    {
        self.errors.len()
    }

    /// The message at position `i`, counted from zero in the order of
    /// addition, if there are that many.
    pub fn get(&self, i: usize) -> (m: Option<&String>)
        ensures
            i < self@.len() ==> (m matches Some(text) && text@ == self@[i as int]),
            i >= self@.len() ==> m is None,
    {
        if i < self.errors.len() {
            Some(&self.errors[i])
        } else {
            None
        }
    }

    /// Appends `error` as the last message.
    pub fn add(&mut self, error: String)
        ensures
            final(self)@ == old(self)@.push(error@),
    {
        self.errors.push(error);
    }
}

} // verus!
