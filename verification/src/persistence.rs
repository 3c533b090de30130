//! What became of the copies of the record that were handed to
//! persistence. A run never reads this: whether a copy was saved has no
//! part in whether the run succeeds.

use vstd::prelude::*;
use crate::text::join2;

verus! {

/// The line that reports a copy that could not be saved, for this reason.
pub open spec fn loss_line(cause: Seq<char>) -> Seq<char> {
    "failed to update an update during procedure | "@ + cause
}

/// The losses of one run, in the order in which they happened.
#[derive(Debug)]
pub struct Durability {
    lost: Vec<String>,
}

impl View for Durability {
    type V = Seq<Seq<char>>;

    closed spec fn view(&self) -> Seq<Seq<char>> {
        self.lost@.map_values(|line: String| line@)
    }
}

impl Durability {
    /// Nothing lost so far.
    pub fn new() -> (tally: Durability)
        ensures
            tally@ == Seq::<Seq<char>>::empty(),
    {
        let tally = Durability { lost: Vec::new() };
        assert(tally@ =~= Seq::<Seq<char>>::empty());
        tally
    }

    /// Takes note of what persistence answered for one copy: a failure adds
    /// its line to the losses and the line comes back to be logged; a
    /// success changes nothing.
    pub fn note(&mut self, outcome: &Result<(), String>) -> (line: Option<String>)
        ensures
            outcome is Ok ==> line.is_none() && final(self)@ == old(self)@,
            outcome matches Err(cause) ==> line.is_some() && line.unwrap()@ == loss_line(cause@)
                && final(self)@ == old(self)@.push(loss_line(cause@)),
    {
        match outcome {
            Ok(()) => None,
            Err(cause) => {
                let line = join2("failed to update an update during procedure | ", cause.as_str());
                self.lost.push(line.clone());
                assert(self@ =~= old(self)@.push(loss_line(cause@)));
                Some(line)
            },
        }
    }

    /// Number of copies that could not be saved.
    pub fn losses(&self) -> (count: usize)
        ensures
            count == self@.len(),
    {
        self.lost.len()
    }

    /// Every copy so far was saved.
    pub fn intact(&self) -> (intact: bool)
        ensures
            intact == (self@.len() == 0),
    {
        self.lost.len() == 0
    }

    /// The line of the loss at `index`, if there were that many.
    pub fn line(&self, index: usize) -> (line: Option<&String>)
        ensures
            line.is_some() <==> index < self@.len(),
            line.is_some() ==> line.unwrap()@ == self@[index as int],
    {
        if index < self.lost.len() {
            Some(&self.lost[index])
        } else {
            None
        }
    }
}

} // verus!
