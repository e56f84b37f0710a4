//! The record of notifications that operations have emitted.

use vstd::prelude::*;

verus! {

/// An append-only record of notifications, oldest first.
///
/// Its view is the sequence of the notifications' texts.
pub struct Transcript {
    lines: Vec<String>,
}

impl View for Transcript {
    type V = Seq<Seq<char>>;

    closed spec fn view(&self) -> Seq<Seq<char>> {
        self.lines@.map_values(|line: String| line@)
    }
}

impl Transcript {
    /// A transcript in which nothing has been recorded yet.
    pub fn new() -> (transcript: Transcript)
        ensures
            transcript@ == Seq::<Seq<char>>::empty(),
    {
        Transcript { lines: Vec::new() }
    }

    /// Records one notification after all those recorded before.
    pub fn notify(&mut self, text: &str)
        ensures
            final(self)@ == old(self)@.push(text@),
    {
        self.lines.push(text.to_owned());
    }

    /// The notifications recorded so far, oldest first, one string each.
    pub fn lines(&self) -> (lines: &Vec<String>)
        ensures
            lines@.len() == self@.len(),
            forall|i: int| 0 <= i < lines@.len() ==> (#[trigger] lines@[i])@ == self@[i],
    {
        &self.lines
    }
}

/// Recording is repeatable. What recording `notices` adds to a transcript is
/// `notices`, whatever the transcript held before; so recording them a second
/// time adds the same texts once more, and nothing else. Recording a single
/// text is the case of a one-element `notices`.
pub proof fn lemma_recording_repeats(before: Seq<Seq<char>>, notices: Seq<Seq<char>>)
    ensures
        ({
            let once = before + notices;
            let twice = once + notices;
            &&& once.skip(before.len() as int) == notices
            &&& twice.skip(once.len() as int) == notices
            &&& twice == before + (notices + notices)
        }),
        forall|text: Seq<char>| #[trigger] before.push(text) == before + seq![text],
{
}

} // verus!
