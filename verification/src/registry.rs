//! The submitted tests, in the order in which they came in. Nothing is ever
//! taken out or changed: the registry only grows at its end.

use vstd::prelude::*;
use crate::device::{Submission, TestData};

verus! {

/// The submitted tests, oldest first.
#[derive(Debug)]
pub struct TestRegistry {
    entries: Vec<TestData>,
}

impl View for TestRegistry {
    type V = Seq<Submission>;

    closed spec fn view(&self) -> Seq<Submission> {
        self.entries@.map_values(|data: TestData| data@)
    }
}

/// The entry that was appended last, if there is any.
pub open spec fn spec_latest(entries: Seq<Submission>) -> Option<Submission> {
    if entries.len() == 0 {
        None
    } else {
        Some(entries.last())
    }
}

/// The entries after each of `more` was appended in turn.
pub open spec fn spec_append_all(entries: Seq<Submission>, more: Seq<Submission>) -> Seq<
    Submission,
>
    decreases more.len(),
{
    if more.len() == 0 {
        entries
    } else {
        spec_append_all(entries.push(more[0]), more.drop_first())
    }
}

impl TestRegistry {
    /// A registry without entries.
    pub fn new() -> (registry: TestRegistry)
        ensures
            registry@ == Seq::<Submission>::empty(),
    {
        let registry = TestRegistry { entries: Vec::new() };
        registry
    }

    /// How many tests were submitted.
    pub fn len(&self) -> (n: usize)
        ensures
            n == self@.len(),
    {
        self.entries.len()
    }

    /// Puts a submitted test at the end.
    pub fn append(&mut self, submission: TestData)
        ensures
            final(self)@ == old(self)@.push(submission@),
    {
        self.entries.push(submission);
    }

    /// A copy of the test that was submitted last; `None` if none ever was.
    pub fn latest(&self) -> (last: Option<TestData>)
        ensures
            match spec_latest(self@) {
                Some(entry) => last matches Some(data) && data@ == entry,
                None => last is None,
            },
    {
        let n = self.entries.len();
        if n == 0 {
            None
        } else {
            Some(self.entries[n - 1].clone())
        }
    }
}

/// The entry that was just appended is the latest, and the registry is one
/// entry longer than before.
pub proof fn lemma_latest_after_append(entries: Seq<Submission>, submission: Submission)
    ensures
        spec_latest(entries.push(submission)) == Some(submission),
        entries.push(submission).len() == entries.len() + 1,
{
}

/// Appends lose nothing: in whatever order a series of appends is let in,
/// the registry afterwards holds what it held before, unchanged and in
/// place, followed by the new entries in that order. So its length never
/// goes down, and grows by exactly the number of appends.
pub proof fn lemma_appends_lose_nothing(entries: Seq<Submission>, more: Seq<Submission>)
    ensures
        spec_append_all(entries, more) == entries + more,
        spec_append_all(entries, more).len() == entries.len() + more.len(),
        forall|i: int|
            0 <= i < entries.len() ==> #[trigger] spec_append_all(entries, more)[i] == entries[i],
        more.len() > 0 ==> spec_latest(spec_append_all(entries, more)) == Some(more.last()),
    decreases more.len(),
{
    if more.len() > 0 {
        lemma_appends_lose_nothing(entries.push(more[0]), more.drop_first());
    }
}

} // verus!
