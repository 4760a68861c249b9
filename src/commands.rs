//! The decisions inside the `inspect` and `create` commands, between the
//! questions asked of the operator and the requests sent.
use vstd::prelude::*;
use crate::client::MAX_QUESTIONS;
use crate::model::{Failure, Respondent};
use crate::render::{respondent_line, respondent_row};

verus! {

/// What follows the query for a campaign's respondents.
pub enum InspectStep {
    /// The query failed: nothing can be shown.
    Failed(Failure),
    /// Nobody is in the partition asked for; the message says so.
    NoneYet(String),
    /// The operator picks one of these rows, one per respondent in order.
    Pick(Vec<String>),
}

/// The message for a partition with nobody in it.
pub open spec fn none_yet_text(canceled: bool) -> Seq<char> {
    "No one "@ + (if canceled {
        "canceled"@
    } else {
        "answered"@
    }) + " yet!"@
}

/// Decides what follows the respondents query: an empty partition is
/// reported as such, and only a non-empty one goes to the picker.
pub fn inspect_step(canceled: bool, outcome: &Result<Vec<Respondent>, Failure>) -> (r: InspectStep)
    ensures
        *outcome matches Err(f) ==> r matches InspectStep::Failed(g) && g == f,
        *outcome matches Ok(us) ==> {
            &&& (us@.len() == 0 <==> r is NoneYet)
            &&& r matches InspectStep::NoneYet(m) ==> m@ == none_yet_text(canceled)
            &&& r matches InspectStep::Pick(rows) ==> {
                &&& rows@.len() == us@.len()
                &&& forall|i: int|
                    0 <= i < us@.len() ==> rows@[i]@ == respondent_row(#[trigger] us@[i])
            }
            &&& !(r is Failed)
        },
{
    match outcome {
        Err(f) => InspectStep::Failed(*f),
        Ok(us) => {
            if us.len() == 0 {
                let mut m = String::from_str("No one ");
                if canceled {
                    m.append("canceled");
                } else {
                    m.append("answered");
                }
                m.append(" yet!");
                InspectStep::NoneYet(m)
            } else {
                let mut rows: Vec<String> = Vec::new();
                let mut i: usize = 0;
                while i < us.len()
                    invariant
                        i <= us@.len(),
                        rows@.len() == i,
                        forall|k: int| 0 <= k < i ==> rows@[k]@ == respondent_row(#[trigger] us@[k]),
                    decreases us.len() - i,
                {
                    rows.push(respondent_line(&us[i]));
                    i = i + 1;
                }
                InspectStep::Pick(rows)
            }
        },
    }
}

/// The identifier of the respondent at the picked row, if there is one.
pub fn chosen_respondent(respondents: &Vec<Respondent>, index: usize) -> (r: Option<i64>)
    ensures
        r is Some <==> index < respondents@.len(),
        r matches Some(id) ==> id == respondents@[index as int].id,
{
    if index < respondents.len() {
        Some(respondents[index].id)
    } else {
        None
    }
}

/// What became of a question offered to a draft.
#[derive(PartialEq, Eq, Structural, Clone, Copy, Debug)]
pub enum Offer {
    /// The question was added.
    Added,
    /// The entry was empty: the operator has no more questions.
    Ended,
    /// The draft already holds as many questions as a campaign can carry;
    /// the question was refused.
    Full,
}

/// The questions of a campaign being written, one at a time.
pub struct QuestionDraft {
    questions: Vec<String>,
}

impl QuestionDraft {
    /// The questions written so far, in order.
    pub closed spec fn view(&self) -> Seq<Seq<char>> {
        crate::tokens::texts(self.questions@)
    }

    /// A draft never holds more questions than a campaign can carry.
    pub closed spec fn wf(&self) -> bool {
        self.questions@.len() <= MAX_QUESTIONS
    }

    /// An empty draft.
    pub fn new() -> (r: QuestionDraft)
        ensures
            r.wf(),
            r@.len() == 0,
    {
        let r = QuestionDraft { questions: Vec::new() };
        assert(r@ =~= Seq::<Seq<char>>::empty());
        r
    }

    /// Whether the draft holds as many questions as a campaign can carry.
    pub fn is_full(&self) -> (r: bool)
        requires
            self.wf(),
        ensures
            r == (self@.len() == MAX_QUESTIONS),
    {
        self.questions.len() == MAX_QUESTIONS
    }

    /// Offers one more question: an empty entry ends the questions, one
    /// past the limit is refused, any other is added at the end.
    pub fn offer(&mut self, question: String) -> (r: Offer)
        requires
            old(self).wf(),
        ensures
            final(self).wf(),
            question@.len() == 0 ==> r == Offer::Ended && final(self)@ == old(self)@,
            question@.len() > 0 && old(self)@.len() == MAX_QUESTIONS ==> r == Offer::Full
                && final(self)@ == old(self)@,
            question@.len() > 0 && old(self)@.len() < MAX_QUESTIONS ==> r == Offer::Added
                && final(self)@ == old(self)@.push(question@),
    {
        if question.unicode_len() == 0 {
            return Offer::Ended;
        }
        if self.questions.len() == MAX_QUESTIONS {
            return Offer::Full;
        }
        let ghost before = self.questions@;
        self.questions.push(question);
        assert(crate::tokens::texts(self.questions@) =~= crate::tokens::texts(before).push(
            question@,
        ));
        Offer::Added
    }

    /// The questions written, in order.
    pub fn questions(&self) -> (r: &Vec<String>)
        requires
            self.wf(),
        ensures
            crate::tokens::texts(r@) == self@,
            r@.len() <= MAX_QUESTIONS,
    {
        &self.questions
    }
}

} // verus!
