//! Steps carried out one after another: the first step that fails ends the
//! sequence, unless the step is one whose failure is passed over.

use vstd::prelude::*;
use crate::errors::Error;

verus! {

/// What is to be done next.
#[derive(Clone, Copy, Debug, PartialEq, Eq, Structural)]
pub enum Next {
    /// The step with this number, counted from 0.
    Perform(usize),
    /// Nothing: the sequence is over.
    Finish,
}

/// A sequence of steps as the contracts see it.
pub struct SequenceModel {
    /// For each step, whether its failure is passed over.
    pub best_effort: Seq<bool>,
    /// The number of steps carried out.
    pub position: nat,
    /// Whether a step has failed whose failure is not passed over.
    pub failed: bool,
}

impl SequenceModel {
    /// The sequence before its first step.
    pub open spec fn initial(best_effort: Seq<bool>) -> SequenceModel {
        SequenceModel { best_effort, position: 0, failed: false }
    }

    /// Whether the sequence is over: a step has failed or none is left.
    pub open spec fn over(self) -> bool {
        self.failed || self.position >= self.best_effort.len()
    }

    /// What is to be done next.
    pub open spec fn action(self) -> Next {
        if self.over() {
            Next::Finish
        } else {
            Next::Perform(self.position as usize)
        }
    }

    /// The sequence after its next step has been carried out, with success
    /// or without.
    pub open spec fn step(self, success: bool) -> SequenceModel {
        if self.over() {
            self
        } else if success || self.best_effort[self.position as int] {
            SequenceModel { position: self.position + 1, ..self }
        } else {
            SequenceModel { position: self.position + 1, failed: true, ..self }
        }
    }

    /// The sequence after the steps whose outcomes are `outcomes`, in
    /// order.
    pub open spec fn after(self, outcomes: Seq<bool>) -> SequenceModel
        decreases outcomes.len(),
    {
        if outcomes.len() == 0 {
            self
        } else {
            self.after(outcomes.drop_last()).step(outcomes.last())
        }
    }

    /// Whether the step `i` fails for good under `outcomes`.
    pub open spec fn fatal(self, outcomes: Seq<bool>, i: int) -> bool {
        0 <= i < outcomes.len() && i < self.best_effort.len() && !outcomes[i]
            && !self.best_effort[i]
    }
}

/// The steps are carried out in their order, and none after the first that
/// fails for good: after the steps with the outcomes `outcomes`, the
/// sequence has failed exactly if one of them was fatal, and the number of
/// steps carried out is the number of outcomes if none was fatal before
/// the last, else the position after the first fatal one.
pub proof fn lemma_fail_fast(best_effort: Seq<bool>, outcomes: Seq<bool>)
    requires
        outcomes.len() <= best_effort.len(),
    ensures
        ({
            let start = SequenceModel::initial(best_effort);
            let end = start.after(outcomes);
            &&& end.best_effort == best_effort
            &&& end.position <= outcomes.len()
            &&& end.failed <==> exists|i: int| start.fatal(outcomes, i)
            &&& end.failed ==> start.fatal(outcomes, end.position - 1) && forall|i: int|
                0 <= i < end.position - 1 ==> !start.fatal(outcomes, i)
            &&& !end.failed ==> end.position == outcomes.len()
        }),
    decreases outcomes.len(),
{
    let start = SequenceModel::initial(best_effort);
    if outcomes.len() > 0 {
        let head = outcomes.drop_last();
        lemma_fail_fast(best_effort, head);
        let mid = start.after(head);
        let end = start.after(outcomes);
        assert forall|i: int| start.fatal(head, i) implies start.fatal(outcomes, i) by {
            assert(head[i] == outcomes[i]);
        }
        if mid.failed {
            let w = choose|i: int| start.fatal(head, i);
            assert(start.fatal(outcomes, w));
            assert(start.fatal(head, mid.position - 1));
            assert forall|i: int| 0 <= i < end.position - 1 implies !start.fatal(outcomes, i) by {
                if start.fatal(outcomes, i) {
                    assert(start.fatal(head, i));
                }
            }
        } else {
            assert(mid.position == head.len());
            if end.failed {
                assert(start.fatal(outcomes, outcomes.len() - 1));
                assert forall|i: int| 0 <= i < end.position - 1 implies !start.fatal(
                    outcomes,
                    i,
                ) by {
                    if start.fatal(outcomes, i) {
                        assert(start.fatal(head, i));
                    }
                }
            } else {
                assert forall|i: int| !start.fatal(outcomes, i) by {
                    if start.fatal(outcomes, i) {
                        if i < head.len() {
                            assert(start.fatal(head, i));
                        }
                    }
                }
            }
        }
    } else {
        assert forall|i: int| !start.fatal(outcomes, i) by {}
    }
}

/// A sequence of steps: it says which step is next, is told how the step
/// went, and keeps the failure that ended it apart from those that were
/// passed over.
#[derive(Debug)]
pub struct Sequence {
    best_effort: Vec<bool>,
    position: usize,
    failure: Option<Error>,
    warnings: Vec<Error>,
}

impl View for Sequence {
    type V = SequenceModel;

    closed spec fn view(&self) -> SequenceModel {
        SequenceModel {
            best_effort: self.best_effort@,
            position: self.position as nat,
            failed: self.failure is Some,
        }
    }
}

impl Sequence {
    /// The failure that ended the sequence.
    pub closed spec fn failure(&self) -> Option<Error> {
        self.failure
    }

    /// The failures that were passed over, in order.
    pub closed spec fn warnings(&self) -> Seq<Error> {
        self.warnings@
    }

    /// What holds of every sequence.
    pub closed spec fn wf(&self) -> bool {
        self.position <= self.best_effort@.len()
    }

    /// A sequence of as many steps as `best_effort` has entries, each of
    /// which says whether the failure of its step is passed over.
    pub fn new(best_effort: Vec<bool>) -> (r: Sequence)
        ensures
            r@ == SequenceModel::initial(best_effort@),
            r.wf(),
            r.failure() is None,
            r.warnings().len() == 0,
    {
        Sequence { best_effort, position: 0, failure: None, warnings: Vec::new() }
    }

    /// What is to be done next.
    pub fn next(&self) -> (r: Next)
        ensures
            r == self@.action(),
    {
        if self.failure.is_some() || self.position >= self.best_effort.len() {
            Next::Finish
        } else {
            Next::Perform(self.position)
        }
    }

    /// Takes note of how the step that was next went.
    pub fn record(&mut self, outcome: Result<(), Error>)
        requires
            old(self).wf(),
        ensures
            final(self).wf(),
            final(self)@ == old(self)@.step(outcome is Ok),
            old(self)@.over() || outcome is Ok ==> final(self).failure() == old(self).failure()
                && final(self).warnings() == old(self).warnings(),
            !old(self)@.over() && outcome is Err ==> (if old(self)@.best_effort[old(
                self,
            )@.position as int] {
                final(self).failure() == old(self).failure() && final(self).warnings() == old(
                    self,
                ).warnings().push(outcome->Err_0)
            } else {
                final(self).failure() == Some(outcome->Err_0) && final(self).warnings() == old(
                    self,
                ).warnings()
            }),
    {
        if self.failure.is_some() || self.position >= self.best_effort.len() {
            return ;
        }
        let passed_over = self.best_effort[self.position];
        self.position = self.position + 1;
        match outcome {
            Ok(_) => {},
            Err(e) => {
                if passed_over {
                    self.warnings.push(e);
                } else {
                    self.failure = Some(e);
                }
            },
        }
    }

    /// What came of the sequence: the failure that ended it, if one did,
    /// and the failures that were passed over.
    pub fn finish(self) -> (r: (Result<(), Error>, Vec<Error>))
        ensures
            r.0 == (match self.failure() {
                Some(e) => Err::<(), Error>(e),
                None => Ok::<(), Error>(()),
            }),
            r.1@ == self.warnings(),
    {
        let result = match self.failure {
            Some(e) => Err(e),
            None => Ok(()),
        };
        (result, self.warnings)
    }
}

} // verus!
