//! Deleting one entity by name.
use crate::crud::EntityKind;
use crate::crud::query::{Answer, DbError, Failure, Next, Reply, Request, Query, Row, RowView, Step, outcome_of};
use vstd::prelude::*;

verus! {

/// Whether `row` is of entity kind `kind`.
pub open spec fn row_is_kind(row: RowView, kind: EntityKind) -> bool {
    match (kind, row) {
        (EntityKind::Collection, RowView::Collection(_)) => true,
        (EntityKind::Notebook, RowView::Notebook(_)) => true,
        (EntityKind::Note, RowView::Note(_)) => true,
        (EntityKind::Tag, RowView::Tag(_)) => true,
        _ => false,
    }
}

/// Where a deletion stands.
#[derive(Debug)]
pub enum DeletePhase {
    /// Waiting for the row of `kind` with the name.
    Lookup { kind: EntityKind },
    /// Waiting for the deletion of the row found.
    Removing,
    /// The result has been given.
    Finished,
}

/// What a phase of a deletion holds.
pub enum DeleteStage {
    Lookup { kind: EntityKind },
    Removing,
    Finished,
}

impl View for DeletePhase {
    type V = DeleteStage;

    open spec fn view(&self) -> DeleteStage {
        match self {
            DeletePhase::Lookup { kind } => DeleteStage::Lookup { kind: *kind },
            DeletePhase::Removing => DeleteStage::Removing,
            DeletePhase::Finished => DeleteStage::Finished,
        }
    }
}

/// One step of a deletion: the phase after `reply` and what comes next.
/// A row found is deleted and the result is `true`; no row found gives
/// `false`.
pub open spec fn delete_step(stage: DeleteStage, reply: Result<Answer, Failure>) -> (DeleteStage, Next<bool>) {
    match (stage, reply) {
        (DeleteStage::Finished, _) => (DeleteStage::Finished, Next::Done(Err(Failure::Unexpected))),
        (_, Err(e)) => (DeleteStage::Finished, Next::Done(Err(e))),
        (DeleteStage::Lookup { kind }, Ok(Answer::Found(None))) => (DeleteStage::Finished, Next::Done(Ok(false))),
        (DeleteStage::Lookup { kind }, Ok(Answer::Found(Some(row)))) => if row_is_kind(row, kind) {
            (DeleteStage::Removing, Next::Ask(Query::Delete { row }))
        } else {
            (DeleteStage::Finished, Next::Done(Err(Failure::Unexpected)))
        },
        (DeleteStage::Removing, Ok(Answer::Removed)) => (DeleteStage::Finished, Next::Done(Ok(true))),
        _ => (DeleteStage::Finished, Next::Done(Err(Failure::Unexpected))),
    }
}

/// Deleting one record by its kind and name.
#[derive(Debug)]
pub struct DeleteOne {
    pub phase: DeletePhase,
}

/// Delete a single record by entity kind and name: the operation and the
/// lookup that it sends first.
pub fn delete_one(kind: EntityKind, name: &str) -> (r: (DeleteOne, Request))
    ensures
        r.0.phase@ == (DeleteStage::Lookup { kind }),
        r.1@ == (Query::FindOne { kind, key: name@ }),
{
    (DeleteOne { phase: DeletePhase::Lookup { kind } }, Request::FindOne { kind, key: String::from_str(name) })
}

impl DeleteOne {
    /// Hand over the reply to the request sent last; the result is the next
    /// request or whether a record was deleted.
    pub fn resume(&mut self, reply: Result<Reply, DbError>) -> (step: Step<bool>)
        ensures
            (final(self).phase@, step@) == delete_step(old(self).phase@, outcome_of(reply)),
    {
        let mut phase = DeletePhase::Finished;
        std::mem::swap(&mut phase, &mut self.phase);
        match (phase, reply) {
            (DeletePhase::Finished, _) => Step::Done(Err(DbError::Unexpected)),
            (_, Err(e)) => Step::Done(Err(e)),
            (DeletePhase::Lookup { kind }, Ok(Reply::Found(None))) => Step::Done(Ok(false)),
            (DeletePhase::Lookup { kind }, Ok(Reply::Found(Some(row)))) => {
                let fits = match (kind, &row) {
                    (EntityKind::Collection, Row::Collection(_)) => true,
                    (EntityKind::Notebook, Row::Notebook(_)) => true,
                    (EntityKind::Note, Row::Note(_)) => true,
                    (EntityKind::Tag, Row::Tag(_)) => true,
                    _ => false,
                };
                if fits {
                    self.phase = DeletePhase::Removing;
                    Step::Ask(Request::Delete { row })
                } else {
                    Step::Done(Err(DbError::Unexpected))
                }
            },
            (DeletePhase::Removing, Ok(Reply::Removed)) => Step::Done(Ok(true)),
            _ => Step::Done(Err(DbError::Unexpected)),
        }
    }
}

} // verus!
