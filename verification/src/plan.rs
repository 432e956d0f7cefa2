//! Write plans: the commands that a request sends to the background writer, in order.

use vstd::prelude::*;
use vstd::utf8::encode_utf8;
use bytes::Bytes;
use crate::command::{CommandView, DatabaseCommand, DatabaseOperation};
use crate::error::{CacheError, CacheFault};
use crate::payload::{bytes_from_string, pair, payload_contents, single};

verus! {

/// A command to send, and what is said when the channel does not take it.
pub struct PlannedWrite {
    /// The command to send.
    pub command: DatabaseCommand,
    /// The context of the error when the command cannot be sent.
    pub failure: &'static str,
}

/// What a planned write says.
#[verifier::ext_equal]
pub struct PlannedView {
    pub command: CommandView,
    pub failure: Seq<char>,
}

impl View for PlannedWrite {
    type V = PlannedView;

    open spec fn view(&self) -> PlannedView {
        PlannedView { command: self.command@, failure: self.failure@ }
    }
}

/// The writes of one request, and its result once all of them are sent.
///
/// The writes are sent in order. The first that cannot be sent ends the request.
pub struct WritePlan {
    /// The writes to send, in order.
    pub writes: Vec<PlannedWrite>,
    /// The result of the request when every write is sent.
    pub outcome: Result<(), CacheError>,
}

/// A plan step: the command and the context of its error.
pub open spec fn step(command: CommandView, failure: Seq<char>) -> PlannedView {
    PlannedView { command, failure }
}

/// The commands of several plan steps.
pub open spec fn step_commands(steps: Seq<PlannedView>) -> Seq<CommandView> {
    steps.map_values(|s: PlannedView| s.command)
}

impl WritePlan {
    /// The steps of the plan.
    pub open spec fn steps(self) -> Seq<PlannedView> {
        self.writes@.map_values(|w: PlannedWrite| w@)
    }

    /// Whether the plan sends exactly these steps and then succeeds.
    pub open spec fn sends(self, steps: Seq<PlannedView>) -> bool {
        &&& self.steps() == steps
        &&& self.outcome is Ok
    }

    /// Whether the plan sends exactly these steps and then fails with `error`.
    pub open spec fn fails_after(
        self,
        steps: Seq<PlannedView>,
        error: CacheFault<Seq<char>>,
    ) -> bool {
        &&& self.steps() == steps
        &&& self.outcome is Err
        &&& self.outcome->Err_0@ == error
    }

    /// A plan that sends nothing and succeeds.
    pub fn new() -> (r: Self)
        ensures
            r.sends(Seq::empty()),
    {
        let r = WritePlan { writes: Vec::new(), outcome: Ok(()) };
        assert(r.steps() =~= Seq::<PlannedView>::empty());
        r
    }

    /// A plan that sends nothing and fails.
    pub fn failed(error: CacheError) -> (r: Self)
        ensures
            r.fails_after(Seq::empty(), error@),
    {
        let r = WritePlan { writes: Vec::new(), outcome: Err(error) };
        assert(r.steps() =~= Seq::<PlannedView>::empty());
        r
    }

    /// Adds a write at the end of the plan.
    pub(crate) fn push(
        &mut self,
        op_type: DatabaseOperation,
        key: String,
        payload: Option<Vec<Bytes>>,
        failure: &'static str,
    )
        ensures
            final(self).outcome == old(self).outcome,
            final(self).steps() == old(self).steps().push(
                step(
                    CommandView {
                        op: op_type@,
                        key: Some(key@),
                        payload: payload_contents(payload),
                    },
                    failure@,
                ),
            ),
    {
        let ghost before = self.steps();
        let command = DatabaseCommand::new(op_type, key, payload);
        let ghost added = step(command@, failure@);
        self.writes.push(PlannedWrite { command, failure });
        assert(self.steps() =~= before.push(added));
    }

    /// Adds an insert of one identifier into an index at the end of the plan.
    pub(crate) fn add_to_index(&mut self, index: &'static str, id: &str, failure: &'static str)
        ensures
            final(self).outcome == old(self).outcome,
            final(self).steps() == old(self).steps().push(
                step(CommandView::insert(index@, seq![encode_utf8(id@)]), failure@),
            ),
    {
        let value = bytes_from_string(id.to_owned());
        self.push(DatabaseOperation::Insert, index.to_owned(), Some(single(value)), failure);
    }

    /// Adds a mapping of one identifier to another in an index at the end of the plan.
    pub(crate) fn map_in_index(
        &mut self,
        index: &'static str,
        id: &str,
        target: &str,
        failure: &'static str,
    )
        ensures
            final(self).outcome == old(self).outcome,
            final(self).steps() == old(self).steps().push(
                step(
                    CommandView::insert(index@, seq![encode_utf8(id@), encode_utf8(target@)]),
                    failure@,
                ),
            ),
    {
        let field = bytes_from_string(id.to_owned());
        let value = bytes_from_string(target.to_owned());
        self.push(DatabaseOperation::Insert, index.to_owned(), Some(pair(field, value)), failure);
    }

    /// Adds a removal of one identifier from an index at the end of the plan.
    pub(crate) fn remove_from_index(&mut self, index: &'static str, id: &str, failure: &'static str)
        ensures
            final(self).outcome == old(self).outcome,
            final(self).steps() == old(self).steps().push(
                step(CommandView::remove(index@, seq![encode_utf8(id@)]), failure@),
            ),
    {
        let value = bytes_from_string(id.to_owned());
        self.push(DatabaseOperation::Delete, index.to_owned(), Some(single(value)), failure);
    }

    /// The result of the request, given the write that could not be sent and why, if there is one.
    pub fn resolve(&self, unsent: Option<(usize, String)>) -> (r: Result<(), CacheError>)
        requires
            unsent is Some ==> (unsent->0).0 < self.writes@.len(),
        ensures
            match unsent {
                Some((i, cause)) => r is Err && r->Err_0@ == (CacheFault::SendFailed {
                    context: self.steps()[i as int].failure,
                    cause: cause@,
                }),
                None => match self.outcome {
                    Ok(()) => r is Ok,
                    Err(e) => r is Err && r->Err_0@ == e@,
                },
            },
    {
        match unsent {
            Some((i, cause)) => Err(
                CacheFault::SendFailed { context: self.writes[i].failure.to_owned(), cause },
            ),
            None => match &self.outcome {
                Ok(()) => Ok(()),
                Err(e) => Err(e.clone()),
            },
        }
    }
}

/// A plan that sends steps succeeds after exactly these, one write each and in order; one that fails
/// after steps fails with its error after exactly these.
pub proof fn law_plan_is_its_writes(
    plan: WritePlan,
    steps: Seq<PlannedView>,
    error: CacheFault<Seq<char>>,
    i: int,
)
    ensures
        plan.steps().len() == plan.writes@.len(),
        0 <= i < plan.writes@.len() ==> {
            &&& plan.steps()[i].command == plan.writes@[i].command@
            &&& plan.steps()[i].failure == plan.writes@[i].failure@
        },
        plan.sends(steps) <==> plan.steps() == steps && plan.outcome is Ok,
        plan.fails_after(steps, error) <==> plan.steps() == steps && plan.outcome is Err
            && plan.outcome->Err_0@ == error,
        0 <= i < steps.len() ==> step_commands(steps)[i] == steps[i].command,
        step_commands(steps).len() == steps.len(),
{
}

} // verus!
