//! Fail-fast bookkeeping for running one built command sequence.
//!
//! The executor consumes command frames opaquely — it knows nothing of
//! sub-command semantics.  Commands are issued strictly in construction
//! order; a failing command aborts the remainder of the sequence, and the
//! outputs already captured for prior commands are kept as they are:
//! nothing is rolled back, the partial application is reported instead.
//! Whether a frame is spawned as a local subprocess or sent over a remote
//! shell session is the caller's concern; it hands back one captured
//! result per issued command.

use vstd::prelude::*;

verus! {

/// The progress of one command sequence: which command is due next,
/// whether a failure aborted the run, and the output captured for each
/// command issued so far.
pub struct SequenceRun {
    pub commands: Vec<String>,
    pub next: usize,
    pub aborted: bool,
    pub outputs: Vec<String>,
}

impl SequenceRun {
    /// One captured output per issued command, and never a command beyond
    /// the sequence.
    pub open spec fn wf(&self) -> bool {
        &&& self.next <= self.commands@.len()
        &&& self.outputs@.len() == self.next
    }

    /// The run is over: either every command ran, or a failure cut it
    /// short.
    pub open spec fn spec_finished(&self) -> bool {
        self.aborted || self.next == self.commands@.len()
    }

    /// The command to issue next, if the run is still going.
    pub open spec fn spec_next_command(&self) -> Option<Seq<char>> {
        if !self.aborted && self.next < self.commands@.len() {
            Some(self.commands@[self.next as int]@)
        } else {
            None
        }
    }

    pub fn new(commands: Vec<String>) -> (r: Self)
        ensures
            r.wf(),
            r.commands == commands,
            r.next == 0,
            !r.aborted,
            r.outputs@.len() == 0,
    {
        SequenceRun { commands, next: 0, aborted: false, outputs: Vec::new() }
    }

    /// The command to issue next: `None` once every command ran or a
    /// failure aborted the remainder of the sequence.
    pub fn next_command(&self) -> (r: Option<&String>)
        ensures
            r is Some <==> self.spec_next_command() is Some,
            r matches Some(c) ==> self.spec_next_command() == Some(c@),
    {
        if !self.aborted && self.next < self.commands.len() {
            Some(&self.commands[self.next])
        } else {
            None
        }
    }

    /// Record the captured result of the command just issued.  A non-zero
    /// exit or transport failure (`success == false`) aborts the rest of
    /// the sequence; the outputs captured so far are kept either way.
    pub fn record(&mut self, success: bool, output: String)
        requires
            old(self).wf(),
            !old(self).aborted,
            old(self).next < old(self).commands@.len(),
        ensures
            final(self).wf(),
            final(self).commands == old(self).commands,
            final(self).next == old(self).next + 1,
            final(self).aborted == !success,
            final(self).outputs@ == old(self).outputs@.push(output),
    {
        let total = self.commands.len();
        self.outputs.push(output);
        self.next = self.next + 1;
        self.aborted = !success;
    }

    pub fn is_finished(&self) -> (r: bool)
        ensures
            r == self.spec_finished(),
    {
        self.aborted || self.next == self.commands.len()
    }

    /// Whether the whole sequence ran without failure.
    pub fn succeeded(&self) -> (r: bool)
        requires
            self.spec_finished(),
        ensures
            r == !self.aborted,
    {
        !self.aborted
    }

    /// The outputs captured so far, one per issued command, in issue
    /// order.
    pub fn captured_outputs(&self) -> (r: &Vec<String>)
        ensures
            r == self.outputs,
    {
        &self.outputs
    }
}

/// Fail-fast: an aborted run issues no further command, and a run that is
/// not finished issues exactly the first command that has no recorded
/// result yet.
pub proof fn lemma_fail_fast(run: SequenceRun)
    requires
        run.wf(),
    ensures
        run.aborted ==> run.spec_next_command() is None,
        !run.spec_finished() ==> run.spec_next_command() == Some(
            run.commands@[run.outputs@.len() as int]@,
        ),
{
}

} // verus!
