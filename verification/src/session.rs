//! The pseudo-console device and the session that owns it.
//!
//! Neither type can be copied: a handle has one owner at a time, and it
//! passes on by move.

use crate::error::SessionError;
use crate::ledger::{Fault, Ledger, Release, Resource};
use crate::ledger::lemma_plan_settles;
use crate::platform::{s_ok, HRESULT_OK};
use vstd::prelude::*;

verus! {

/// A pseudo-console device: the one owner of its handle, from the moment the
/// operating system reports its creation until it is released.
#[derive(Debug, PartialEq, Eq)]
pub struct Conpty {
    pub handle: isize,
}

impl Conpty {
    /// Judges the outcome of the call that creates the device: `hresult` is
    /// what the call returned, `handle` what it stored. The device exists
    /// if and only if the call reported success.
    pub fn create(hresult: i32, handle: isize) -> (device: Result<Conpty, SessionError>)
        ensures
            device == if hresult == HRESULT_OK {
                Ok::<Conpty, SessionError>(Conpty { handle })
            } else {
                Err::<Conpty, SessionError>(SessionError::DeviceCreationFailed)
            },
    {
        if hresult == s_ok() {
            Ok(Conpty { handle })
        } else {
            Err(SessionError::DeviceCreationFailed)
        }
    }

    /// Gives the device up. The request that is returned must be performed
    /// while the read end of the device's output pipe is still open: the
    /// release waits until the device has flushed its output into that pipe.
    pub fn release(self) -> (request: Release)
        ensures
            request == (Release { resource: Resource::Device, handle: self.handle }),
    {
        Release { resource: Resource::Device, handle: self.handle }
    }
}

/// An established session: the device, the caller's two pipe ends, and the
/// handles of the child.
#[derive(Debug, PartialEq, Eq)]
pub struct ConptyHolder {
    /// The device through which the child sees a terminal.
    pub conpty: Conpty,
    /// The read end that yields what the child prints.
    pub conout: isize,
    /// The write end that feeds what the child reads.
    pub conin: isize,
    /// The child process.
    pub process: isize,
    /// The child's initial thread.
    pub thread: isize,
}

impl ConptyHolder {
    /// What the session owns: a device, both pipe ends, and the child.
    pub open spec fn spec_ledger(&self) -> Ledger {
        Ledger {
            device: Some(self.conpty.handle),
            device_input: None,
            device_output: None,
            output_reader: Some(self.conout),
            input_writer: Some(self.conin),
            process: Some(self.process),
            thread: Some(self.thread),
        }
    }

    /// The order in which a session is taken down: the device, the caller's
    /// read end, the caller's write end, the child process, its thread.
    pub open spec fn teardown_order(&self) -> Seq<Release> {
        seq![
            Release { resource: Resource::Device, handle: self.conpty.handle },
            Release { resource: Resource::OutputReader, handle: self.conout },
            Release { resource: Resource::InputWriter, handle: self.conin },
            Release { resource: Resource::Process, handle: self.process },
            Release { resource: Resource::Thread, handle: self.thread },
        ]
    }

    /// What the session owns.
    #[verifier::when_used_as_spec(spec_ledger)]
    pub fn ledger(&self) -> (ledger: Ledger)
        ensures
            ledger == self.spec_ledger(),
    {
        Ledger {
            device: Some(self.conpty.handle),
            device_input: None,
            device_output: None,
            output_reader: Some(self.conout),
            input_writer: Some(self.conin),
            process: Some(self.process),
            thread: Some(self.thread),
        }
    }

    /// Ends the session. It is consumed, so nothing can be written to the
    /// child's input any more; what is returned are the releases that
    /// remain to be performed, in their order: the device first, then the
    /// two pipe ends, then the child's handles. Performed in that order
    /// they all go through and leave nothing owned.
    pub fn teardown(self) -> (plan: Vec<Release>)
        ensures
            plan@ == self.teardown_order(),
            self.spec_ledger().outcome_of(plan@) == Ok::<Ledger, Fault>(Ledger::spec_empty()),
    {
        let plan = self.ledger().release_plan();
        proof {
            assert(plan@ =~= self.teardown_order());
            lemma_plan_settles(self.spec_ledger());
        }
        plan
    }
}

/// What a read or a write on an established session surfaces: the number of
/// bytes that were transferred, or `IoFailure` where the pipe was closed or
/// broken and nothing was.
pub fn transfer_result(transferred: Option<usize>) -> (outcome: Result<usize, SessionError>)
    ensures
        outcome == match transferred {
            Some(count) => Ok::<usize, SessionError>(count),
            None => Err::<usize, SessionError>(SessionError::IoFailure),
        },
{
    match transferred {
        Some(count) => Ok(count),
        None => Err(SessionError::IoFailure),
    }
}

/// Taking a session down in its order always completes: none of its five
/// releases is refused, none waits for ever, and no handle is left.
pub proof fn lemma_teardown_completes(session: ConptyHolder)
    ensures
        session.teardown_order().len() == 5,
        session.teardown_order() == session.spec_ledger().plan(),
        session.spec_ledger().outcome_of(session.teardown_order()) == Ok::<Ledger, Fault>(
            Ledger::spec_empty(),
        ),
{
    assert(session.teardown_order() =~= session.spec_ledger().plan());
    lemma_plan_settles(session.spec_ledger());
}

/// Closing the caller's read end before the device is released is the one
/// order that must not happen: however the five releases of a session are
/// arranged, if the read end comes before the device the teardown does not
/// complete.
pub proof fn lemma_teardown_out_of_order(
    session: ConptyHolder,
    plan: Seq<Release>,
    reader: int,
    device: int,
)
    requires
        0 <= reader < device < plan.len(),
        plan[reader].resource == Resource::OutputReader,
        plan[device].resource == Resource::Device,
    ensures
        session.spec_ledger().outcome_of(plan) is Err,
{
    crate::ledger::lemma_reader_before_device(session.spec_ledger(), plan, 0, reader, device);
}

} // verus!
