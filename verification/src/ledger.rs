//! The handles that a launch or a session owns, and the order in which they
//! are given back.
//!
//! Releasing the pseudo-console device waits until the device has flushed its
//! output into the pipe that the caller reads. If the caller's read end is
//! already closed, that wait never ends. The ledger keeps the two apart: it
//! names a release that would wait forever before anybody performs it.

use vstd::multiset::Multiset;
use vstd::prelude::*;

verus! {

/// What a handle is to the session.
#[derive(Clone, Copy, Debug, PartialEq, Eq, Structural)]
pub enum Resource {
    /// The pseudo-console device.
    Device,
    /// The read end from which the device takes the child's input.
    DeviceInput,
    /// The write end into which the device puts the child's output.
    DeviceOutput,
    /// The caller's read end, which yields the child's output.
    OutputReader,
    /// The caller's write end, which feeds the child's input.
    InputWriter,
    /// The child process.
    Process,
    /// The child's initial thread.
    Thread,
}

/// A request to give one handle back to the operating system.
#[derive(Clone, Copy, Debug, PartialEq, Eq, Structural)]
pub struct Release {
    pub resource: Resource,
    pub handle: isize,
}

/// Why a release must not be performed.
#[derive(Clone, Copy, Debug, PartialEq, Eq, Structural)]
pub enum Hazard {
    /// The ledger does not hold this handle in this role: it was never
    /// acquired, or it has been released already.
    NotHeld,
    /// The device would be released after the caller's read end was closed,
    /// and the release would never return.
    Deadlock,
}

/// The first release of a plan that must not be performed.
#[derive(Clone, Copy, Debug, PartialEq, Eq, Structural)]
pub struct Fault {
    /// Position of the release in the plan.
    pub at: usize,
    pub hazard: Hazard,
}

/// The handles currently owned, one slot for each role.
#[derive(Clone, Copy, Debug, PartialEq, Eq)]
pub struct Ledger {
    pub device: Option<isize>,
    pub device_input: Option<isize>,
    pub device_output: Option<isize>,
    pub output_reader: Option<isize>,
    pub input_writer: Option<isize>,
    pub process: Option<isize>,
    pub thread: Option<isize>,
}

/// The handle of a slot as a multiset: one handle or none.
pub open spec fn slot_handles(slot: Option<isize>) -> Multiset<isize> {
    match slot {
        Some(handle) => Multiset::singleton(handle),
        None => Multiset::empty(),
    }
}

/// The release of a slot: one request if the slot is filled, none otherwise.
pub open spec fn slot_release(resource: Resource, slot: Option<isize>) -> Seq<Release> {
    match slot {
        Some(handle) => seq![Release { resource, handle }],
        None => Seq::empty(),
    }
}

impl Ledger {
    /// The ledger that owns nothing.
    pub open spec fn spec_empty() -> Ledger {
        Ledger {
            device: None,
            device_input: None,
            device_output: None,
            output_reader: None,
            input_writer: None,
            process: None,
            thread: None,
        }
    }

    /// The handle held in the role `resource`, if any.
    pub open spec fn spec_get(self, resource: Resource) -> Option<isize> {
        match resource {
            Resource::Device => self.device,
            Resource::DeviceInput => self.device_input,
            Resource::DeviceOutput => self.device_output,
            Resource::OutputReader => self.output_reader,
            Resource::InputWriter => self.input_writer,
            Resource::Process => self.process,
            Resource::Thread => self.thread,
        }
    }

    /// The ledger with the slot of `resource` emptied.
    pub open spec fn without(self, resource: Resource) -> Ledger {
        match resource {
            Resource::Device => Ledger { device: None, ..self },
            Resource::DeviceInput => Ledger { device_input: None, ..self },
            Resource::DeviceOutput => Ledger { device_output: None, ..self },
            Resource::OutputReader => Ledger { output_reader: None, ..self },
            Resource::InputWriter => Ledger { input_writer: None, ..self },
            Resource::Process => Ledger { process: None, ..self },
            Resource::Thread => Ledger { thread: None, ..self },
        }
    }

    /// Every handle owned, with its multiplicity.
    pub open spec fn handles(self) -> Multiset<isize> {
        slot_handles(self.device).add(slot_handles(self.device_input)).add(
            slot_handles(self.device_output),
        ).add(slot_handles(self.output_reader)).add(slot_handles(self.input_writer)).add(
            slot_handles(self.process),
        ).add(slot_handles(self.thread))
    }

    /// A device is never owned without the read end that drains it.
    pub open spec fn sound(self) -> bool {
        self.device is Some ==> self.output_reader is Some
    }

    /// Why `request` must not be performed on this ledger, if it must not.
    pub open spec fn hazard(self, request: Release) -> Option<Hazard> {
        if self.spec_get(request.resource) != Some(request.handle) {
            Some(Hazard::NotHeld)
        } else if request.resource == Resource::Device && self.output_reader is None {
            Some(Hazard::Deadlock)
        } else {
            None
        }
    }

    /// The result of performing `plan` from position `from` on: the ledger
    /// that remains, or the first release that must not be performed.
    pub open spec fn outcome_from(self, plan: Seq<Release>, from: int) -> Result<Ledger, Fault>
        decreases plan.len() - from,
    {
        if from < 0 || from >= plan.len() {
            Ok(self)
        } else {
            match self.hazard(plan[from]) {
                Some(hazard) => Err(Fault { at: from as usize, hazard }),
                None => self.without(plan[from].resource).outcome_from(plan, from + 1),
            }
        }
    }

    /// The result of performing the whole of `plan`.
    pub open spec fn outcome_of(self, plan: Seq<Release>) -> Result<Ledger, Fault> {
        self.outcome_from(plan, 0)
    }

    /// The releases that empty the ledger, in the order in which they must be
    /// performed: the device first, while the caller's read end is still
    /// open; then the pipe ends; the child's process and thread handles last.
    pub open spec fn plan(self) -> Seq<Release> {
        slot_release(Resource::Device, self.device) + (slot_release(
            Resource::DeviceInput,
            self.device_input,
        ) + (slot_release(Resource::DeviceOutput, self.device_output) + (slot_release(
            Resource::OutputReader,
            self.output_reader,
        ) + (slot_release(Resource::InputWriter, self.input_writer) + (slot_release(
            Resource::Process,
            self.process,
        ) + slot_release(Resource::Thread, self.thread))))))
    }

    /// A ledger that owns nothing.
    #[verifier::when_used_as_spec(spec_empty)]
    pub fn empty() -> (ledger: Ledger)
        ensures
            ledger == Ledger::spec_empty(),
    {
        Ledger {
            device: None,
            device_input: None,
            device_output: None,
            output_reader: None,
            input_writer: None,
            process: None,
            thread: None,
        }
    }

    /// The handle held in the role `resource`, if any.
    #[verifier::when_used_as_spec(spec_get)]
    pub fn get(self, resource: Resource) -> (slot: Option<isize>)
        ensures
            slot == self.spec_get(resource),
    {
        match resource {
            Resource::Device => self.device,
            Resource::DeviceInput => self.device_input,
            Resource::DeviceOutput => self.device_output,
            Resource::OutputReader => self.output_reader,
            Resource::InputWriter => self.input_writer,
            Resource::Process => self.process,
            Resource::Thread => self.thread,
        }
    }

    /// Whether no handle is owned any more.
    pub fn is_empty(&self) -> (none: bool)
        ensures
            none == (*self == Ledger::spec_empty()),
    {
        self.device.is_none() && self.device_input.is_none() && self.device_output.is_none()
            && self.output_reader.is_none() && self.input_writer.is_none()
            && self.process.is_none() && self.thread.is_none()
    }

    /// Takes `request` off the ledger, unless it must not be performed: then
    /// the ledger stays as it was and the hazard is returned.
    pub fn release(&mut self, request: Release) -> (outcome: Result<(), Hazard>)
        ensures
            match old(self).hazard(request) {
                Some(hazard) => outcome == Err::<(), Hazard>(hazard) && *final(self) == *old(self),
                None => outcome == Ok::<(), Hazard>(()) && *final(self) == old(self).without(
                    request.resource,
                ),
            },
    {
        let held = match self.get(request.resource) {
            Some(handle) => handle == request.handle,
            None => false,
        };
        if !held {
            return Err(Hazard::NotHeld);
        }
        match request.resource {
            Resource::Device => {
                if self.output_reader.is_none() {
                    return Err(Hazard::Deadlock);
                }
                self.device = None;
            },
            Resource::DeviceInput => {
                self.device_input = None;
            },
            Resource::DeviceOutput => {
                self.device_output = None;
            },
            Resource::OutputReader => {
                self.output_reader = None;
            },
            Resource::InputWriter => {
                self.input_writer = None;
            },
            Resource::Process => {
                self.process = None;
            },
            Resource::Thread => {
                self.thread = None;
            },
        }
        Ok(())
    }

    /// Performs `plan` on a copy of the ledger, release by release, and
    /// reports what remains owned, or the first release that must not be
    /// performed.
    pub fn replay(self, plan: &Vec<Release>) -> (outcome: Result<Ledger, Fault>)
        ensures
            outcome == self.outcome_of(plan@),
    {
        let mut ledger = self;
        let mut at: usize = 0;
        while at < plan.len()
            invariant
                at <= plan.len(),
                self.outcome_of(plan@) == ledger.outcome_from(plan@, at as int),
            decreases plan.len() - at,
        {
            match ledger.release(plan[at]) {
                Err(hazard) => {
                    return Err(Fault { at, hazard });
                },
                Ok(()) => {},
            }
            at += 1;
        }
        Ok(ledger)
    }

    /// The releases that empty the ledger, in the order in which they must be
    /// performed.
    pub fn release_plan(&self) -> (plan: Vec<Release>)
        ensures
            plan@ == self.plan(),
    {
        let mut plan: Vec<Release> = Vec::new();
        push_slot(&mut plan, Resource::Device, self.device);
        let ghost upto_device = plan@;
        push_slot(&mut plan, Resource::DeviceInput, self.device_input);
        let ghost upto_input = plan@;
        push_slot(&mut plan, Resource::DeviceOutput, self.device_output);
        let ghost upto_output = plan@;
        push_slot(&mut plan, Resource::OutputReader, self.output_reader);
        let ghost upto_reader = plan@;
        push_slot(&mut plan, Resource::InputWriter, self.input_writer);
        let ghost upto_writer = plan@;
        push_slot(&mut plan, Resource::Process, self.process);
        push_slot(&mut plan, Resource::Thread, self.thread);
        proof {
            // The vector grew from the left; the plan is written from the right.
            let input = slot_release(Resource::DeviceInput, self.device_input);
            let output = slot_release(Resource::DeviceOutput, self.device_output);
            let reader = slot_release(Resource::OutputReader, self.output_reader);
            let writer = slot_release(Resource::InputWriter, self.input_writer);
            let process = slot_release(Resource::Process, self.process);
            let thread = slot_release(Resource::Thread, self.thread);
            let from_process = process + thread;
            let from_writer = writer + from_process;
            let from_reader = reader + from_writer;
            let from_output = output + from_reader;
            lemma_concat_assoc(upto_writer, process, thread);
            lemma_concat_assoc(upto_reader, writer, from_process);
            lemma_concat_assoc(upto_output, reader, from_writer);
            lemma_concat_assoc(upto_input, output, from_reader);
            lemma_concat_assoc(upto_device, input, from_output);
            assert(upto_device =~= slot_release(Resource::Device, self.device));
        }
        plan
    }
}

/// Concatenation of sequences is associative.
proof fn lemma_concat_assoc(a: Seq<Release>, b: Seq<Release>, c: Seq<Release>)
    ensures
        (a + b) + c == a + (b + c),
{
    assert((a + b) + c =~= a + (b + c));
}

/// Appends the release of one slot to `plan`, if the slot is filled.
fn push_slot(plan: &mut Vec<Release>, resource: Resource, slot: Option<isize>)
    ensures
        final(plan)@ == old(plan)@ + slot_release(resource, slot),
{
    if let Some(handle) = slot {
        plan.push(Release { resource, handle });
    }
}

/// Skipping a release at the front of a plan does not change what the rest of
/// the plan leaves, where the rest goes through.
proof fn lemma_outcome_behind(ledger: Ledger, head: Release, rest: Seq<Release>, from: int)
    requires
        0 <= from,
        ledger.outcome_from(rest, from) is Ok,
    ensures
        ledger.outcome_from(seq![head] + rest, from + 1) == ledger.outcome_from(rest, from),
    decreases rest.len() - from,
{
    let plan = seq![head] + rest;
    if from < rest.len() {
        assert(plan[from + 1] == rest[from]);
        lemma_outcome_behind(ledger.without(rest[from].resource), head, rest, from + 1);
    }
}

/// Releasing one slot and then performing `rest` leaves what `rest` leaves of
/// the ledger without that slot.
proof fn lemma_outcome_slot(ledger: Ledger, resource: Resource, rest: Seq<Release>)
    requires
        resource == Resource::Device ==> ledger.sound(),
        ledger.without(resource).outcome_of(rest) is Ok,
    ensures
        ledger.outcome_of(slot_release(resource, ledger.spec_get(resource)) + rest)
            == ledger.without(resource).outcome_of(rest),
{
    match ledger.spec_get(resource) {
        Some(handle) => {
            let head = Release { resource, handle };
            let plan = seq![head] + rest;
            assert(plan[0] == head);
            lemma_outcome_behind(ledger.without(resource), head, rest, 0);
        },
        None => {
            assert(Seq::<Release>::empty() + rest =~= rest);
            assert(ledger.without(resource) == ledger);
        },
    }
}

/// The release plan of a ledger can always be performed, and it leaves
/// nothing owned: no release of the plan waits forever, and no handle leaks.
pub proof fn lemma_plan_settles(ledger: Ledger)
    requires
        ledger.sound(),
    ensures
        ledger.outcome_of(ledger.plan()) == Ok::<Ledger, Fault>(Ledger::spec_empty()),
{
    let l1 = ledger.without(Resource::Device);
    let l2 = l1.without(Resource::DeviceInput);
    let l3 = l2.without(Resource::DeviceOutput);
    let l4 = l3.without(Resource::OutputReader);
    let l5 = l4.without(Resource::InputWriter);
    let l6 = l5.without(Resource::Process);
    let l7 = l6.without(Resource::Thread);
    assert(l7 == Ledger::spec_empty());
    let r6 = slot_release(Resource::Thread, ledger.thread);
    let r5 = slot_release(Resource::Process, ledger.process) + r6;
    let r4 = slot_release(Resource::InputWriter, ledger.input_writer) + r5;
    let r3 = slot_release(Resource::OutputReader, ledger.output_reader) + r4;
    let r2 = slot_release(Resource::DeviceOutput, ledger.device_output) + r3;
    let r1 = slot_release(Resource::DeviceInput, ledger.device_input) + r2;
    assert(r6 + Seq::<Release>::empty() =~= r6);
    lemma_outcome_slot(l6, Resource::Thread, Seq::empty());
    lemma_outcome_slot(l5, Resource::Process, r6);
    lemma_outcome_slot(l4, Resource::InputWriter, r5);
    lemma_outcome_slot(l3, Resource::OutputReader, r4);
    lemma_outcome_slot(l2, Resource::DeviceOutput, r3);
    lemma_outcome_slot(l1, Resource::DeviceInput, r2);
    lemma_outcome_slot(ledger, Resource::Device, r1);
}

/// Once the caller's read end is gone, a plan that still releases the device
/// cannot be performed to its end.
proof fn lemma_device_after_reader(ledger: Ledger, plan: Seq<Release>, from: int, device: int)
    requires
        0 <= from <= device < plan.len(),
        plan[device].resource == Resource::Device,
        ledger.output_reader is None,
    ensures
        ledger.outcome_from(plan, from) is Err,
    decreases device - from,
{
    if from < device && ledger.hazard(plan[from]) is None {
        lemma_device_after_reader(ledger.without(plan[from].resource), plan, from + 1, device);
    }
}

/// A plan that closes the caller's read end before it releases the device
/// cannot be performed to its end, whatever the ledger holds: either an
/// earlier release is refused, or the release of the device would wait for
/// ever.
pub proof fn lemma_reader_before_device(
    ledger: Ledger,
    plan: Seq<Release>,
    from: int,
    reader: int,
    device: int,
)
    requires
        0 <= from <= reader < device < plan.len(),
        plan[reader].resource == Resource::OutputReader,
        plan[device].resource == Resource::Device,
    ensures
        ledger.outcome_from(plan, from) is Err,
    decreases reader - from,
{
    if ledger.hazard(plan[from]) is None {
        let rest = ledger.without(plan[from].resource);
        if from < reader {
            lemma_reader_before_device(rest, plan, from + 1, reader, device);
        } else {
            lemma_device_after_reader(rest, plan, from + 1, device);
        }
    }
}

} // verus!
