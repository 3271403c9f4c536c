//! Construction of a session, one operating-system call at a time.
//!
//! A launch asks for a call with an [`Action`] and is told how the call went
//! with an [`Event`]. It asks, in this order, for the pipe that carries the
//! child's output, the pipe that carries its input, the pseudo-console device
//! bound to the inner ends of both, the size of an attribute list with one
//! slot, the initialised list, the slot set to the device, and the child
//! process. The first call that fails ends the launch: the answer is then
//! the error, together with every handle acquired so far, for release.

use crate::error::{panic_shell_spawn, SessionError};
use crate::ledger::Ledger;
use crate::platform::{
    extended_startupinfo_present, proc_thread_attribute_pseudoconsole, startf_usestdhandles,
    EXTENDED_STARTUP_INFO, HRESULT_OK, PSEUDOCONSOLE_ATTRIBUTE, USE_STD_HANDLES,
};
use crate::session::{Conpty, ConptyHolder};
use crate::wide::{wide, win32_string};
use vstd::prelude::*;

verus! {

/// Number of slots in the attribute list of a child: one, for the device.
pub const ATTRIBUTE_SLOTS: u32 = 1;

/// Buffer size asked of a new pipe: zero, the default of the system.
pub const PIPE_BUFFER_DEFAULT: u32 = 0;

/// The size of the terminal that the child perceives, in character cells.
#[derive(Clone, Copy, Debug, PartialEq, Eq, Structural)]
pub struct Dimensions {
    pub columns: i16,
    pub rows: i16,
}

impl Dimensions {
    /// Both extents are positive.
    pub open spec fn valid(self) -> bool {
        self.columns > 0 && self.rows > 0
    }

    /// The dimensions of `columns` by `rows` cells, where both are positive.
    pub fn new(columns: i16, rows: i16) -> (dimensions: Option<Dimensions>)
        ensures
            dimensions == if columns > 0 && rows > 0 {
                Some(Dimensions { columns, rows })
            } else {
                None
            },
            dimensions is Some ==> dimensions->0.valid(),
    {
        if columns > 0 && rows > 0 {
            Some(Dimensions { columns, rows })
        } else {
            None
        }
    }
}

/// The two ends of a new pipe.
#[derive(Clone, Copy, Debug, PartialEq, Eq, Structural)]
pub struct PipePair {
    pub read: isize,
    pub write: isize,
}

/// How a call went that a launch asked for.
#[derive(Clone, Copy, Debug, PartialEq, Eq)]
pub enum Event {
    /// A pipe was asked for: its two ends, or nothing where the system could
    /// not allocate it.
    Pipe(Option<PipePair>),
    /// The device was asked for: the result code of the call, and the handle
    /// it stored.
    Device { hresult: i32, handle: isize },
    /// The size of the attribute list was asked for: what the call
    /// returned, and the size it stored.
    ListSize { returned: i32, size: usize },
    /// The attribute list was to be initialised: what the call returned.
    ListInit { returned: i32 },
    /// The slot was to be set to the device: what the call returned.
    Attribute { returned: i32 },
    /// The child was to be created: what the call returned, the handles it
    /// stored, and the last error code of the system after the call.
    Spawn { returned: i32, process: isize, thread: isize, last_error: u32 },
}

/// What a launch asks its driver to do next, or how it ended.
#[derive(Debug, PartialEq, Eq)]
pub enum Action {
    /// Create an anonymous pipe, with this hint for the size of its buffer.
    CreatePipe { buffer_size: u32 },
    /// Create a pseudo-console of this size that reads the child's input from
    /// `input` and writes the child's output to `output`.
    CreateDevice { columns: i16, rows: i16, input: isize, output: isize },
    /// Ask which size an attribute list with `attribute_count` slots needs.
    QueryListSize { attribute_count: u32 },
    /// Allocate `size` bytes and initialise them as an attribute list with
    /// `attribute_count` slots.
    InitList { size: usize, attribute_count: u32 },
    /// Set the slot of the list: the attribute `attribute`, with the handle
    /// of `device` as its value.
    SetAttribute { attribute: usize, device: isize },
    /// Create the child, from the command line and the working directory of
    /// the launch and with the attribute list attached. The child inherits
    /// no handle unless `inherit_handles` is set; `creation_flags` and
    /// `startup_flags` are the flags of the call and of its startup
    /// information, whose standard handles stay null.
    Spawn { inherit_handles: bool, creation_flags: u32, startup_flags: u32 },
    /// The launch succeeded: the session.
    Ready(ConptyHolder),
    /// The launch failed with `error`. What `held` lists is still owned and
    /// is to be released.
    Failed { held: Ledger, error: SessionError },
}

/// Where a launch stands: the call whose outcome it awaits, with the handles
/// that it owns meanwhile.
#[derive(Clone, Copy, Debug, PartialEq, Eq, Structural)]
pub enum Stage {
    /// Awaiting the pipe for the child's output.
    OutputPipe,
    /// Awaiting the pipe for the child's input.
    InputPipe { conout: isize, conout_device: isize },
    /// Awaiting the device.
    Device { conout: isize, conout_device: isize, conin_device: isize, conin: isize },
    /// Awaiting the size of the attribute list.
    ListSize { conout: isize, conin: isize, device: isize },
    /// Awaiting the initialised attribute list, of `size` bytes.
    ListInit { conout: isize, conin: isize, device: isize, size: usize },
    /// Awaiting the slot set to the device.
    Attribute { conout: isize, conin: isize, device: isize },
    /// Awaiting the child.
    Spawn { conout: isize, conin: isize, device: isize },
    /// Ended, in a session or in an error.
    Finished,
}

/// The ledger of a launch that owns a device and the caller's two pipe ends.
pub open spec fn bound_ledger(conout: isize, conin: isize, device: isize) -> Ledger {
    Ledger {
        device: Some(device),
        output_reader: Some(conout),
        input_writer: Some(conin),
        ..Ledger::spec_empty()
    }
}

impl Stage {
    /// The handles that the launch owns at this stage.
    pub open spec fn held(self) -> Ledger {
        match self {
            Stage::OutputPipe => Ledger::spec_empty(),
            Stage::InputPipe { conout, conout_device } => Ledger {
                output_reader: Some(conout),
                device_output: Some(conout_device),
                ..Ledger::spec_empty()
            },
            Stage::Device { conout, conout_device, conin_device, conin } => Ledger {
                output_reader: Some(conout),
                device_output: Some(conout_device),
                device_input: Some(conin_device),
                input_writer: Some(conin),
                ..Ledger::spec_empty()
            },
            Stage::ListSize { conout, conin, device } => bound_ledger(conout, conin, device),
            Stage::ListInit { conout, conin, device, size } => bound_ledger(conout, conin, device),
            Stage::Attribute { conout, conin, device } => bound_ledger(conout, conin, device),
            Stage::Spawn { conout, conin, device } => bound_ledger(conout, conin, device),
            Stage::Finished => Ledger::spec_empty(),
        }
    }

    /// The number of calls that a launch at this stage has yet to see
    /// succeed before it hands over a session.
    pub open spec fn calls_left(self) -> nat {
        match self {
            Stage::OutputPipe => 7,
            Stage::InputPipe { .. } => 6,
            Stage::Device { .. } => 5,
            Stage::ListSize { .. } => 4,
            Stage::ListInit { .. } => 3,
            Stage::Attribute { .. } => 2,
            Stage::Spawn { .. } => 1,
            Stage::Finished => 0,
        }
    }

    /// The call that the launch awaits at this stage.
    pub open spec fn request(self, dimensions: Dimensions) -> Option<Action> {
        match self {
            Stage::OutputPipe => Some(Action::CreatePipe { buffer_size: PIPE_BUFFER_DEFAULT }),
            Stage::InputPipe { .. } => Some(
                Action::CreatePipe { buffer_size: PIPE_BUFFER_DEFAULT },
            ),
            Stage::Device { conout, conout_device, conin_device, conin } => Some(
                Action::CreateDevice {
                    columns: dimensions.columns,
                    rows: dimensions.rows,
                    input: conin_device,
                    output: conout_device,
                },
            ),
            Stage::ListSize { .. } => Some(
                Action::QueryListSize { attribute_count: ATTRIBUTE_SLOTS },
            ),
            Stage::ListInit { conout, conin, device, size } => Some(
                Action::InitList { size, attribute_count: ATTRIBUTE_SLOTS },
            ),
            Stage::Attribute { conout, conin, device } => Some(
                Action::SetAttribute { attribute: PSEUDOCONSOLE_ATTRIBUTE as usize, device },
            ),
            Stage::Spawn { .. } => Some(
                Action::Spawn {
                    inherit_handles: false,
                    creation_flags: EXTENDED_STARTUP_INFO,
                    startup_flags: USE_STD_HANDLES,
                },
            ),
            Stage::Finished => None,
        }
    }
}

impl Event {
    /// The event reports on the call that `stage` awaits.
    pub open spec fn answers(self, stage: Stage) -> bool {
        match (stage, self) {
            (Stage::OutputPipe, Event::Pipe(_)) => true,
            (Stage::InputPipe { .. }, Event::Pipe(_)) => true,
            (Stage::Device { .. }, Event::Device { .. }) => true,
            (Stage::ListSize { .. }, Event::ListSize { .. }) => true,
            (Stage::ListInit { .. }, Event::ListInit { .. }) => true,
            (Stage::Attribute { .. }, Event::Attribute { .. }) => true,
            (Stage::Spawn { .. }, Event::Spawn { .. }) => true,
            _ => false,
        }
    }

    /// The call did what the launch needs of it. A boolean call succeeded
    /// where it returned more than zero; the sizing call is the exception:
    /// it is made without a buffer, only to learn the size, and is expected
    /// to return zero.
    pub open spec fn succeeded(self) -> bool {
        match self {
            Event::Pipe(ends) => ends is Some,
            Event::Device { hresult, handle } => hresult == HRESULT_OK,
            Event::ListSize { returned, size } => returned <= 0,
            Event::ListInit { returned } => returned > 0,
            Event::Attribute { returned } => returned > 0,
            Event::Spawn { returned, process, thread, last_error } => returned > 0,
        }
    }

    /// The error that the launch ends with where the call failed.
    pub open spec fn failure(self) -> SessionError {
        match self {
            Event::Pipe(_) => SessionError::ResourceExhausted,
            Event::Device { .. } => SessionError::DeviceCreationFailed,
            Event::ListSize { .. } => SessionError::AttributeListInitFailed,
            Event::ListInit { .. } => SessionError::AttributeListInitFailed,
            Event::Attribute { .. } => SessionError::AttributeListInitFailed,
            Event::Spawn { returned, process, thread, last_error } => {
                SessionError::ProcessSpawnFailed(last_error)
            },
        }
    }
}

/// The stage that follows `stage` once `event` has reported the success of
/// the call that `stage` awaited.
pub open spec fn advance(stage: Stage, event: Event) -> Stage {
    match (stage, event) {
        (Stage::OutputPipe, Event::Pipe(Some(ends))) => Stage::InputPipe {
            conout: ends.read,
            conout_device: ends.write,
        },
        (Stage::InputPipe { conout, conout_device }, Event::Pipe(Some(ends))) => Stage::Device {
            conout,
            conout_device,
            conin_device: ends.read,
            conin: ends.write,
        },
        (
            Stage::Device { conout, conout_device, conin_device, conin },
            Event::Device { hresult, handle },
        ) => Stage::ListSize { conout, conin, device: handle },
        (Stage::ListSize { conout, conin, device }, Event::ListSize { returned, size }) => {
            Stage::ListInit { conout, conin, device, size }
        },
        (Stage::ListInit { conout, conin, device, size }, Event::ListInit { .. }) => {
            Stage::Attribute { conout, conin, device }
        },
        (Stage::Attribute { conout, conin, device }, Event::Attribute { .. }) => Stage::Spawn {
            conout,
            conin,
            device,
        },
        _ => Stage::Finished,
    }
}

/// The session that a launch hands over when `event` reports that the child
/// was created.
pub open spec fn established(stage: Stage, event: Event) -> Option<ConptyHolder> {
    match (stage, event) {
        (
            Stage::Spawn { conout, conin, device },
            Event::Spawn { returned, process, thread, last_error },
        ) => Some(ConptyHolder { conpty: Conpty { handle: device }, conout, conin, process, thread }),
        _ => None,
    }
}

/// One step of a launch: the stage that follows, and the answer to the
/// driver.
///
/// An event that does not report on the awaited call changes nothing and
/// gets no answer. A call that failed ends the launch with its error and
/// with what the launch owned. A call that succeeded leads to the next
/// call, and the last one to the session.
pub open spec fn transition(stage: Stage, dimensions: Dimensions, event: Event) -> (
    Stage,
    Option<Action>,
) {
    if !event.answers(stage) {
        (stage, None)
    } else if !event.succeeded() {
        (Stage::Finished, Some(Action::Failed { held: stage.held(), error: event.failure() }))
    } else {
        match established(stage, event) {
            Some(session) => (Stage::Finished, Some(Action::Ready(session))),
            None => (advance(stage, event), advance(stage, event).request(dimensions)),
        }
    }
}

/// A launch in progress.
#[derive(Debug, PartialEq, Eq)]
pub struct Launch {
    /// Where the launch stands.
    pub stage: Stage,
    /// The size of the terminal to create.
    pub dimensions: Dimensions,
    /// The command line of the child, as the operating system takes it.
    pub command_line: Vec<u16>,
    /// The working directory of the child, as the operating system takes
    /// it; without one the child starts in that of its parent.
    pub working_dir: Option<Vec<u16>>,
}

/// Begins the launch of `command_line` in a terminal of `dimensions`,
/// started in `working_dir`. Nothing has been acquired yet: the launch
/// awaits its first pipe, and the action returned asks for it.
pub fn new(dimensions: Dimensions, command_line: &str, working_dir: Option<&str>) -> (begun: (
    Launch,
    Action,
))
    requires
        dimensions.valid(),
    ensures
        begun.0.stage == Stage::OutputPipe,
        begun.0.dimensions == dimensions,
        begun.0.command_line@ == wide(command_line@),
        match working_dir {
            Some(dir) => begun.0.working_dir is Some && begun.0.working_dir->0@ == wide(dir@),
            None => begun.0.working_dir is None,
        },
        Some(begun.1) == Stage::OutputPipe.request(dimensions),
{
    let working_dir = match working_dir {
        Some(dir) => Some(win32_string(dir)),
        None => None,
    };
    let launch = Launch {
        stage: Stage::OutputPipe,
        dimensions,
        command_line: win32_string(command_line),
        working_dir,
    };
    (launch, Action::CreatePipe { buffer_size: PIPE_BUFFER_DEFAULT })
}

impl Launch {
    /// Takes in how the awaited call went and answers with what is to be
    /// done next, as `transition` lays down. The command line, the working
    /// directory and the dimensions of the launch stay as they are.
    pub fn step(&mut self, event: Event) -> (answer: Option<Action>)
        ensures
            (final(self).stage, answer) == transition(old(self).stage, old(self).dimensions, event),
            final(self).dimensions == old(self).dimensions,
            final(self).command_line == old(self).command_line,
            final(self).working_dir == old(self).working_dir,
            answer is Some <==> event.answers(old(self).stage),
    {
        let dimensions = self.dimensions;
        match (self.stage, event) {
            (Stage::OutputPipe, Event::Pipe(ends)) => match ends {
                Some(ends) => {
                    self.stage = Stage::InputPipe { conout: ends.read, conout_device: ends.write };
                    Some(Action::CreatePipe { buffer_size: PIPE_BUFFER_DEFAULT })
                },
                None => {
                    self.stage = Stage::Finished;
                    Some(
                        Action::Failed {
                            held: Ledger::empty(),
                            error: SessionError::ResourceExhausted,
                        },
                    )
                },
            },
            (Stage::InputPipe { conout, conout_device }, Event::Pipe(ends)) => match ends {
                Some(ends) => {
                    self.stage = Stage::Device {
                        conout,
                        conout_device,
                        conin_device: ends.read,
                        conin: ends.write,
                    };
                    Some(
                        Action::CreateDevice {
                            columns: dimensions.columns,
                            rows: dimensions.rows,
                            input: ends.read,
                            output: conout_device,
                        },
                    )
                },
                None => {
                    let mut held = Ledger::empty();
                    held.output_reader = Some(conout);
                    held.device_output = Some(conout_device);
                    self.stage = Stage::Finished;
                    Some(Action::Failed { held, error: SessionError::ResourceExhausted })
                },
            },
            (
                Stage::Device { conout, conout_device, conin_device, conin },
                Event::Device { hresult, handle },
            ) => match Conpty::create(hresult, handle) {
                Ok(device) => {
                    self.stage = Stage::ListSize { conout, conin, device: device.handle };
                    Some(Action::QueryListSize { attribute_count: ATTRIBUTE_SLOTS })
                },
                Err(error) => {
                    let mut held = Ledger::empty();
                    held.output_reader = Some(conout);
                    held.device_output = Some(conout_device);
                    held.device_input = Some(conin_device);
                    held.input_writer = Some(conin);
                    self.stage = Stage::Finished;
                    Some(Action::Failed { held, error })
                },
            },
            (Stage::ListSize { conout, conin, device }, Event::ListSize { returned, size }) => {
                if returned > 0 {
                    self.stage = Stage::Finished;
                    Some(attribute_list_failed(conout, conin, device))
                } else {
                    self.stage = Stage::ListInit { conout, conin, device, size };
                    Some(Action::InitList { size, attribute_count: ATTRIBUTE_SLOTS })
                }
            },
            (Stage::ListInit { conout, conin, device, size }, Event::ListInit { returned }) => {
                if returned > 0 {
                    self.stage = Stage::Attribute { conout, conin, device };
                    Some(
                        Action::SetAttribute {
                            attribute: proc_thread_attribute_pseudoconsole() as usize,
                            device,
                        },
                    )
                } else {
                    self.stage = Stage::Finished;
                    Some(attribute_list_failed(conout, conin, device))
                }
            },
            (Stage::Attribute { conout, conin, device }, Event::Attribute { returned }) => {
                if returned > 0 {
                    self.stage = Stage::Spawn { conout, conin, device };
                    Some(
                        Action::Spawn {
                            inherit_handles: false,
                            creation_flags: extended_startupinfo_present(),
                            startup_flags: startf_usestdhandles(),
                        },
                    )
                } else {
                    self.stage = Stage::Finished;
                    Some(attribute_list_failed(conout, conin, device))
                }
            },
            (
                Stage::Spawn { conout, conin, device },
                Event::Spawn { returned, process, thread, last_error },
            ) => {
                self.stage = Stage::Finished;
                if returned > 0 {
                    Some(
                        Action::Ready(
                            ConptyHolder {
                                conpty: Conpty { handle: device },
                                conout,
                                conin,
                                process,
                                thread,
                            },
                        ),
                    )
                } else {
                    Some(
                        Action::Failed {
                            held: bound(conout, conin, device),
                            error: panic_shell_spawn(last_error),
                        },
                    )
                }
            },
            _ => None,
        }
    }
}

/// A launch cannot stall. Every event that reports on the awaited call is
/// answered, and brings the launch to its end or one call nearer to it: at
/// the latest the seventh such event ends it.
pub proof fn lemma_launch_progresses(stage: Stage, dimensions: Dimensions, event: Event)
    requires
        event.answers(stage),
    ensures
        transition(stage, dimensions, event).1 is Some,
        transition(stage, dimensions, event).0.calls_left() < stage.calls_left() <= 7,
        transition(stage, dimensions, event).0 == Stage::Finished <==> matches!(
            transition(stage, dimensions, event).1,
            Some(Action::Ready(_)) | Some(Action::Failed { .. })
        ),
{
}

/// The calls of a launch come in one order: each is asked for only in
/// answer to the success of the one before it. So the attribute list is
/// sized before it is initialised, initialised before its slot is set, and
/// complete before the child is created from it; and a session is handed
/// over only when the child was.
pub proof fn lemma_calls_in_order(stage: Stage, dimensions: Dimensions, event: Event)
    requires
        event.answers(stage),
        event.succeeded(),
    ensures
        transition(stage, dimensions, event).0.calls_left() == stage.calls_left() - 1,
        match transition(stage, dimensions, event).1 {
            Some(Action::CreatePipe { .. }) => stage is OutputPipe,
            Some(Action::CreateDevice { .. }) => stage is InputPipe,
            Some(Action::QueryListSize { .. }) => stage is Device,
            Some(Action::InitList { .. }) => stage is ListSize,
            Some(Action::SetAttribute { .. }) => stage is ListInit,
            Some(Action::Spawn { .. }) => stage is Attribute,
            Some(Action::Ready(_)) => stage is Spawn,
            _ => false,
        },
{
}

/// The ledger of a launch that owns a device and the caller's two pipe ends.
fn bound(conout: isize, conin: isize, device: isize) -> (held: Ledger)
    ensures
        held == bound_ledger(conout, conin, device),
{
    let mut held = Ledger::empty();
    held.device = Some(device);
    held.output_reader = Some(conout);
    held.input_writer = Some(conin);
    held
}

/// The end of a launch whose attribute list could not be built: the device
/// and the caller's pipe ends are still owned.
fn attribute_list_failed(conout: isize, conin: isize, device: isize) -> (answer: Action)
    ensures
        answer == (Action::Failed {
            held: bound_ledger(conout, conin, device),
            error: SessionError::AttributeListInitFailed,
        }),
{
    Action::Failed {
        held: bound(conout, conin, device),
        error: SessionError::AttributeListInitFailed,
    }
}

} // verus!
