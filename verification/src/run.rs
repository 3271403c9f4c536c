//! Whole launches: what holds of every sequence of outcomes that a driver
//! can report.
//!
//! The handles of a launch are accounted for from outside: `owned` follows
//! what the operating system handed out and took over, event by event,
//! without looking at the books of the launch. The laws below say that the
//! two agree whenever a launch ends.

use crate::error::SessionError;
use crate::launch::{transition, Action, Dimensions, Event, PipePair, Stage};
use crate::ledger::{lemma_plan_settles, Fault, Ledger};
use crate::platform::HRESULT_OK;
use crate::session::{Conpty, ConptyHolder};
use vstd::multiset::Multiset;
use vstd::prelude::*;

verus! {

/// The stage of a launch that has taken in `events`, one after the other,
/// since it began, and its answer to the last of them.
pub open spec fn run(dimensions: Dimensions, events: Seq<Event>) -> (Stage, Option<Action>)
    decreases events.len(),
{
    if events.len() == 0 {
        (Stage::OutputPipe, Stage::OutputPipe.request(dimensions))
    } else {
        transition(run(dimensions, events.drop_last()).0, dimensions, events.last())
    }
}

/// Two handles.
pub open spec fn pair(first: isize, second: isize) -> Multiset<isize> {
    Multiset::singleton(first).add(Multiset::singleton(second))
}

/// The handles that the operating system handed out in the call on which
/// `event` reports.
pub open spec fn granted(event: Event) -> Multiset<isize> {
    match event {
        Event::Pipe(Some(ends)) => pair(ends.read, ends.write),
        Event::Device { hresult, handle } => if hresult == HRESULT_OK {
            Multiset::singleton(handle)
        } else {
            Multiset::empty()
        },
        Event::Spawn { returned, process, thread, last_error } => if returned > 0 {
            pair(process, thread)
        } else {
            Multiset::empty()
        },
        _ => Multiset::empty(),
    }
}

/// The handles that the caller no longer owns once `request` has been
/// performed with the outcome `event`: a device that was created owns the
/// two pipe ends it was bound to.
pub open spec fn surrendered(request: Option<Action>, event: Event) -> Multiset<isize> {
    match (request, event) {
        (
            Some(Action::CreateDevice { columns, rows, input, output }),
            Event::Device { hresult, handle },
        ) => if hresult == HRESULT_OK {
            pair(input, output)
        } else {
            Multiset::empty()
        },
        _ => Multiset::empty(),
    }
}

/// The handles that the caller owns after a launch has taken in `events`:
/// every handle handed out in a call that the launch asked for, less those
/// that a device took over.
pub open spec fn owned(dimensions: Dimensions, events: Seq<Event>) -> Multiset<isize>
    decreases events.len(),
{
    if events.len() == 0 {
        Multiset::empty()
    } else {
        let before = owned(dimensions, events.drop_last());
        let stage = run(dimensions, events.drop_last()).0;
        if events.last().answers(stage) {
            before.add(granted(events.last())).sub(
                surrendered(stage.request(dimensions), events.last()),
            )
        } else {
            before
        }
    }
}

/// Every handle that some event of `events` names as handed out.
pub open spec fn reported(events: Seq<Event>) -> Set<isize> {
    Set::new(
        |handle: isize|
            exists|at: int| 0 <= at < events.len() && #[trigger] granted(events[at]).contains(handle),
    )
}

/// The session of an answer that ends a launch in success.
pub open spec fn session_of(answer: Option<Action>) -> Option<ConptyHolder> {
    match answer {
        Some(Action::Ready(session)) => Some(session),
        _ => None,
    }
}

/// While a launch is under way its books are right: it holds what the
/// caller owns, and never a device without the read end that drains it.
/// When it ends, what it hands over is what the caller owns.
proof fn lemma_run_accounts(dimensions: Dimensions, events: Seq<Event>)
    ensures
        run(dimensions, events).0 != Stage::Finished ==> run(dimensions, events).0.held().handles()
            == owned(dimensions, events),
        match run(dimensions, events).1 {
            Some(Action::Ready(session)) => session.spec_ledger().handles() == owned(
                dimensions,
                events,
            ),
            Some(Action::Failed { held, error }) => held.handles() == owned(dimensions, events)
                && held.sound() && error != SessionError::IoFailure,
            _ => true,
        },
    decreases events.len(),
{
    if events.len() == 0 {
        assert(Stage::OutputPipe.held().handles() =~= Multiset::empty());
    } else {
        let before = events.drop_last();
        let event = events.last();
        let stage = run(dimensions, before).0;
        lemma_run_accounts(dimensions, before);
        if event.answers(stage) {
            let was = owned(dimensions, before);
            let now = owned(dimensions, events);
            assert(now == was.add(granted(event)).sub(
                surrendered(stage.request(dimensions), event),
            ));
            let (next, answer) = transition(stage, dimensions, event);
            match answer {
                Some(Action::Ready(session)) => {
                    assert(session.spec_ledger().handles() =~= now);
                },
                Some(Action::Failed { held, error }) => {
                    assert(held.handles() =~= now);
                },
                _ => {
                    assert(next.held().handles() =~= now);
                },
            }
        }
    }
}

/// A launch ends in one of two ways, whatever its driver reports.
///
/// Either it hands over a session, which owns a device, both pipe ends and
/// the child: exactly the handles that the caller owns by then. Or it fails
/// with one of the errors of construction, and hands over exactly the handles
/// that the caller owns by then; their release plan goes through and leaves
/// nothing owned, so no handle leaks.
pub proof fn lemma_launch_outcome(dimensions: Dimensions, events: Seq<Event>)
    requires
        dimensions.valid(),
    ensures
        match run(dimensions, events).1 {
            Some(Action::Ready(session)) => {
                &&& run(dimensions, events).0 == Stage::Finished
                &&& session.spec_ledger().handles() == owned(dimensions, events)
                &&& session.spec_ledger().outcome_of(session.teardown_order()) == Ok::<
                    Ledger,
                    Fault,
                >(Ledger::spec_empty())
            },
            Some(Action::Failed { held, error }) => {
                &&& run(dimensions, events).0 == Stage::Finished
                &&& held.handles() == owned(dimensions, events)
                &&& held.outcome_of(held.plan()) == Ok::<Ledger, Fault>(Ledger::spec_empty())
                &&& error == SessionError::ResourceExhausted || error
                    == SessionError::DeviceCreationFailed || error
                    == SessionError::AttributeListInitFailed
                    || error is ProcessSpawnFailed
            },
            _ => true,
        },
{
    lemma_run_accounts(dimensions, events);
    match run(dimensions, events).1 {
        Some(Action::Ready(session)) => {
            crate::session::lemma_teardown_completes(session);
        },
        Some(Action::Failed { held, error }) => {
            lemma_plan_settles(held);
        },
        _ => {},
    }
}

/// A launch whose seven calls all succeed hands over a session: the device
/// that was created, the read end of the first pipe, the write end of the
/// second, and the child that process creation reported.
pub proof fn lemma_launch_succeeds(
    dimensions: Dimensions,
    output: PipePair,
    input: PipePair,
    device: isize,
    size: usize,
    process: isize,
    thread: isize,
    last_error: u32,
)
    ensures
        run(
            dimensions,
            seq![
                Event::Pipe(Some(output)),
                Event::Pipe(Some(input)),
                Event::Device { hresult: HRESULT_OK, handle: device },
                Event::ListSize { returned: 0, size },
                Event::ListInit { returned: 1 },
                Event::Attribute { returned: 1 },
                Event::Spawn { returned: 1, process, thread, last_error },
            ],
        ) == (
            Stage::Finished,
            Some(
                Action::Ready(
                    ConptyHolder {
                        conpty: Conpty { handle: device },
                        conout: output.read,
                        conin: input.write,
                        process,
                        thread,
                    },
                ),
            ),
        ),
{
    let e1 = Event::Pipe(Some(output));
    let e2 = Event::Pipe(Some(input));
    let e3 = Event::Device { hresult: HRESULT_OK, handle: device };
    let e4 = Event::ListSize { returned: 0, size };
    let e5 = Event::ListInit { returned: 1 };
    let e6 = Event::Attribute { returned: 1 };
    let e7 = Event::Spawn { returned: 1, process, thread, last_error };
    assert(seq![e1].drop_last() =~= Seq::<Event>::empty());
    assert(seq![e1, e2].drop_last() =~= seq![e1]);
    assert(seq![e1, e2, e3].drop_last() =~= seq![e1, e2]);
    assert(seq![e1, e2, e3, e4].drop_last() =~= seq![e1, e2, e3]);
    assert(seq![e1, e2, e3, e4, e5].drop_last() =~= seq![e1, e2, e3, e4]);
    assert(seq![e1, e2, e3, e4, e5, e6].drop_last() =~= seq![e1, e2, e3, e4, e5]);
    assert(seq![e1, e2, e3, e4, e5, e6, e7].drop_last() =~= seq![e1, e2, e3, e4, e5, e6]);
    assert(run(dimensions, Seq::<Event>::empty()).0 == Stage::OutputPipe);
    assert(run(dimensions, seq![e1]).0 == Stage::InputPipe {
        conout: output.read,
        conout_device: output.write,
    });
    assert(run(dimensions, seq![e1, e2]).0 == Stage::Device {
        conout: output.read,
        conout_device: output.write,
        conin_device: input.read,
        conin: input.write,
    });
    assert(run(dimensions, seq![e1, e2, e3]).0 == Stage::ListSize {
        conout: output.read,
        conin: input.write,
        device,
    });
    assert(run(dimensions, seq![e1, e2, e3, e4]).0 == Stage::ListInit {
        conout: output.read,
        conin: input.write,
        device,
        size,
    });
    assert(run(dimensions, seq![e1, e2, e3, e4, e5]).0 == Stage::Attribute {
        conout: output.read,
        conin: input.write,
        device,
    });
    assert(run(dimensions, seq![e1, e2, e3, e4, e5, e6]).0 == Stage::Spawn {
        conout: output.read,
        conin: input.write,
        device,
    });
}

/// What the caller owns after a launch was handed out in one of the calls
/// of that launch.
proof fn lemma_owned_was_reported(dimensions: Dimensions, events: Seq<Event>, handle: isize)
    requires
        owned(dimensions, events).contains(handle),
    ensures
        reported(events).contains(handle),
    decreases events.len(),
{
    if events.len() > 0 {
        let before = events.drop_last();
        if owned(dimensions, before).contains(handle) {
            lemma_owned_was_reported(dimensions, before, handle);
            let at = choose|at: int|
                0 <= at < before.len() && #[trigger] granted(before[at]).contains(handle);
            assert(granted(events[at]).contains(handle));
        } else {
            assert(granted(events[events.len() - 1]).contains(handle));
        }
    }
}

/// Two launches yield independent sessions: where the operating system
/// handed no handle to both of them, no handle belongs to both sessions.
pub proof fn lemma_sessions_independent(
    first: Dimensions,
    first_events: Seq<Event>,
    second: Dimensions,
    second_events: Seq<Event>,
)
    requires
        first.valid(),
        second.valid(),
        session_of(run(first, first_events).1) is Some,
        session_of(run(second, second_events).1) is Some,
        reported(first_events).disjoint(reported(second_events)),
    ensures
        forall|handle: isize|
            !(#[trigger] session_of(run(first, first_events).1)->0.spec_ledger().handles().contains(
                handle,
            ) && session_of(run(second, second_events).1)->0.spec_ledger().handles().contains(
                handle,
            )),
{
    lemma_run_accounts(first, first_events);
    lemma_run_accounts(second, second_events);
    assert forall|handle: isize|
        !(#[trigger] owned(first, first_events).contains(handle) && owned(
            second,
            second_events,
        ).contains(handle)) by {
        if owned(first, first_events).contains(handle) && owned(second, second_events).contains(
            handle,
        ) {
            lemma_owned_was_reported(first, first_events, handle);
            lemma_owned_was_reported(second, second_events, handle);
        }
    }
}

} // verus!
