//! The order in which a recording is set up, and what ends it.
//!
//! Setting up a recording is a conversation with the audio graph and the file
//! system: open a session, register the two inputs, list the outputs, create
//! the file, activate the capture callback, wire the two sources, and from
//! then on flush once per interval. The caller does each of these and reports
//! what happened; [`step`] decides what comes next. Every failure ends the
//! run, and nothing is asked of a file or a callback before exactly two
//! outputs were found.

use vstd::prelude::*;
use crate::error::RecordError;
use crate::ports::Channel;

verus! {

/// Seconds that the flusher sleeps before each flush.
pub const FLUSH_INTERVAL_SECS: u64 = 1;

/// How far the set-up has come. Each stage but the last two waits for the
/// answer to the one request that its name says.
#[derive(Clone, Copy, Debug, PartialEq, Eq, Structural)]
pub enum Stage {
    /// Nothing was asked yet.
    Idle,
    /// The session is being opened.
    Opening,
    /// The input port of the channel is being registered.
    Registering(Channel),
    /// The output ports of the graph are being listed.
    Discovering,
    /// The container is being created.
    CreatingFile,
    /// The capture callback is being activated.
    Activating,
    /// The source of the channel is being wired to its input.
    Connecting(Channel),
    /// The recording runs: the callback appends, the flusher flushes.
    Running,
    /// The run has ended with this error.
    Failed(RecordError),
}

/// What the caller reports.
#[derive(Clone, Copy, Debug, PartialEq, Eq, Structural)]
pub enum Event {
    /// The program has started.
    Start,
    /// The audio graph opened the session, with these status flags.
    SessionOpened { status: u32 },
    /// The audio graph could not be reached.
    SessionRefused,
    /// The input port was registered.
    InputRegistered,
    /// The audio graph rejected the input port.
    InputRejected,
    /// The audio graph listed this many output ports.
    OutputsListed { count: usize },
    /// The container was created.
    FileCreated,
    /// The container could not be created.
    FileRefused,
    /// The capture callback is active.
    Activated,
    /// The audio graph did not activate the session.
    ActivationRefused,
    /// The source was wired to its input.
    PortConnected,
    /// The audio graph refused the connection.
    PortRefused,
    /// The container was flushed.
    Flushed,
    /// The container could not be flushed.
    FlushFailed,
    /// The lock around the container is unusable.
    LockPoisoned,
}

/// What the caller is to do next.
#[derive(Clone, Copy, Debug, PartialEq, Eq, Structural)]
pub enum Action {
    /// Open the session, without starting the audio service if it is absent.
    OpenSession,
    /// Register the input port of the channel.
    RegisterInput(Channel),
    /// List the output ports of the graph.
    ListOutputs,
    /// Create the container.
    CreateFile,
    /// Activate the session with the capture callback.
    Activate,
    /// Wire the source of the channel to its input port.
    ConnectPort(Channel),
    /// Sleep for the flush interval, then flush the container.
    SleepThenFlush,
    /// Report the error and end the process.
    Abort(RecordError),
}

/// The stage and the action that follow the report of a failure.
pub open spec fn fail(e: RecordError) -> Option<(Stage, Action)> {
    Some((Stage::Failed(e), Action::Abort(e)))
}

/// The transition table: what follows `event` at `stage`, or `None` where the
/// event is no answer to what the stage waits for.
pub open spec fn next(stage: Stage, event: Event) -> Option<(Stage, Action)> {
    match (stage, event) {
        (Stage::Idle, Event::Start) => Some((Stage::Opening, Action::OpenSession)),
        (Stage::Opening, Event::SessionOpened { status }) => if status == 0 {
            Some((Stage::Registering(Channel::Left), Action::RegisterInput(Channel::Left)))
        } else {
            fail(RecordError::Connection)
        },
        (Stage::Opening, Event::SessionRefused) => fail(RecordError::Connection),
        (Stage::Registering(Channel::Left), Event::InputRegistered) => Some(
            (Stage::Registering(Channel::Right), Action::RegisterInput(Channel::Right)),
        ),
        (Stage::Registering(Channel::Right), Event::InputRegistered) => Some(
            (Stage::Discovering, Action::ListOutputs),
        ),
        (Stage::Registering(_), Event::InputRejected) => fail(RecordError::PortRegistration),
        (Stage::Discovering, Event::OutputsListed { count }) => if count == 2 {
            Some((Stage::CreatingFile, Action::CreateFile))
        } else {
            fail(RecordError::NoOutputPorts)
        },
        (Stage::CreatingFile, Event::FileCreated) => Some((Stage::Activating, Action::Activate)),
        (Stage::CreatingFile, Event::FileRefused) => fail(RecordError::FileCreation),
        (Stage::Activating, Event::Activated) => Some(
            (Stage::Connecting(Channel::Left), Action::ConnectPort(Channel::Left)),
        ),
        (Stage::Activating, Event::ActivationRefused) => fail(RecordError::Connection),
        (Stage::Connecting(Channel::Left), Event::PortConnected) => Some(
            (Stage::Connecting(Channel::Right), Action::ConnectPort(Channel::Right)),
        ),
        (Stage::Connecting(Channel::Right), Event::PortConnected) => Some(
            (Stage::Running, Action::SleepThenFlush),
        ),
        (Stage::Connecting(_), Event::PortRefused) => fail(RecordError::PortConnection),
        (Stage::Running, Event::Flushed) => Some((Stage::Running, Action::SleepThenFlush)),
        (Stage::Running, Event::FlushFailed) => fail(RecordError::Flush),
        (Stage::Running, Event::LockPoisoned) => fail(RecordError::Lock),
        _ => None,
    }
}

/// Whether the capture callback is active at this stage.
pub open spec fn capturing(stage: Stage) -> bool {
    stage is Connecting || stage is Running
}

/// The stage reached from `stage` by the events in turn, and the actions
/// asked for on the way. The run stops at the first event that is no answer to
/// what the stage waits for.
pub open spec fn run(stage: Stage, events: Seq<Event>) -> (Stage, Seq<Action>)
    decreases events.len(),
{
    if events.len() == 0 {
        (stage, Seq::empty())
    } else {
        match next(stage, events[0]) {
            None => (stage, Seq::empty()),
            Some((then, action)) => {
                let (end, rest) = run(then, events.drop_first());
                (end, seq![action] + rest)
            },
        }
    }
}

/// Decides what follows `event` at `stage`. `None` means that the event is no
/// answer to what the stage waits for; the stage then stays as it is.
pub fn step(stage: Stage, event: Event) -> (r: Option<(Stage, Action)>)
    ensures
        r == next(stage, event),
{
    match stage {
        Stage::Idle => match event {
            Event::Start => Some((Stage::Opening, Action::OpenSession)),
            _ => None,
        },
        Stage::Opening => match event {
            Event::SessionOpened { status } => {
                if status == 0 {
                    Some((Stage::Registering(Channel::Left), Action::RegisterInput(Channel::Left)))
                } else {
                    Some(failure(RecordError::Connection))
                }
            },
            Event::SessionRefused => Some(failure(RecordError::Connection)),
            _ => None,
        },
        Stage::Registering(channel) => match event {
            Event::InputRegistered => match channel {
                Channel::Left => Some(
                    (Stage::Registering(Channel::Right), Action::RegisterInput(Channel::Right)),
                ),
                Channel::Right => Some((Stage::Discovering, Action::ListOutputs)),
            },
            Event::InputRejected => Some(failure(RecordError::PortRegistration)),
            _ => None,
        },
        Stage::Discovering => match event {
            Event::OutputsListed { count } => {
                if count == 2 {
                    Some((Stage::CreatingFile, Action::CreateFile))
                } else {
                    Some(failure(RecordError::NoOutputPorts))
                }
            },
            _ => None,
        },
        Stage::CreatingFile => match event {
            Event::FileCreated => Some((Stage::Activating, Action::Activate)),
            Event::FileRefused => Some(failure(RecordError::FileCreation)),
            _ => None,
        },
        Stage::Activating => match event {
            Event::Activated => Some(
                (Stage::Connecting(Channel::Left), Action::ConnectPort(Channel::Left)),
            ),
            Event::ActivationRefused => Some(failure(RecordError::Connection)),
            _ => None,
        },
        Stage::Connecting(channel) => match event {
            Event::PortConnected => match channel {
                Channel::Left => Some(
                    (Stage::Connecting(Channel::Right), Action::ConnectPort(Channel::Right)),
                ),
                Channel::Right => Some((Stage::Running, Action::SleepThenFlush)),
            },
            Event::PortRefused => Some(failure(RecordError::PortConnection)),
            _ => None,
        },
        Stage::Running => match event {
            Event::Flushed => Some((Stage::Running, Action::SleepThenFlush)),
            Event::FlushFailed => Some(failure(RecordError::Flush)),
            Event::LockPoisoned => Some(failure(RecordError::Lock)),
            _ => None,
        },
        Stage::Failed(_) => None,
    }
}

/// The stage and the action of a failure.
fn failure(e: RecordError) -> (r: (Stage, Action))
    ensures
        Some(r) == fail(e),
{
    (Stage::Failed(e), Action::Abort(e))
}

/// Tells whether the capture callback is active at this stage.
pub fn is_capturing(stage: Stage) -> (yes: bool)
    ensures
        yes == capturing(stage),
{
    match stage {
        Stage::Connecting(_) => true,
        Stage::Running => true,
        _ => false,
    }
}

/// A failure is final: no event leads on from it.
pub proof fn lemma_failure_is_final(e: RecordError, event: Event)
    ensures
        next(Stage::Failed(e), event) is None,
{
}

/// An error is only ever reported together with the stage that holds it.
pub proof fn lemma_abort_means_failed(stage: Stage, event: Event)
    ensures
        match next(stage, event) {
            Some((then, Action::Abort(e))) => then == Stage::Failed(e),
            Some((then, _)) => !(then is Failed),
            None => true,
        },
{
}

/// A listing of any number of outputs but two, when it is the answer that the
/// stage waits for, ends the run with `NoOutputPorts`.
pub proof fn lemma_wrong_output_count_fails(stage: Stage, count: usize)
    requires
        count != 2,
    ensures
        next(stage, Event::OutputsListed { count }) == if stage == Stage::Discovering {
            fail(RecordError::NoOutputPorts)
        } else {
            None
        },
{
}

/// Stages at which the outputs have not been listed yet.
pub open spec fn before_discovery(stage: Stage) -> bool {
    stage is Idle || stage is Opening || stage is Registering || stage is Discovering
}

/// In a run that starts before the outputs were listed, each event is answered
/// by one action, and the request to create the file or to activate the
/// callback has a listing of exactly two outputs at or before it.
pub proof fn lemma_two_outputs_come_first(stage: Stage, events: Seq<Event>, i: int)
    requires
        before_discovery(stage),
        0 <= i < run(stage, events).1.len(),
        run(stage, events).1[i] == Action::CreateFile || run(stage, events).1[i]
            == Action::Activate,
    ensures
        exists|j: int|
            0 <= j <= i && j < events.len() && events[j] == (Event::OutputsListed { count: 2 }),
    decreases events.len(),
{
    if events.len() > 0 {
        match next(stage, events[0]) {
            None => {},
            Some((then, action)) => {
                let rest = run(then, events.drop_first()).1;
                assert(run(stage, events).1 =~= seq![action] + rest);
                if events[0] == (Event::OutputsListed { count: 2 }) {
                    assert(0 <= 0 <= i && events[0] == (Event::OutputsListed { count: 2 }));
                } else if i == 0 {
                    assert(run(stage, events).1[0] == action);
                } else {
                    assert(run(stage, events).1[i] == rest[i - 1]);
                    if before_discovery(then) {
                        lemma_two_outputs_come_first(then, events.drop_first(), i - 1);
                        let j = choose|j: int|
                            0 <= j <= i - 1 && j < events.drop_first().len()
                                && events.drop_first()[j] == (Event::OutputsListed { count: 2 });
                        assert(events[j + 1] == events.drop_first()[j]);
                    } else {
                        lemma_run_of_failed(then, events.drop_first());
                    }
                }
            },
        }
    }
}

/// Nothing is asked for after a failure.
pub proof fn lemma_run_of_failed(stage: Stage, events: Seq<Event>)
    requires
        stage is Failed,
    ensures
        run(stage, events) == (stage, Seq::<Action>::empty()),
{
}

/// A run asks for at most one action per event.
pub proof fn lemma_run_length(stage: Stage, events: Seq<Event>)
    ensures
        run(stage, events).1.len() <= events.len(),
    decreases events.len(),
{
    if events.len() > 0 {
        match next(stage, events[0]) {
            None => {},
            Some((then, action)) => {
                lemma_run_length(then, events.drop_first());
            },
        }
    }
}

/// Once the outputs were listed, no later listing is an answer to anything:
/// every event that a run from such a stage answers is something else.
pub proof fn lemma_listing_is_asked_once(stage: Stage, events: Seq<Event>, k: int)
    requires
        !before_discovery(stage),
        0 <= k < run(stage, events).1.len(),
    ensures
        !(events[k] is OutputsListed),
    decreases events.len(),
{
    lemma_run_length(stage, events);
    if events.len() > 0 {
        match next(stage, events[0]) {
            None => {},
            Some((then, action)) => {
                let rest = run(then, events.drop_first()).1;
                assert(run(stage, events).1 =~= seq![action] + rest);
                if k > 0 {
                    lemma_listing_is_asked_once(then, events.drop_first(), k - 1);
                    assert(events[k] == events.drop_first()[k - 1]);
                }
            },
        }
    }
}

/// A listing of any number of outputs but two ends the run on the spot:
/// the stage is `Failed(NoOutputPorts)`, the abort is the last action, and
/// neither the creation of the file nor the activation of the callback is
/// among the actions of the run.
pub proof fn lemma_wrong_output_count_ends_run(
    stage: Stage,
    events: Seq<Event>,
    k: int,
    count: usize,
)
    requires
        before_discovery(stage),
        0 <= k < run(stage, events).1.len(),
        events[k] == (Event::OutputsListed { count }),
        count != 2,
    ensures
        run(stage, events).0 == Stage::Failed(RecordError::NoOutputPorts),
        run(stage, events).1.len() == k + 1,
        run(stage, events).1[k] == Action::Abort(RecordError::NoOutputPorts),
        forall|i: int|
            0 <= i < run(stage, events).1.len() ==> #[trigger] run(stage, events).1[i]
                != Action::CreateFile && run(stage, events).1[i] != Action::Activate,
    decreases events.len(),
{
    lemma_run_length(stage, events);
    if events.len() > 0 {
        match next(stage, events[0]) {
            None => {},
            Some((then, action)) => {
                let tail = events.drop_first();
                let rest = run(then, tail).1;
                assert(run(stage, events).1 =~= seq![action] + rest);
                if k == 0 {
                    lemma_run_of_failed(then, tail);
                } else if before_discovery(then) {
                    assert(tail[k - 1] == events[k]);
                    lemma_wrong_output_count_ends_run(then, tail, k - 1, count);
                    let actions = run(stage, events).1;
                    assert forall|i: int| 0 <= i < actions.len() implies #[trigger] actions[i]
                        != Action::CreateFile && actions[i] != Action::Activate by {
                        if i > 0 {
                            assert(actions[i] == rest[i - 1]);
                        }
                    }
                } else {
                    assert(tail[k - 1] == events[k]);
                    lemma_listing_is_asked_once(then, tail, k - 1);
                }
            },
        }
    }
}

/// Whatever is reported after the start of the program, no file is created and
/// no callback is activated unless exactly two outputs were listed before.
pub proof fn lemma_no_file_without_two_outputs(events: Seq<Event>, i: int)
    requires
        0 <= i < run(Stage::Idle, events).1.len(),
        run(Stage::Idle, events).1[i] == Action::CreateFile || run(Stage::Idle, events).1[i]
            == Action::Activate,
    ensures
        exists|j: int|
            0 <= j <= i && j < events.len() && events[j] == (Event::OutputsListed { count: 2 }),
{
    lemma_two_outputs_come_first(Stage::Idle, events, i);
}

} // verus!
