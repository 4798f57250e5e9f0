//! The order in which a port is taken down: multiplexer, server, client,
//! registry. Any other order risks waiting forever on a stream that nobody
//! closes.

use vstd::prelude::*;

verus! {

/// Longest wait for a free call slot in a release build, in milliseconds.
pub const CALL_SLOT_TIMEOUT_MS: u64 = 50;

/// Wait for a free call slot in a debug build, in milliseconds: long enough
/// to bring a deadlock to light.
pub const CALL_SLOT_TIMEOUT_DEBUG_MS: u64 = 1_000_000;

/// Longest wait for the client's response task to end, in milliseconds.
pub const CLIENT_SHUTDOWN_TIMEOUT_MS: u64 = 100;

/// Longest wait for the server's tasks to end, in milliseconds.
pub const SERVER_SHUTDOWN_TIMEOUT_MS: u64 = 500;

/// A part of a port that is shut down by itself.
#[derive(Clone, Copy, Debug, PartialEq, Eq, Structural)]
pub enum Component {
    Multiplexer,
    Server,
    Client,
    Registry,
}

/// How far the teardown of a port has come.
#[derive(Clone, Copy, Debug, PartialEq, Eq, Structural)]
pub enum Stage {
    /// Nothing is shut down.
    Running,
    /// The multiplexer is shut down.
    MultiplexerDown,
    /// The server is shut down too.
    ServerDown,
    /// The client is shut down too.
    ClientDown,
    /// All four are shut down.
    Closed,
}

/// Why a shutdown step failed. Each of these is a misuse of the port.
#[derive(Clone, Copy, Debug, PartialEq, Eq, Structural)]
pub enum ShutdownError {
    /// The component is not the next one in the order.
    OutOfOrder,
    /// The component's task did not end in time: it waits on a stream that
    /// was not closed.
    TimedOut,
    /// The component's task ended without saying so.
    TaskLost,
}

/// How waiting for something with a time limit ended.
#[derive(Debug)]
pub enum Timed<T> {
    /// It came.
    Item(T),
    /// The time ran out.
    TimedOut,
    /// The other side is gone.
    Disconnected,
}

/// The place of `c` in the order, counted from zero.
pub open spec fn spec_rank(c: Component) -> nat {
    match c {
        Component::Multiplexer => 0,
        Component::Server => 1,
        Component::Client => 2,
        Component::Registry => 3,
    }
}

/// Number of components that are shut down at `stage`.
pub open spec fn spec_done(stage: Stage) -> nat {
    match stage {
        Stage::Running => 0,
        Stage::MultiplexerDown => 1,
        Stage::ServerDown => 2,
        Stage::ClientDown => 3,
        Stage::Closed => 4,
    }
}

/// The stage at which `done` components are shut down.
pub open spec fn spec_stage(done: nat) -> Stage {
    if done == 0 {
        Stage::Running
    } else if done == 1 {
        Stage::MultiplexerDown
    } else if done == 2 {
        Stage::ServerDown
    } else if done == 3 {
        Stage::ClientDown
    } else {
        Stage::Closed
    }
}

/// Shutting `c` down at `stage`. The next component in the order moves the
/// teardown on by one. Shutting the multiplexer down again changes nothing.
/// Anything else is out of order.
pub open spec fn spec_shutdown(stage: Stage, c: Component) -> Result<Stage, ShutdownError> {
    if spec_rank(c) == spec_done(stage) {
        Ok(spec_stage(spec_done(stage) + 1))
    } else if c == Component::Multiplexer {
        Ok(stage)
    } else {
        Err(ShutdownError::OutOfOrder)
    }
}

/// The component to shut down next.
pub open spec fn spec_next(stage: Stage) -> Option<Component> {
    match stage {
        Stage::Running => Some(Component::Multiplexer),
        Stage::MultiplexerDown => Some(Component::Server),
        Stage::ServerDown => Some(Component::Client),
        Stage::ClientDown => Some(Component::Registry),
        Stage::Closed => None,
    }
}

/// What the end of a wait for a task's last word means.
pub open spec fn spec_join_outcome(event: Timed<()>) -> Result<(), ShutdownError> {
    match event {
        Timed::Item(_) => Ok(()),
        Timed::TimedOut => Err(ShutdownError::TimedOut),
        Timed::Disconnected => Err(ShutdownError::TaskLost),
    }
}

/// Whether `r` is what the end of some wait for a task's last word means.
pub open spec fn spec_is_join_outcome(r: Result<(), ShutdownError>) -> bool {
    exists|event: Timed<()>| r == #[trigger] spec_join_outcome(event)
}

/// Shuts `c` down at `stage` and gives the stage that follows.
pub fn shutdown(stage: Stage, c: Component) -> (r: Result<Stage, ShutdownError>)
    ensures
        r == spec_shutdown(stage, c),
{
    match (stage, c) {
        (Stage::Running, Component::Multiplexer) => Ok(Stage::MultiplexerDown),
        (Stage::MultiplexerDown, Component::Server) => Ok(Stage::ServerDown),
        (Stage::ServerDown, Component::Client) => Ok(Stage::ClientDown),
        (Stage::ClientDown, Component::Registry) => Ok(Stage::Closed),
        (_, Component::Multiplexer) => Ok(stage),
        _ => Err(ShutdownError::OutOfOrder),
    }
}

/// The component to shut down next, if any is left.
pub fn next_component(stage: Stage) -> (c: Option<Component>)
    ensures
        c == spec_next(stage),
{
    match stage {
        Stage::Running => Some(Component::Multiplexer),
        Stage::MultiplexerDown => Some(Component::Server),
        Stage::ServerDown => Some(Component::Client),
        Stage::ClientDown => Some(Component::Registry),
        Stage::Closed => None,
    }
}

/// What the end of a wait for a task's last word means: the word is
/// success, a timeout and a lost task are misuse.
pub fn join_outcome(event: Timed<()>) -> (r: Result<(), ShutdownError>)
    ensures
        r == spec_join_outcome(event),
{
    match event {
        Timed::Item(_) => Ok(()),
        Timed::TimedOut => Err(ShutdownError::TimedOut),
        Timed::Disconnected => Err(ShutdownError::TaskLost),
    }
}

/// Waiting for a task's last word ends in success, in a timeout or in a
/// lost task, and in nothing else: it never reports a step out of order.
pub proof fn lemma_join_outcomes(r: Result<(), ShutdownError>)
    ensures
        spec_is_join_outcome(r) <==> r != Err::<(), ShutdownError>(ShutdownError::OutOfOrder),
{
    match r {
        Ok(word) => {
            assert(word == ());
            assert(r == spec_join_outcome(Timed::<()>::Item(word)));
        },
        Err(ShutdownError::TimedOut) => {
            assert(r == spec_join_outcome(Timed::<()>::TimedOut));
        },
        Err(ShutdownError::TaskLost) => {
            assert(r == spec_join_outcome(Timed::<()>::Disconnected));
        },
        Err(ShutdownError::OutOfOrder) => {},
    }
}

/// The teardown can only go one way. A step that is accepted either is the
/// shutdown of the next component in the order and moves on by one, or is a
/// repeated shutdown of the multiplexer and changes nothing; and the next
/// component is always accepted.
pub proof fn lemma_teardown_order(stage: Stage, c: Component)
    ensures
        spec_shutdown(stage, c) matches Ok(after) ==> (spec_rank(c) == spec_done(stage)
            && spec_done(after) == spec_done(stage) + 1) || (c == Component::Multiplexer
            && spec_done(stage) >= 1 && after == stage),
        spec_next(stage) matches Some(next) ==> spec_shutdown(stage, next) is Ok && spec_rank(next)
            == spec_done(stage),
        spec_next(stage) is None <==> stage == Stage::Closed,
{
}

/// Taking the components down in the order multiplexer, server, client,
/// registry closes a running port.
pub proof fn lemma_full_teardown()
    ensures
        spec_shutdown(Stage::Running, Component::Multiplexer) == Ok::<Stage, ShutdownError>(
            Stage::MultiplexerDown,
        ),
        spec_shutdown(Stage::MultiplexerDown, Component::Server) == Ok::<Stage, ShutdownError>(
            Stage::ServerDown,
        ),
        spec_shutdown(Stage::ServerDown, Component::Client) == Ok::<Stage, ShutdownError>(
            Stage::ClientDown,
        ),
        spec_shutdown(Stage::ClientDown, Component::Registry) == Ok::<Stage, ShutdownError>(
            Stage::Closed,
        ),
{
}

} // verus!
