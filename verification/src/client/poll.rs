//! Waiting for blocks.
//!
//! The wait is a state machine. The caller asks the node for its latest
//! block, or sleeps and then asks, as the machine says, and hands the answer
//! back. The caller also runs the clock: when the time allowed for the whole
//! wait is over, it hands in `PollEvent::TimedOut`.

use super::error::ClientError;
use crate::orchestrator::error::PollBlockError;
use vstd::prelude::*;

verus! {

/// The time to sleep between two queries of the latest block, in
/// milliseconds.
pub const POLL_INTERVAL_MS: u64 = 500;

/// Where a wait for blocks stands.
#[derive(Clone, Copy, Debug, PartialEq, Eq, Structural)]
pub enum PollState {
    /// The node has not answered yet; it may still be starting.
    AwaitingNode { n: u64 },
    /// The node is asked for the height that the wait starts from.
    AwaitingStart { n: u64 },
    /// The wait started at height `start` and is over at `start + n`.
    AwaitingTarget { start: u64, n: u64 },
    /// The wait is over: the blocks have been processed.
    Done,
    /// The wait is over: it failed.
    Failed,
}

/// Why a query of the latest block failed.
#[derive(Debug, PartialEq, Eq)]
pub struct BlockQueryError {
    /// Whether the failure is of the kind that a node shows while it is
    /// not serving yet.
    pub not_serving: bool,
    pub error: ClientError,
}

/// What happened since the last step.
#[derive(Debug, PartialEq, Eq)]
pub enum PollEvent {
    /// The node answered the query of its latest block with the block's
    /// height, or the query failed.
    Block(Result<u64, BlockQueryError>),
    /// The time allowed for the wait is over.
    TimedOut,
}

/// What the caller is to do next.
#[derive(Debug, PartialEq, Eq)]
pub enum PollAction {
    /// Ask the node for its latest block.
    QueryBlock,
    /// Sleep for `POLL_INTERVAL_MS`, then ask the node for its latest block.
    SleepThenQueryBlock,
    /// Stop and return this result.
    Return(Result<(), PollBlockError>),
    /// Nothing: the wait was over before.
    Nothing,
}

impl PollState {
    /// Whether the wait is over.
    pub open spec fn is_over(self) -> bool {
        self is Done || self is Failed
    }

    /// Whether the wait is over.
    pub fn over(&self) -> (b: bool)
        ensures
            b == self.is_over(),
    {
        match self {
            PollState::Done => true,
            PollState::Failed => true,
            _ => false,
        }
    }
}

/// Whether a wait that started at `start` for `n` blocks is over at `height`.
pub open spec fn target_reached(start: u64, n: u64, height: u64) -> bool {
    height >= start + n
}

/// The state and the action that follow on an event.
pub open spec fn poll_next(state: PollState, event: PollEvent) -> (PollState, PollAction) {
    if state.is_over() {
        (state, PollAction::Nothing)
    } else {
        match event {
            PollEvent::TimedOut => (PollState::Failed, PollAction::Return(Err(PollBlockError::Timeout))),
            PollEvent::Block(Err(e)) => {
                if state is AwaitingNode && e.not_serving {
                    (state, PollAction::SleepThenQueryBlock)
                } else {
                    (
                        PollState::Failed,
                        PollAction::Return(Err(PollBlockError::ClientError(e.error))),
                    )
                }
            },
            PollEvent::Block(Ok(height)) => match state {
                PollState::AwaitingNode { n } => (
                    PollState::AwaitingStart { n },
                    PollAction::QueryBlock,
                ),
                PollState::AwaitingStart { n } => {
                    if target_reached(height, n, height) {
                        (PollState::Done, PollAction::Return(Ok(())))
                    } else {
                        (
                            PollState::AwaitingTarget { start: height, n },
                            PollAction::SleepThenQueryBlock,
                        )
                    }
                },
                PollState::AwaitingTarget { start, n } => {
                    if target_reached(start, n, height) {
                        (PollState::Done, PollAction::Return(Ok(())))
                    } else {
                        (state, PollAction::SleepThenQueryBlock)
                    }
                },
                _ => (state, PollAction::Nothing),
            },
        }
    }
}

/// Starts a wait for `n` blocks. With `is_first_block` the wait begins by
/// waiting for the node to serve at all. Either way the first thing to do
/// is to ask for the latest block.
pub fn poll_for_n_blocks(n: u64, is_first_block: bool) -> (r: (PollState, PollAction))
    ensures
        r.0 == (if is_first_block {
            PollState::AwaitingNode { n }
        } else {
            PollState::AwaitingStart { n }
        }),
        r.1 == PollAction::QueryBlock,
{
    if is_first_block {
        (PollState::AwaitingNode { n }, PollAction::QueryBlock)
    } else {
        (PollState::AwaitingStart { n }, PollAction::QueryBlock)
    }
}

/// Whether the height `start + n` is reached at `height`.
fn reached(start: u64, n: u64, height: u64) -> (b: bool)
    ensures
        b == target_reached(start, n, height),
{
    height >= start && height - start >= n
}

/// Takes one step of a wait for blocks: from the state and what happened,
/// to the next state and what to do.
pub fn poll_step(state: PollState, event: PollEvent) -> (r: (PollState, PollAction))
    ensures
        r == poll_next(state, event),
{
    if state.over() {
        return (state, PollAction::Nothing);
    }
    match event {
        PollEvent::TimedOut => (PollState::Failed, PollAction::Return(Err(PollBlockError::Timeout))),
        PollEvent::Block(Err(e)) => {
            let retry = match state {
                PollState::AwaitingNode { .. } => e.not_serving,
                _ => false,
            };
            if retry {
                (state, PollAction::SleepThenQueryBlock)
            } else {
                (PollState::Failed, PollAction::Return(Err(PollBlockError::ClientError(e.error))))
            }
        },
        PollEvent::Block(Ok(height)) => match state {
            PollState::AwaitingNode { n } => (PollState::AwaitingStart { n }, PollAction::QueryBlock),
            PollState::AwaitingStart { n } => {
                if reached(height, n, height) {
                    (PollState::Done, PollAction::Return(Ok(())))
                } else {
                    (
                        PollState::AwaitingTarget { start: height, n },
                        PollAction::SleepThenQueryBlock,
                    )
                }
            },
            PollState::AwaitingTarget { start, n } => {
                if reached(start, n, height) {
                    (PollState::Done, PollAction::Return(Ok(())))
                } else {
                    (state, PollAction::SleepThenQueryBlock)
                }
            },
            _ => (state, PollAction::Nothing),
        },
    }
}

/// When the time runs out, a wait that is not over fails with `Timeout`,
/// wherever it stands.
pub proof fn lemma_timeout_fails(state: PollState)
    requires
        !state.is_over(),
    ensures
        poll_next(state, PollEvent::TimedOut) == (
            PollState::Failed,
            PollAction::Return(Err(PollBlockError::Timeout)),
        ),
{
}

/// A wait succeeds only at a height of at least the start plus `n`, and at
/// such a height it does succeed.
pub proof fn lemma_done_iff_target_reached(start: u64, n: u64, height: u64)
    ensures
        poll_next(PollState::AwaitingTarget { start, n }, PollEvent::Block(Ok(height))).0
            is Done <==> height >= start + n,
        poll_next(PollState::AwaitingStart { n }, PollEvent::Block(Ok(height))).0 is Done <==> n
            == 0,
{
}

/// While the node is awaited, only the failures of a node that is not
/// serving yet are passed over; every other failure ends the wait. Once the
/// node has answered, every failure ends the wait.
pub proof fn lemma_only_not_serving_is_retried(state: PollState, e: BlockQueryError)
    requires
        !state.is_over(),
    ensures
        poll_next(state, PollEvent::Block(Err(e))).0 is Failed <==> !(state is AwaitingNode
            && e.not_serving),
{
}

/// A wait that is over stays over, and asks for nothing more.
pub proof fn lemma_over_is_final(state: PollState, event: PollEvent)
    requires
        state.is_over(),
    ensures
        poll_next(state, event) == (state, PollAction::Nothing),
{
}

} // verus!
