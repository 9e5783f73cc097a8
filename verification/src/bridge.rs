//! The future-bridging executor's decision logic: how a blocking caller
//! drives a suspend/resume workflow to completion with no task scheduler.
//!
//! The pattern: register an observer before the first poll so no tick is
//! missed, poll with a no-op wake signal, and between polls wait for a
//! tick with a bounded timeout — progress is tied to application state
//! changes, not to wake semantics. On every round two conditions are
//! checked: the liveness flag still holds and the dispatch channel still
//! accepts a probe. Losing either is unrecoverable for a blocked caller,
//! and the round answers with a fatal outcome instead of an error value.
//! The caller owns the endless loop; every round of it is the verified
//! [`crate::context::Context::bridge_round`].

use vstd::prelude::*;
use crate::types::CoreError;

verus! {

/// A workflow that can be advanced one suspension step at a time with a
/// no-op wake signal. What the instance's workflows implement so the
/// bridge can drive them.
pub trait BridgeFuture {
    type Output;

    /// One poll: `Some` exactly on completion.
    fn poll_step(&mut self) -> Option<Self::Output>;
}

/// Why a bridged call must not go on waiting.
#[derive(Clone, Copy, PartialEq, Eq, Debug)]
pub enum FatalReason {
    /// The instance-wide liveness flag was flipped off: teardown.
    InstanceDead,
    /// The dispatch loop no longer accepts commands.
    DispatchStopped(CoreError),
}

/// How one bridge round ended.
pub enum BridgeRound<T> {
    /// The future completed with its result.
    Completed(T),
    /// Nothing completed and nothing failed: poll again after this round.
    Continue,
    /// An unrecoverable condition: the caller must stop, not unwind.
    Fatal(FatalReason),
}

/// The bridge's liveness decision after an unfinished poll: a dead
/// instance is fatal at once; a stopped dispatch loop is fatal with the
/// probe's error; otherwise the round continues.
pub fn bridge_decision(alive: bool, probe_failure: Option<CoreError>) -> (d: Option<FatalReason>)
    ensures
        !alive ==> d == Option::Some(FatalReason::InstanceDead),
        alive && probe_failure is Some ==> d == Option::Some(
            FatalReason::DispatchStopped(probe_failure->Some_0),
        ),
        alive && probe_failure is None ==> d is None,
{
    if !alive {
        Some(FatalReason::InstanceDead)
    } else {
        match probe_failure {
            Some(e) => Some(FatalReason::DispatchStopped(e)),
            None => None,
        }
    }
}

/// A ready-made bridged workflow: suspends a fixed number of times, then
/// completes with its value. One poll consumes one suspension.
pub struct CountdownFuture {
    pub remaining: u64,
    pub value: u64,
}

impl BridgeFuture for CountdownFuture {
    type Output = u64;

    fn poll_step(&mut self) -> Option<u64> {
        if self.remaining == 0 {
            Some(self.value)
        } else {
            self.remaining = self.remaining - 1;
            None
        }
    }
}

} // verus!
