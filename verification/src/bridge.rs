//! The cross-context bridge: the bounded command queue and the shared state
//! cell that connect asynchronous producers to the synchronous simulation
//! tick. Every access from the tick side is a non-blocking try-acquire that
//! skips the operation on contention instead of stalling the fixed-tick loop.

use vstd::prelude::*;
use std::sync::Arc;
use crate::constants::COMMAND_QUEUE_CAPACITY;
use crate::types::{DroneCommand, DroneState};

verus! {

#[verifier::external_type_specification]
#[verifier::external_body]
#[verifier::reject_recursive_types(T)]
pub struct ExReceiver<T>(tokio::sync::mpsc::Receiver<T>);

#[verifier::external_type_specification]
#[verifier::external_body]
#[verifier::reject_recursive_types(T)]
pub struct ExMutex<T: ?Sized>(tokio::sync::Mutex<T>);

/// Relies on tokio::sync::mpsc::Receiver::try_recv: returns the oldest
/// queued command without blocking, or nothing when the queue is currently
/// empty or every sender is gone. Commands arrive in send order (the channel
/// is FIFO); what this call returns depends on what producers have queued,
/// so nothing more is assumed of it.
#[verifier::external_body]
pub(crate) fn try_recv_command(rx: &mut tokio::sync::mpsc::Receiver<DroneCommand>) -> (r: Option<
    DroneCommand,
>) {
    match rx.try_recv() {
        Ok(cmd) => Some(cmd),
        Err(_) => None,
    }
}

/// Relies on tokio::sync::Mutex::try_lock: stores the snapshot and returns
/// true when the cell is free, returns false without blocking when a reader
/// holds it. Whether the lock is free depends on concurrent readers, so
/// nothing is assumed of the result.
#[verifier::external_body]
pub(crate) fn try_store_state(cell: &Arc<tokio::sync::Mutex<DroneState>>, s: &DroneState) -> (published: bool) {
    match cell.try_lock() {
        Ok(mut guard) => {
            *guard = *s;
            true
        },
        Err(_) => false,
    }
}

/// Relies on tokio::sync::Mutex::try_lock: clones the most recently
/// published snapshot and releases the cell immediately, or returns nothing
/// when the writer (or another reader) holds it at this instant. Never
/// returns a partially written value: the cell only ever holds whole
/// snapshots, each stored under the lock.
#[verifier::external_body]
pub fn read_state(cell: &Arc<tokio::sync::Mutex<DroneState>>) -> (r: Option<DroneState>) {
    match cell.try_lock() {
        Ok(guard) => Some(*guard),
        Err(_) => None,
    }
}

/// Drains the commands queued at the start of the tick, in send order,
/// without blocking. The channel holds at most `COMMAND_QUEUE_CAPACITY`
/// commands, so taking that many covers everything queued when the drain
/// begins; anything a producer enqueues mid-drain waits for the next tick.
/// An empty result is the expected steady state between operator inputs.
pub fn drain_commands(rx: &mut tokio::sync::mpsc::Receiver<DroneCommand>) -> (cmds: Vec<
    DroneCommand,
>)
    ensures
        cmds@.len() <= COMMAND_QUEUE_CAPACITY,
{
    let mut cmds: Vec<DroneCommand> = Vec::new();
    let mut i: usize = 0;
    while i < COMMAND_QUEUE_CAPACITY
        invariant
            i <= COMMAND_QUEUE_CAPACITY,
            cmds@.len() <= i,
        decreases COMMAND_QUEUE_CAPACITY - i,
    {
        match try_recv_command(rx) {
            Some(cmd) => cmds.push(cmd),
            None => {
                break ;
            },
        }
        i += 1;
    }
    cmds
}

} // verus!
