//! The bridge queues and the tick pipeline.
//!
//! Two unidirectional queues are the only channel between the tick driver's
//! execution context and the network-facing collaborator: network tasks
//! enqueue intent commands for the core to drain, and the core enqueues
//! outbound events for the network layer to fan out. The tick pipeline runs
//! command processing, movement integration and the throttled broadcast, in
//! that fixed order, once per frame.

use vstd::prelude::*;
use crate::broadcast::{broadcast_due, is_due, make_snapshot, BroadcastTimer};
use crate::commands::{apply_all_store, apply_command, lemma_apply_all_store_push};
use crate::messages::{EcsCommand, ServerMessage, ServerToClientMessage};
use crate::motion::{integrate_all, movement_system, PLAYER_SPEED};
use crate::store::EntityStore;

verus! {

#[verifier::external_type_specification]
#[verifier::external_body]
#[verifier::reject_recursive_types(T)]
pub struct ExUnboundedReceiver<T>(tokio::sync::mpsc::UnboundedReceiver<T>);

#[verifier::external_type_specification]
#[verifier::external_body]
#[verifier::reject_recursive_types(T)]
pub struct ExUnboundedSender<T>(tokio::sync::mpsc::UnboundedSender<T>);

/// The inbound command queue: many network tasks enqueue, the tick driver
/// alone drains.
pub struct CommandQueue {
    pub rx: tokio::sync::mpsc::UnboundedReceiver<EcsCommand>,
}

/// The outbound event queue: the tick driver alone enqueues, the network
/// layer fans out.
pub struct ServerToClientQueue {
    pub tx: tokio::sync::mpsc::UnboundedSender<ServerToClientMessage>,
}

/// What one non-blocking poll of the inbound queue found.
enum CommandPoll {
    /// A queued command, consumed exactly once.
    Command(EcsCommand),
    /// Nothing queued right now; senders may still enqueue more.
    Empty,
    /// Every sender is gone: no command will ever arrive again.
    Closed,
}

/// Relies on tokio's `UnboundedReceiver::try_recv`: a non-blocking poll that
/// yields the next queued command in arrival order, or reports the queue
/// empty or closed. What it yields depends on concurrent senders, so nothing
/// more is promised of the outcome.
#[verifier::external_body]
fn poll_command(rx: &mut tokio::sync::mpsc::UnboundedReceiver<EcsCommand>) -> (r: CommandPoll) {
    match rx.try_recv() {
        Ok(cmd) => CommandPoll::Command(cmd),
        Err(tokio::sync::mpsc::error::TryRecvError::Empty) => CommandPoll::Empty,
        Err(tokio::sync::mpsc::error::TryRecvError::Disconnected) => CommandPoll::Closed,
    }
}

/// Relies on tokio's `UnboundedReceiver::len`: how many commands are queued
/// at this moment. Concurrent senders may enqueue more right after, so the
/// count only bounds this tick's drain.
#[verifier::external_body]
fn queued_commands(rx: &tokio::sync::mpsc::UnboundedReceiver<EcsCommand>) -> (n: usize) {
    rx.len()
}

/// Relies on tokio's `UnboundedSender::send`: enqueues the event without
/// blocking, in call order per sender; fails only when every receiver is
/// gone. Delivery is best-effort, so nothing is promised of the outcome.
#[verifier::external_body]
fn send_event(
    tx: &tokio::sync::mpsc::UnboundedSender<ServerToClientMessage>,
    msg: ServerToClientMessage,
) -> (r: bool) {
    tx.send(msg).is_ok()
}

/// Enqueue every event on the outbound queue, first to last. Delivery is
/// best-effort: a closed queue loses the events but never fails the tick.
fn send_events(queue: &ServerToClientQueue, events: Vec<ServerToClientMessage>) {
    let mut events = events;
    while events.len() > 0
        decreases events@.len(),
    {
        let e = events.remove(0);
        send_event(&queue.tx, e);
    }
}

/// The command processor: drain every command queued at the start of the
/// tick, apply each to the store in arrival order, and enqueue the events
/// each one owes. Never blocks waiting for more commands; a command arriving
/// mid-drain waits for the next tick. Returns whether the inbound queue is
/// closed, the tick driver's signal to stop.
pub fn process_commands(
    queue: &mut CommandQueue,
    store: &mut EntityStore,
    sim_to_client: &ServerToClientQueue,
) -> (closed: bool)
    requires
        old(store).wf(),
    ensures
        final(store).wf(),
        exists|cmds: Seq<EcsCommand>| final(store)@ == apply_all_store(old(store)@, cmds),
{
    let ghost s0 = store@;
    let ghost mut received: Seq<EcsCommand> = Seq::empty();
    let queued = queued_commands(&queue.rx);
    // Poll at least once, so an empty but closed queue still signals the stop.
    let budget = if queued == 0 { 1 } else { queued };
    let mut k: usize = 0;
    let mut closed = false;
    while k < budget
        invariant
            store.wf(),
            store@ == apply_all_store(s0, received),
            k <= budget,
        decreases budget - k,
    {
        match poll_command(&mut queue.rx) {
            CommandPoll::Command(cmd) => {
                let events = apply_command(store, cmd);
                send_events(sim_to_client, events);
                proof {
                    lemma_apply_all_store_push(s0, received, cmd);
                    received = received.push(cmd);
                }
            }
            CommandPoll::Empty => {
                break;
            }
            CommandPoll::Closed => {
                closed = true;
                break;
            }
        }
        k = k + 1;
    }
    closed
}

/// The broadcast throttler: if at least the broadcast interval of simulated
/// time has passed since the last publish, enqueue a snapshot of every
/// player's current position as one broadcast and advance the timer to
/// `now_ms`; otherwise do nothing. Returns whether a snapshot was published.
pub fn broadcast_positions(
    store: &EntityStore,
    sim_to_client: &ServerToClientQueue,
    now_ms: u64,
    timer: &mut BroadcastTimer,
) -> (published: bool)
    ensures
        published == broadcast_due(old(timer).last_broadcast, now_ms),
        final(timer).last_broadcast == if broadcast_due(old(timer).last_broadcast, now_ms) {
            now_ms
        } else {
            old(timer).last_broadcast
        },
{
    if !is_due(timer.last_broadcast, now_ms) {
        return false;
    }
    timer.last_broadcast = now_ms;
    let players = make_snapshot(store);
    send_event(&sim_to_client.tx, ServerToClientMessage::Broadcast {
        message: ServerMessage::PlayerState { players },
    });
    true
}

/// One tick of the fixed pipeline: command processor, then movement
/// integrator, then broadcast throttler. `elapsed_ms` is the simulated time
/// since the previous tick; `now_ms` is the simulated time of this tick.
/// Returns whether the inbound queue is closed, the signal to stop ticking.
pub fn tick(
    queue: &mut CommandQueue,
    store: &mut EntityStore,
    sim_to_client: &ServerToClientQueue,
    timer: &mut BroadcastTimer,
    elapsed_ms: u32,
    now_ms: u64,
) -> (closed: bool)
    requires
        old(store).wf(),
    ensures
        final(store).wf(),
        exists|cmds: Seq<EcsCommand>| final(store)@ == integrate_all(
            apply_all_store(old(store)@, cmds),
            PLAYER_SPEED,
            elapsed_ms,
        ),
        final(timer).last_broadcast == if broadcast_due(old(timer).last_broadcast, now_ms) {
            now_ms
        } else {
            old(timer).last_broadcast
        },
{
    let ghost s0 = store@;
    let closed = process_commands(queue, store, sim_to_client);
    let ghost cmds = choose|cmds: Seq<EcsCommand>| store@ == apply_all_store(s0, cmds);
    movement_system(store, elapsed_ms);
    proof {
        assert(store@ == integrate_all(apply_all_store(s0, cmds), PLAYER_SPEED, elapsed_ms));
    }
    broadcast_positions(store, sim_to_client, now_ms, timer);
    closed
}

} // verus!
