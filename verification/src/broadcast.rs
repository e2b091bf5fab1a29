//! The broadcast throttler: decides once per tick whether enough simulated
//! time has passed since the last snapshot publish, and builds the snapshot
//! of every player's current position when one is due.

use vstd::prelude::*;
use crate::messages::PlayerState;
use crate::store::{Entity, EntityStore};

verus! {

/// Minimum simulated time, in milliseconds, between two snapshot publishes.
pub const BROADCAST_INTERVAL_MS: u64 = 50;

/// Process-wide throttle state: when the last snapshot was published, in
/// milliseconds of simulated time. Monotonically non-decreasing; reset only
/// at process start.
#[derive(Clone, Copy, PartialEq, Eq, Structural, Debug)]
pub struct BroadcastTimer {
    pub last_broadcast: u64,
}

impl BroadcastTimer {
    /// The throttle state at process start: no snapshot published yet.
    pub fn new() -> (t: Self)
        ensures
            t.last_broadcast == 0,
    {
        BroadcastTimer { last_broadcast: 0 }
    }
}

/// Whether a snapshot is due: at least `BROADCAST_INTERVAL_MS` of simulated
/// time has passed since the last publish.
pub open spec fn broadcast_due(last_broadcast: u64, now_ms: u64) -> bool {
    now_ms >= last_broadcast + BROADCAST_INTERVAL_MS
}

/// Decide the throttle state for the tick at `now_ms`: due, or still waiting.
pub fn is_due(last_broadcast: u64, now_ms: u64) -> (r: bool)
    ensures
        r == broadcast_due(last_broadcast, now_ms),
{
    now_ms >= last_broadcast && now_ms - last_broadcast >= BROADCAST_INTERVAL_MS
}

/// The snapshot entry for one entity: its id and current position.
pub open spec fn player_state_of(e: Entity) -> PlayerState {
    PlayerState { player_id: e.player.id, x: e.position.x, y: e.position.y }
}

/// The snapshot of a whole store: one entry per entity, in store order.
pub open spec fn snapshot_spec(s: Seq<Entity>) -> Seq<PlayerState> {
    s.map(|i: int, e: Entity| player_state_of(e))
}

/// Build the snapshot of every entity's current id and position, in store
/// order, as of the tick that produced it.
pub fn make_snapshot(store: &EntityStore) -> (players: Vec<PlayerState>)
    ensures
        players@ == snapshot_spec(store@),
{
    let n = store.len();
    let mut players: Vec<PlayerState> = Vec::new();
    let mut i: usize = 0;
    while i < n
        invariant
            n == store@.len(),
            i <= n,
            players@.len() == i,
            forall|j: int| 0 <= j < i ==> players@[j] == player_state_of(store@[j]),
        decreases n - i,
    {
        let e = store.get(i);
        players.push(PlayerState {
            player_id: e.player.id,
            x: e.position.x,
            y: e.position.y,
        });
        i = i + 1;
    }
    proof {
        assert(players@ =~= snapshot_spec(store@));
    }
    players
}

} // verus!
