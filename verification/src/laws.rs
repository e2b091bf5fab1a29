//! The guarantees the simulation core gives, stated and proved over the
//! specification-level model: benign no-ops for unknown ids, uniqueness of
//! player entities under every command sequence, throttle gating, and the
//! ordering of join catch-up events.

use vstd::prelude::*;
use crate::broadcast::{broadcast_due, BROADCAST_INTERVAL_MS};
use crate::commands::{
    apply_all_store, catchup_events, command_events, command_store, join_events,
};
use crate::messages::{EcsCommand, ServerMessage, ServerToClientMessage};
use crate::motion::integrate_all;
use crate::store::{contains_id, ids_unique, index_of_id, Entity};

verus! {

/// Despawning a player id not present in the store is a no-op on the store
/// and still emits exactly one broadcast announcing the departure.
pub proof fn lemma_despawn_absent_is_noop(s: Seq<Entity>, player_id: u128)
    requires
        !contains_id(s, player_id),
    ensures
        command_store(s, EcsCommand::DespawnPlayer { player_id }) == s,
        command_events(s, EcsCommand::DespawnPlayer { player_id }) == seq![
            ServerToClientMessage::Broadcast {
                message: ServerMessage::PlayerLeft { player_id },
            },
        ],
{
}

/// A velocity update for a player id not present in the store leaves the
/// store entirely unchanged and emits no event.
pub proof fn lemma_velocity_unknown_id_is_noop(s: Seq<Entity>, player_id: u128, dx: i64, dy: i64)
    requires
        !contains_id(s, player_id),
    ensures
        command_store(s, EcsCommand::UpdateVelocity { player_id, dx, dy }) == s,
        command_events(s, EcsCommand::UpdateVelocity { player_id, dx, dy })
            == Seq::<ServerToClientMessage>::empty(),
{
}

/// Applying any single command preserves the store's uniqueness invariant:
/// no two entities ever carry the same player id.
pub proof fn lemma_command_preserves_uniqueness(s: Seq<Entity>, cmd: EcsCommand)
    requires
        ids_unique(s),
    ensures
        ids_unique(command_store(s, cmd)),
{
    let s1 = command_store(s, cmd);
    match cmd {
        EcsCommand::SpawnPlayer { player_id } => {
            if contains_id(s, player_id) {
                let k = index_of_id(s, player_id);
                assert(0 <= k < s.len() && s[k].player.id == player_id);
                assert forall|p: int, q: int| 0 <= p < q < s1.len()
                    implies s1[p].player.id != s1[q].player.id
                by {
                    assert(s1[p].player.id == s[p].player.id);
                    assert(s1[q].player.id == s[q].player.id);
                }
            } else {
                assert forall|p: int, q: int| 0 <= p < q < s1.len()
                    implies s1[p].player.id != s1[q].player.id
                by {
                    if q < s.len() {
                        assert(s1[p] == s[p] && s1[q] == s[q]);
                    } else {
                        assert(s1[p] == s[p] && s1[q].player.id == player_id);
                    }
                }
            }
        }
        EcsCommand::DespawnPlayer { player_id } => {
            if contains_id(s, player_id) {
                let k = index_of_id(s, player_id);
                assert(0 <= k < s.len() && s[k].player.id == player_id);
                assert forall|p: int, q: int| 0 <= p < q < s1.len()
                    implies s1[p].player.id != s1[q].player.id
                by {
                    let p0 = if p < k { p } else { p + 1 };
                    let q0 = if q < k { q } else { q + 1 };
                    assert(s1[p] == s[p0]);
                    assert(s1[q] == s[q0]);
                }
            }
        }
        EcsCommand::UpdateVelocity { player_id, dx, dy } => {
            if contains_id(s, player_id) {
                assert forall|p: int, q: int| 0 <= p < q < s1.len()
                    implies s1[p].player.id != s1[q].player.id
                by {
                    assert(s1[p].player.id == s[p].player.id);
                    assert(s1[q].player.id == s[q].player.id);
                }
            }
        }
    }
}

/// Spawn uniqueness: for every starting store that satisfies the invariant
/// and every sequence of commands, the store after applying the whole
/// sequence never holds two entities with the same player id.
pub proof fn lemma_spawn_uniqueness(s: Seq<Entity>, cmds: Seq<EcsCommand>)
    requires
        ids_unique(s),
    ensures
        ids_unique(apply_all_store(s, cmds)),
    decreases cmds.len(),
{
    if cmds.len() == 0 {
    } else {
        lemma_command_preserves_uniqueness(s, cmds[0]);
        lemma_spawn_uniqueness(command_store(s, cmds[0]), cmds.drop_first());
    }
}

/// Movement integration touches only positions, so it too preserves the
/// uniqueness invariant: together with `lemma_spawn_uniqueness` this covers
/// every tick boundary.
pub proof fn lemma_integration_preserves_uniqueness(s: Seq<Entity>, speed: u32, elapsed_ms: u32)
    requires
        ids_unique(s),
    ensures
        ids_unique(integrate_all(s, speed, elapsed_ms)),
{
    let s1 = integrate_all(s, speed, elapsed_ms);
    assert forall|p: int, q: int| 0 <= p < q < s1.len()
        implies s1[p].player.id != s1[q].player.id
    by {
        assert(s1[p].player.id == s[p].player.id);
        assert(s1[q].player.id == s[q].player.id);
    }
}

/// Throttle gating, first half: a tick at `t1` that published a snapshot
/// advanced the timer, and a second tick less than the broadcast interval
/// later publishes nothing.
pub proof fn lemma_throttle_gating(last_broadcast: u64, t1: u64, t2: u64)
    requires
        broadcast_due(last_broadcast, t1),
        t2 < t1 + BROADCAST_INTERVAL_MS,
    ensures
        !broadcast_due(t1, t2),
        t1 > last_broadcast,
{
}

/// Throttle gating, second half: ticks separated by at least the broadcast
/// interval each publish, and every publish advances the timer
/// monotonically.
pub proof fn lemma_throttle_due_again(last_broadcast: u64, t1: u64, t2: u64)
    requires
        broadcast_due(last_broadcast, t1),
        t2 >= t1 + BROADCAST_INTERVAL_MS,
    ensures
        broadcast_due(t1, t2),
        last_broadcast < t1 && t1 < t2,
{
}

/// The catch-up message a spawn of `new_id` owes the new client for the
/// already-present entity `e`.
pub open spec fn catchup_message(e: Entity, new_id: u128) -> ServerToClientMessage {
    ServerToClientMessage::SendToClient {
        player_id: new_id,
        message: ServerMessage::PlayerJoined {
            player_id: e.player.id,
            x: e.position.x,
            y: e.position.y,
        },
    }
}

/// Whether `m` is a catch-up event addressed to the newly joined player.
pub open spec fn is_catchup_to(m: ServerToClientMessage, new_id: u128) -> bool {
    match m {
        ServerToClientMessage::SendToClient { player_id, message } => {
            player_id == new_id && match message {
                ServerMessage::PlayerJoined { .. } => true,
                _ => false,
            }
        }
        _ => false,
    }
}

proof fn lemma_catchup_shape(s: Seq<Entity>, new_id: u128)
    ensures
        forall|k: int| 0 <= k < catchup_events(s, new_id).len()
            ==> is_catchup_to(#[trigger] catchup_events(s, new_id)[k], new_id),
        forall|j: int| 0 <= j < s.len() && (#[trigger] s[j]).player.id != new_id
            ==> exists|k: int| 0 <= k < catchup_events(s, new_id).len()
                && catchup_events(s, new_id)[k] == catchup_message(s[j], new_id),
    decreases s.len(),
{
    if s.len() == 0 {
    } else {
        let s1 = s.drop_last();
        lemma_catchup_shape(s1, new_id);
        let c1 = catchup_events(s1, new_id);
        let c = catchup_events(s, new_id);
        let e = s.last();
        assert forall|k: int| 0 <= k < c.len() implies is_catchup_to(c[k], new_id) by {
            if k < c1.len() {
                assert(c[k] == c1[k]);
            } else {
                assert(c[k] == catchup_message(e, new_id));
            }
        }
        assert forall|j: int| 0 <= j < s.len() && (#[trigger] s[j]).player.id != new_id
            implies exists|k: int| 0 <= k < c.len() && c[k] == catchup_message(s[j], new_id)
        by {
            if j < s.len() - 1 {
                assert(s[j] == s1[j]);
                let k = choose|k: int| 0 <= k < c1.len()
                    && c1[k] == catchup_message(s1[j], new_id);
                assert(c[k] == catchup_message(s[j], new_id));
            } else {
                assert(s[j] == e);
                assert(c[c.len() - 1] == catchup_message(e, new_id));
            }
        }
    }
}

/// Join catch-up ordering: when a player joins, the events a spawn produces
/// begin with the broadcast announcing the join; every later event is a
/// catch-up addressed to the new player; and every already-present other
/// player's state is among the catch-ups. So the broadcast of the new
/// player's join precedes every catch-up sent to that player.
pub proof fn lemma_join_catchup_ordering(s: Seq<Entity>, new_id: u128)
    ensures
        join_events(s, new_id).len() >= 1,
        join_events(s, new_id)[0] == (ServerToClientMessage::Broadcast {
            message: ServerMessage::PlayerJoined { player_id: new_id, x: 0, y: 0 },
        }),
        forall|k: int| 1 <= k < join_events(s, new_id).len()
            ==> is_catchup_to(#[trigger] join_events(s, new_id)[k], new_id),
        forall|j: int| 0 <= j < s.len() && (#[trigger] s[j]).player.id != new_id
            ==> exists|k: int| 1 <= k < join_events(s, new_id).len()
                && join_events(s, new_id)[k] == catchup_message(s[j], new_id),
{
    lemma_catchup_shape(s, new_id);
    let c = catchup_events(s, new_id);
    let ev = join_events(s, new_id);
    assert forall|k: int| 1 <= k < ev.len() implies is_catchup_to(ev[k], new_id) by {
        assert(ev[k] == c[k - 1]);
    }
    assert forall|j: int| 0 <= j < s.len() && (#[trigger] s[j]).player.id != new_id
        implies exists|k: int| 1 <= k < ev.len() && ev[k] == catchup_message(s[j], new_id)
    by {
        let k = choose|k: int| 0 <= k < c.len() && c[k] == catchup_message(s[j], new_id);
        assert(ev[k + 1] == c[k]);
    }
}

} // verus!
