//! The command processor: applies one intent command to the entity store and
//! produces the outbound events that command owes to the clients.
//!
//! Commands that reference an unknown player id are benign no-ops: they never
//! fail, and a despawn still announces the departure.

use vstd::prelude::*;
use crate::messages::{EcsCommand, ServerMessage, ServerToClientMessage};
use crate::store::{despawn_spec, spawn_spec, velocity_spec, Entity, EntityStore};

verus! {

/// The catch-up events a spawn of `new_id` owes to the newly joined client:
/// one `SendToClient` carrying `PlayerJoined` for every entity of `s` other
/// than the new player itself, in store order.
pub open spec fn catchup_events(s: Seq<Entity>, new_id: u128) -> Seq<ServerToClientMessage>
    decreases s.len(),
{
    if s.len() == 0 {
        Seq::empty()
    } else {
        let rest = catchup_events(s.drop_last(), new_id);
        let e = s.last();
        if e.player.id == new_id {
            rest
        } else {
            rest.push(ServerToClientMessage::SendToClient {
                player_id: new_id,
                message: ServerMessage::PlayerJoined {
                    player_id: e.player.id,
                    x: e.position.x,
                    y: e.position.y,
                },
            })
        }
    }
}

/// Every event a spawn of `new_id` produces: the broadcast announcing the
/// join, then the catch-up events for the new client.
pub open spec fn join_events(s: Seq<Entity>, new_id: u128) -> Seq<ServerToClientMessage> {
    seq![
        ServerToClientMessage::Broadcast {
            message: ServerMessage::PlayerJoined { player_id: new_id, x: 0, y: 0 },
        },
    ] + catchup_events(s, new_id)
}

/// The entity store after `cmd` is applied to `s`.
pub open spec fn command_store(s: Seq<Entity>, cmd: EcsCommand) -> Seq<Entity> {
    match cmd {
        EcsCommand::SpawnPlayer { player_id } => spawn_spec(s, player_id),
        EcsCommand::DespawnPlayer { player_id } => despawn_spec(s, player_id),
        EcsCommand::UpdateVelocity { player_id, dx, dy } => velocity_spec(s, player_id, dx, dy),
    }
}

/// The outbound events `cmd` produces when applied to `s`: a spawn announces
/// the join and catches the new client up, a despawn announces the departure
/// unconditionally, a velocity update is silent.
pub open spec fn command_events(s: Seq<Entity>, cmd: EcsCommand) -> Seq<ServerToClientMessage> {
    match cmd {
        EcsCommand::SpawnPlayer { player_id } => join_events(s, player_id),
        EcsCommand::DespawnPlayer { player_id } => seq![
            ServerToClientMessage::Broadcast {
                message: ServerMessage::PlayerLeft { player_id },
            },
        ],
        EcsCommand::UpdateVelocity { .. } => Seq::empty(),
    }
}

/// The entity store after a whole sequence of commands is applied in order.
pub open spec fn apply_all_store(s: Seq<Entity>, cmds: Seq<EcsCommand>) -> Seq<Entity>
    decreases cmds.len(),
{
    if cmds.len() == 0 {
        s
    } else {
        apply_all_store(command_store(s, cmds[0]), cmds.drop_first())
    }
}

/// The outbound events a whole sequence of commands produces, in order.
pub open spec fn apply_all_events(s: Seq<Entity>, cmds: Seq<EcsCommand>) -> Seq<ServerToClientMessage>
    decreases cmds.len(),
{
    if cmds.len() == 0 {
        Seq::empty()
    } else {
        command_events(s, cmds[0]) + apply_all_events(command_store(s, cmds[0]), cmds.drop_first())
    }
}

/// Applying the commands `cmds` and then one more command `c` is the same as
/// applying the whole sequence `cmds.push(c)` at once.
pub proof fn lemma_apply_all_store_push(s: Seq<Entity>, cmds: Seq<EcsCommand>, c: EcsCommand)
    ensures
        apply_all_store(s, cmds.push(c)) == command_store(apply_all_store(s, cmds), c),
    decreases cmds.len(),
{
    if cmds.len() == 0 {
        assert(cmds.push(c)[0] == c);
        assert(cmds.push(c).drop_first() =~= Seq::<EcsCommand>::empty());
        assert(apply_all_store(s, cmds.push(c))
            == apply_all_store(command_store(s, c), Seq::<EcsCommand>::empty()));
        assert(apply_all_store(s, cmds) == s);
    } else {
        assert(cmds.push(c)[0] == cmds[0]);
        assert(cmds.push(c).drop_first() =~= cmds.drop_first().push(c));
        assert(apply_all_store(s, cmds.push(c))
            == apply_all_store(command_store(s, cmds[0]), cmds.drop_first().push(c)));
        lemma_apply_all_store_push(command_store(s, cmds[0]), cmds.drop_first(), c);
        assert(apply_all_store(s, cmds)
            == apply_all_store(command_store(s, cmds[0]), cmds.drop_first()));
    }
}

/// Apply one intent command to the store and return the outbound events it
/// produces, in the order they must reach the clients.
pub fn apply_command(store: &mut EntityStore, cmd: EcsCommand) -> (events: Vec<ServerToClientMessage>)
    requires
        old(store).wf(),
    ensures
        final(store).wf(),
        final(store)@ == command_store(old(store)@, cmd),
        events@ == command_events(old(store)@, cmd),
{
    match cmd {
        EcsCommand::SpawnPlayer { player_id } => {
            let ghost s0 = store@;
            let mut events: Vec<ServerToClientMessage> = Vec::new();
            events.push(ServerToClientMessage::Broadcast {
                message: ServerMessage::PlayerJoined { player_id, x: 0, y: 0 },
            });
            let n = store.len();
            let mut i: usize = 0;
            while i < n
                invariant
                    store@ == s0,
                    store.wf(),
                    n == s0.len(),
                    i <= n,
                    events@ == seq![
                        ServerToClientMessage::Broadcast {
                            message: ServerMessage::PlayerJoined { player_id, x: 0, y: 0 },
                        },
                    ] + catchup_events(s0.take(i as int), player_id),
                decreases n - i,
            {
                let e = *store.get(i);
                proof {
                    assert(s0.take(i + 1).drop_last() =~= s0.take(i as int));
                    assert(s0.take(i + 1).last() == s0[i as int]);
                }
                if e.player.id != player_id {
                    events.push(ServerToClientMessage::SendToClient {
                        player_id,
                        message: ServerMessage::PlayerJoined {
                            player_id: e.player.id,
                            x: e.position.x,
                            y: e.position.y,
                        },
                    });
                }
                i = i + 1;
            }
            proof {
                assert(s0.take(n as int) =~= s0);
            }
            store.insert(player_id);
            events
        }
        EcsCommand::DespawnPlayer { player_id } => {
            store.remove(player_id);
            let mut events: Vec<ServerToClientMessage> = Vec::new();
            events.push(ServerToClientMessage::Broadcast {
                message: ServerMessage::PlayerLeft { player_id },
            });
            events
        }
        EcsCommand::UpdateVelocity { player_id, dx, dy } => {
            store.set_velocity(player_id, dx, dy);
            Vec::new()
        }
    }
}

} // verus!
