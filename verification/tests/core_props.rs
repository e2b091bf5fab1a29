use farmworld_online_server::bridge::{broadcast_positions, process_commands, tick, CommandQueue, ServerToClientQueue};
use farmworld_online_server::broadcast::BroadcastTimer;
use farmworld_online_server::commands::apply_command;
use farmworld_online_server::messages::{EcsCommand, Position, ServerMessage, ServerToClientMessage};
use farmworld_online_server::motion::integrate;
use farmworld_online_server::store::EntityStore;

fn channel_pair() -> (
    tokio::sync::mpsc::UnboundedSender<EcsCommand>,
    CommandQueue,
    ServerToClientQueue,
    tokio::sync::mpsc::UnboundedReceiver<ServerToClientMessage>,
) {
    let (tx, rx) = tokio::sync::mpsc::unbounded_channel();
    let (sim_tx, sim_rx) = tokio::sync::mpsc::unbounded_channel();
    (tx, CommandQueue { rx }, ServerToClientQueue { tx: sim_tx }, sim_rx)
}

#[test]
fn test_despawn_absent_still_emits_player_left() {
    let (tx, mut queue, sim_to_client, mut sim_rx) = channel_pair();
    let mut store = EntityStore::new();

    tx.send(EcsCommand::DespawnPlayer { player_id: 5 }).unwrap();
    process_commands(&mut queue, &mut store, &sim_to_client);

    // The store is untouched, yet the departure is still announced.
    assert_eq!(store.len(), 0);
    match sim_rx.try_recv().unwrap() {
        ServerToClientMessage::Broadcast { message: ServerMessage::PlayerLeft { player_id } } => {
            assert_eq!(player_id, 5);
        }
        _ => panic!("Expected PlayerLeft broadcast"),
    }
    assert!(sim_rx.try_recv().is_err());
}

#[test]
fn test_spawn_existing_id_resets_without_duplicate() {
    let mut store = EntityStore::new();
    store.insert(7);
    store.set_position(0, Position { x: 9000, y: 9000 });
    store.set_velocity(7, 100, 100);

    // A second spawn of the same id resets the entity instead of duplicating it.
    store.insert(7);

    assert_eq!(store.len(), 1);
    let e = store.get(0);
    assert_eq!(e.player.id, 7);
    assert_eq!(e.position.x, 0);
    assert_eq!(e.position.y, 0);
    assert_eq!(e.velocity.dx, 0);
    assert_eq!(e.velocity.dy, 0);
}

#[test]
fn test_spawn_uniqueness_over_command_sequence() {
    let (tx, mut queue, sim_to_client, _sim_rx) = channel_pair();
    let mut store = EntityStore::new();

    tx.send(EcsCommand::SpawnPlayer { player_id: 1 }).unwrap();
    tx.send(EcsCommand::SpawnPlayer { player_id: 2 }).unwrap();
    tx.send(EcsCommand::SpawnPlayer { player_id: 1 }).unwrap();
    tx.send(EcsCommand::DespawnPlayer { player_id: 2 }).unwrap();
    tx.send(EcsCommand::SpawnPlayer { player_id: 2 }).unwrap();
    process_commands(&mut queue, &mut store, &sim_to_client);

    // At the tick boundary no player id occurs twice.
    assert_eq!(store.len(), 2);
    for i in 0..store.len() {
        for j in 0..store.len() {
            if i != j {
                assert_ne!(store.get(i).player.id, store.get(j).player.id);
            }
        }
    }
}

#[test]
fn test_velocity_unknown_id_leaves_store_unchanged() {
    let mut store = EntityStore::new();
    store.insert(3);
    store.set_position(0, Position { x: 111, y: 222 });
    store.set_velocity(3, 333, 444);

    let events = apply_command(&mut store, EcsCommand::UpdateVelocity {
        player_id: 8,
        dx: 5000,
        dy: 5000,
    });

    // Byte-for-byte unchanged, and silent.
    assert!(events.is_empty());
    assert_eq!(store.len(), 1);
    let e = store.get(0);
    assert_eq!(e.player.id, 3);
    assert_eq!(e.position.x, 111);
    assert_eq!(e.position.y, 222);
    assert_eq!(e.velocity.dx, 333);
    assert_eq!(e.velocity.dy, 444);
}

#[test]
fn test_throttle_gates_ticks_closer_than_interval() {
    let (_tx, mut _queue, sim_to_client, mut sim_rx) = channel_pair();
    let mut timer = BroadcastTimer::new();
    let mut store = EntityStore::new();
    store.insert(1);

    // First tick at 60 ms: due (60 >= 0 + 50), publishes.
    assert!(broadcast_positions(&store, &sim_to_client, 60, &mut timer));
    assert_eq!(timer.last_broadcast, 60);

    // Second tick 20 ms later: not due, publishes nothing.
    assert!(!broadcast_positions(&store, &sim_to_client, 80, &mut timer));
    assert_eq!(timer.last_broadcast, 60);

    let mut snapshots = 0;
    while let Ok(msg) = sim_rx.try_recv() {
        if let ServerToClientMessage::Broadcast { message: ServerMessage::PlayerState { .. } } = msg {
            snapshots += 1;
        }
    }
    assert_eq!(snapshots, 1);
}

#[test]
fn test_throttle_advances_monotonically_when_due() {
    let (_tx, mut _queue, sim_to_client, mut sim_rx) = channel_pair();
    let mut timer = BroadcastTimer::new();
    let store = EntityStore::new();

    // Two ticks separated by at least the interval each publish, and the
    // timer only ever moves forward.
    assert!(broadcast_positions(&store, &sim_to_client, 60, &mut timer));
    assert_eq!(timer.last_broadcast, 60);
    assert!(broadcast_positions(&store, &sim_to_client, 115, &mut timer));
    assert_eq!(timer.last_broadcast, 115);

    let mut snapshots = 0;
    while let Ok(msg) = sim_rx.try_recv() {
        if let ServerToClientMessage::Broadcast { message: ServerMessage::PlayerState { .. } } = msg {
            snapshots += 1;
        }
    }
    assert_eq!(snapshots, 2);
}

#[test]
fn test_join_catchup_ordering() {
    let mut store = EntityStore::new();
    // Players A (at (1, 2), in thousandths) and B are already present.
    store.insert(0xA);
    store.set_position(0, Position { x: 1000, y: 2000 });
    store.insert(0xB);
    store.set_position(1, Position { x: 3000, y: 4000 });

    // C joins.
    let events = apply_command(&mut store, EcsCommand::SpawnPlayer { player_id: 0xC });

    assert_eq!(events.len(), 3);
    match &events[0] {
        ServerToClientMessage::Broadcast { message: ServerMessage::PlayerJoined { player_id, x, y } } => {
            assert_eq!(*player_id, 0xC);
            assert_eq!(*x, 0);
            assert_eq!(*y, 0);
        }
        _ => panic!("Expected the join broadcast first"),
    }
    let mut saw_a = false;
    let mut saw_b = false;
    for ev in &events[1..] {
        match ev {
            ServerToClientMessage::SendToClient { player_id, message } => {
                assert_eq!(*player_id, 0xC);
                match message {
                    ServerMessage::PlayerJoined { player_id, x, y } => {
                        if *player_id == 0xA {
                            assert_eq!(*x, 1000);
                            assert_eq!(*y, 2000);
                            saw_a = true;
                        } else if *player_id == 0xB {
                            assert_eq!(*x, 3000);
                            assert_eq!(*y, 4000);
                            saw_b = true;
                        } else {
                            panic!("Catch-up for an unknown player");
                        }
                    }
                    _ => panic!("Expected a PlayerJoined catch-up"),
                }
            }
            _ => panic!("Expected every event after the broadcast to be a catch-up"),
        }
    }
    assert!(saw_a && saw_b);
}

#[test]
fn test_end_to_end_scenario() {
    let (tx, mut queue, sim_to_client, mut sim_rx) = channel_pair();
    let mut store = EntityStore::new();
    let mut timer = BroadcastTimer::new();

    tx.send(EcsCommand::SpawnPlayer { player_id: 1 }).unwrap();
    tx.send(EcsCommand::SpawnPlayer { player_id: 2 }).unwrap();
    tx.send(EcsCommand::UpdateVelocity { player_id: 1, dx: 1000, dy: 2000 }).unwrap();

    // One tick with one second elapsed, at unit speed.
    process_commands(&mut queue, &mut store, &sim_to_client);
    integrate(&mut store, 1, 1000);

    let p1 = store.get(0);
    assert_eq!(p1.player.id, 1);
    assert_eq!(p1.position.x, 1000);
    assert_eq!(p1.position.y, 2000);
    let p2 = store.get(1);
    assert_eq!(p2.player.id, 2);
    assert_eq!(p2.position.x, 0);
    assert_eq!(p2.position.y, 0);

    // A later due tick publishes a snapshot containing both players.
    assert!(broadcast_positions(&store, &sim_to_client, 50, &mut timer));
    let mut found = None;
    while let Ok(msg) = sim_rx.try_recv() {
        if let ServerToClientMessage::Broadcast { message: ServerMessage::PlayerState { players } } = msg {
            found = Some(players);
        }
    }
    let players = found.expect("Expected a snapshot broadcast");
    assert_eq!(players.len(), 2);
    let s1 = players.iter().find(|p| p.player_id == 1).unwrap();
    assert_eq!((s1.x, s1.y), (1000, 2000));
    let s2 = players.iter().find(|p| p.player_id == 2).unwrap();
    assert_eq!((s2.x, s2.y), (0, 0));
}

#[test]
fn test_commands_applied_in_fifo_order() {
    let (tx, mut queue, sim_to_client, mut sim_rx) = channel_pair();
    let mut store = EntityStore::new();

    tx.send(EcsCommand::SpawnPlayer { player_id: 4 }).unwrap();
    tx.send(EcsCommand::DespawnPlayer { player_id: 4 }).unwrap();
    process_commands(&mut queue, &mut store, &sim_to_client);

    // Spawn then despawn leaves the store empty, and the events come out in
    // command order.
    assert_eq!(store.len(), 0);
    match sim_rx.try_recv().unwrap() {
        ServerToClientMessage::Broadcast { message: ServerMessage::PlayerJoined { player_id, .. } } => {
            assert_eq!(player_id, 4);
        }
        _ => panic!("Expected the join broadcast first"),
    }
    match sim_rx.try_recv().unwrap() {
        ServerToClientMessage::Broadcast { message: ServerMessage::PlayerLeft { player_id } } => {
            assert_eq!(player_id, 4);
        }
        _ => panic!("Expected the leave broadcast second"),
    }
}

#[test]
fn test_closed_queue_signals_stop() {
    let (tx, mut queue, sim_to_client, _sim_rx) = channel_pair();
    let mut store = EntityStore::new();
    let mut timer = BroadcastTimer::new();

    // While a sender lives, the tick keeps going.
    let closed = tick(&mut queue, &mut store, &sim_to_client, &mut timer, 16, 16);
    assert!(!closed);

    // Once every sender is gone, the tick reports the stop signal.
    drop(tx);
    let closed = tick(&mut queue, &mut store, &sim_to_client, &mut timer, 16, 32);
    assert!(closed);
}

#[test]
fn test_tick_runs_full_pipeline() {
    let (tx, mut queue, sim_to_client, mut sim_rx) = channel_pair();
    let mut store = EntityStore::new();
    let mut timer = BroadcastTimer::new();

    tx.send(EcsCommand::SpawnPlayer { player_id: 9 }).unwrap();
    tx.send(EcsCommand::UpdateVelocity { player_id: 9, dx: 1000, dy: 0 }).unwrap();

    // Spawn, set velocity, integrate half a second at speed 300, publish.
    let closed = tick(&mut queue, &mut store, &sim_to_client, &mut timer, 500, 60);
    assert!(!closed);

    assert_eq!(store.len(), 1);
    let e = store.get(0);
    assert_eq!(e.position.x, 150_000); // 1.000 * 300 * 0.5s
    assert_eq!(e.position.y, 0);
    assert_eq!(timer.last_broadcast, 60);

    // The join broadcast precedes the snapshot, and the snapshot reflects the
    // integrated position of this very tick.
    match sim_rx.try_recv().unwrap() {
        ServerToClientMessage::Broadcast { message: ServerMessage::PlayerJoined { player_id, .. } } => {
            assert_eq!(player_id, 9);
        }
        _ => panic!("Expected the join broadcast first"),
    }
    match sim_rx.try_recv().unwrap() {
        ServerToClientMessage::Broadcast { message: ServerMessage::PlayerState { players } } => {
            assert_eq!(players.len(), 1);
            assert_eq!(players[0].player_id, 9);
            assert_eq!(players[0].x, 150_000);
            assert_eq!(players[0].y, 0);
        }
        _ => panic!("Expected the snapshot broadcast second"),
    }
}

#[test]
fn test_snapshot_of_empty_store() {
    let (_tx, mut _queue, sim_to_client, mut sim_rx) = channel_pair();
    let store = EntityStore::new();
    let mut timer = BroadcastTimer::new();

    assert!(broadcast_positions(&store, &sim_to_client, 100, &mut timer));
    match sim_rx.try_recv().unwrap() {
        ServerToClientMessage::Broadcast { message: ServerMessage::PlayerState { players } } => {
            assert!(players.is_empty());
        }
        _ => panic!("Expected an empty snapshot broadcast"),
    }
}

#[test]
fn test_position_saturates_at_representable_bound() {
    let mut store = EntityStore::new();
    store.insert(1);
    store.set_position(0, Position { x: i64::MAX - 10, y: i64::MIN + 10 });
    store.set_velocity(1, i64::MAX, i64::MIN);

    integrate(&mut store, 300, 1000);

    // The coordinates clamp at the representable range instead of wrapping.
    let pos = store.get(0).position;
    assert_eq!(pos.x, i64::MAX);
    assert_eq!(pos.y, i64::MIN);
}
