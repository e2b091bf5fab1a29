//! Plain data carried between the simulation core and the network layer.
//!
//! Player identifiers are the 128-bit value of the id the network layer
//! assigns at connection time. Spatial quantities are fixed-point integers:
//! thousandths of a world unit for positions and velocities, milliseconds for
//! simulated time.

use vstd::prelude::*;

verus! {

/// Identity of one simulated player.
#[derive(Clone, Copy, PartialEq, Eq, Structural, Debug)]
pub struct Player {
    pub id: u128,
}

/// A player's position, in thousandths of a world unit per axis.
#[derive(Clone, Copy, PartialEq, Eq, Structural, Debug)]
pub struct Position {
    pub x: i64,
    pub y: i64,
}

/// A player's velocity, in thousandths of a world unit per second per axis.
#[derive(Clone, Copy, PartialEq, Eq, Structural, Debug)]
pub struct Velocity {
    pub dx: i64,
    pub dy: i64,
}

/// An intent command produced by the network layer and consumed once, in
/// queue order, by the command processor.
#[derive(Clone, Copy, PartialEq, Eq, Structural, Debug)]
pub enum EcsCommand {
    SpawnPlayer { player_id: u128 },
    DespawnPlayer { player_id: u128 },
    UpdateVelocity { player_id: u128, dx: i64, dy: i64 },
}

/// One player's id and position as published in a snapshot.
#[derive(Clone, Copy, PartialEq, Eq, Structural, Debug)]
pub struct PlayerState {
    pub player_id: u128,
    pub x: i64,
    pub y: i64,
}

/// A payload destined for one or all clients.
#[derive(Debug)]
pub enum ServerMessage {
    PlayerJoined { player_id: u128, x: i64, y: i64 },
    PlayerState { players: Vec<PlayerState> },
    PlayerLeft { player_id: u128 },
}

/// A routed outbound event: the network layer delivers `SendToClient` to the
/// named player, `Broadcast` to every connected player, and treats
/// `PlayerDisconnected` as informational.
#[derive(Debug)]
pub enum ServerToClientMessage {
    SendToClient { player_id: u128, message: ServerMessage },
    Broadcast { message: ServerMessage },
    PlayerDisconnected { player_id: u128 },
}

} // verus!
