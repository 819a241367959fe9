//! The rule that a world holds exactly one player and exactly one camera.
//!
//! The per-frame systems act on "the" player and "the" camera. A world with
//! none or with several of either is a setup fault: a system that meets it
//! reports it and never picks one of several.

use vstd::prelude::*;

verus! {

/// Why a per-frame system cannot run.
#[derive(Clone, Copy, Debug, PartialEq, Eq, Structural)]
pub enum WorldError {
    /// The world does not hold exactly one player.
    NoPlayerEntity,
    /// The world does not hold exactly one camera.
    NoCameraEntity,
}

/// What the movement system makes of a world with `players` players: it runs
/// where there is exactly one.
pub open spec fn movement_outcome(players: int) -> Result<(), WorldError> {
    if players == 1 {
        Ok(())
    } else {
        Err(WorldError::NoPlayerEntity)
    }
}

/// What the camera system makes of a world with `cameras` cameras and
/// `players` players: it looks for its sole camera first, then for the sole
/// player that the camera follows.
pub open spec fn camera_outcome(cameras: int, players: int) -> Result<(), WorldError> {
    if cameras != 1 {
        Err(WorldError::NoCameraEntity)
    } else if players != 1 {
        Err(WorldError::NoPlayerEntity)
    } else {
        Ok(())
    }
}

/// With no player or with several, both systems fail: the movement system for
/// want of a sole player, and so does the camera system once it has found its
/// sole camera.
pub proof fn lemma_systems_need_sole_player(cameras: int, players: int)
    requires
        players != 1,
    ensures
        movement_outcome(players) == Err::<(), WorldError>(WorldError::NoPlayerEntity),
        camera_outcome(cameras, players) is Err,
        cameras == 1 ==> camera_outcome(cameras, players) == Err::<(), WorldError>(
            WorldError::NoPlayerEntity,
        ),
{
}

/// Tells whether the movement system can run on a world with `players`
/// players.
pub fn check_movement(players: usize) -> (result: Result<(), WorldError>)
    ensures
        result == movement_outcome(players as int),
{
    if players == 1 {
        Ok(())
    } else {
        Err(WorldError::NoPlayerEntity)
    }
}

/// Tells whether the camera system can run on a world with `cameras` cameras
/// and `players` players.
pub fn check_camera(cameras: usize, players: usize) -> (result: Result<(), WorldError>)
    ensures
        result == camera_outcome(cameras as int, players as int),
{
    if cameras != 1 {
        Err(WorldError::NoCameraEntity)
    } else if players != 1 {
        Err(WorldError::NoPlayerEntity)
    } else {
        Ok(())
    }
}

} // verus!
