//! How a key command moves a pawn, the same on client and server.

use vstd::prelude::*;
use crate::shared::actors::PointActor;
use crate::shared::events::KeyCommand;

verus! {

/// The column a pawn at column `x` moves to under `cmd`: one to the right
/// when `d` is held, else one to the left when `a` is held, else none, with
/// `i32` wrapping around at its ends.
pub open spec fn moved_x(cmd: KeyCommand, x: i32) -> i32 {
    if cmd.d {
        x.wrapping_add(1)
    } else if cmd.a {
        x.wrapping_sub(1)
    } else {
        x
    }
}

/// The row a pawn at row `y` moves to under `cmd`: one down when `s` is
/// held, else one up when `w` is held, else none, with `i32` wrapping
/// around at its ends.
pub open spec fn moved_y(cmd: KeyCommand, y: i32) -> i32 {
    if cmd.s {
        y.wrapping_add(1)
    } else if cmd.w {
        y.wrapping_sub(1)
    } else {
        y
    }
}

/// Moves the pawn by one tile in each direction whose key the command
/// holds. Opposite keys do not cancel: down wins over up and right over
/// left, each step taken from the pawn's position before the command.
pub fn process_command(key_command: &KeyCommand, point_actor: &mut PointActor)
    ensures
        final(point_actor).x == moved_x(*key_command, old(point_actor).x),
        final(point_actor).y == moved_y(*key_command, old(point_actor).y),
        final(point_actor).color == old(point_actor).color,
{
    let old_x: i32 = point_actor.x;
    let old_y: i32 = point_actor.y;
    if key_command.w {
        point_actor.y = old_y.wrapping_sub(1);
    }
    if key_command.s {
        point_actor.y = old_y.wrapping_add(1);
    }
    if key_command.a {
        point_actor.x = old_x.wrapping_sub(1);
    }
    if key_command.d {
        point_actor.x = old_x.wrapping_add(1);
    }
}

} // verus!
