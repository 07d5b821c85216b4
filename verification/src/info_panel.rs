//! The values the HUD shows.
//!
//! The status bar displays the player's health, charge and strike reserve
//! as whole display points; the info panel lists every drone. Drawing is
//! the overlay toolkit's business; which numbers appear is decided here.

use vstd::prelude::*;

use crate::drone;
use crate::vec3::div_t;

verus! {

/// A milli value as the HUD shows it: whole display points, truncated
/// towards zero and clamped to one unsigned byte.
pub open spec fn display_spec(millis: int) -> int {
    let w = div_t(millis, 1000);
    if w < 0 {
        0
    } else if w > 255 {
        255
    } else {
        w
    }
}

/// Render one milli value for the HUD.
pub fn display_value(millis: i64) -> (r: u8)
    ensures
        r as int == display_spec(millis as int),
{
    let w: i64 = millis / 1000;
    proof {
        if millis >= 0 {
            vstd::arithmetic::div_mod::lemma_div_pos_is_pos(millis as int, 1000);
        } else {
            vstd::arithmetic::div_mod::lemma_div_pos_is_pos(-(millis as int), 1000);
        }
    }
    if w < 0 {
        0
    } else if w > 255 {
        255
    } else {
        w as u8
    }
}

/// The player's health, charge and strike reserve as the status bar shows
/// them; all zero when no drone is the player. When several drones carry
/// the player flag, the last one listed wins, as the panel overwrites the
/// values while it walks the list.
pub open spec fn player_status_spec(drones: Seq<drone::Stats>) -> (int, int, int)
    decreases drones.len(),
{
    if drones.len() == 0 {
        (0, 0, 0)
    } else if drones.last().is_player {
        (
            display_spec(drones.last().health as int),
            display_spec(drones.last().charge as int),
            display_spec(drones.last().strike_charge as int),
        )
    } else {
        player_status_spec(drones.drop_last())
    }
}

/// Collect the status-bar values from the world's drones.
pub fn player_status(drones: &Vec<drone::Stats>) -> (r: (u8, u8, u8))
    ensures
        (r.0 as int, r.1 as int, r.2 as int) == player_status_spec(drones@),
{
    let mut health: u8 = 0;
    let mut charge: u8 = 0;
    let mut strike_charge: u8 = 0;
    let mut i: usize = 0;
    while i < drones.len()
        invariant
            0 <= i <= drones@.len(),
            (health as int, charge as int, strike_charge as int) == player_status_spec(
                drones@.take(i as int),
            ),
        decreases drones@.len() - i,
    {
        proof {
            assert(drones@.take(i + 1).drop_last() =~= drones@.take(i as int));
            assert(drones@.take(i + 1).last() == drones@[i as int]);
        }
        if drones[i].is_player {
            health = display_value(drones[i].health);
            charge = display_value(drones[i].charge);
            strike_charge = display_value(drones[i].strike_charge);
        }
        i = i + 1;
    }
    proof {
        assert(drones@.take(drones@.len() as int) =~= drones@);
    }
    (health, charge, strike_charge)
}

} // verus!
