//! The decisions of the player ESP: which players get a box, how tall
//! their health bar is drawn, and in which colour.
use crate::sdk::PlayerEntity;
use vstd::prelude::*;

verus! {

/// Whether the ESP draws `ent` for the local player `local`: another
/// player, not dormant, alive, and on the other team.
pub fn is_esp_target(local: &PlayerEntity, ent: &PlayerEntity) -> (r: bool)
    ensures
        r == (ent.start != local.start && !ent.dormant && ent.lifestate == 0 && ent.team
            != local.team),
{
    !(ent.start == local.start || ent.is_dormant() || !ent.is_alive() || ent.team()
        == local.team())
}

/// The share of the box's height that the health bar covers: `None` for
/// the whole height, when the health is above the maximum (an overheal),
/// else `Some((health, max_health))` for `health / max_health` of it.
pub fn health_bar_scale(health: i32, max_health: i32) -> (r: Option<(i32, i32)>)
    ensures
        max_health < health ==> r == None::<(i32, i32)>,
        health <= max_health ==> r == Some((health, max_health)),
{
    if max_health < health {
        None
    } else {
        Some((health, max_health))
    }
}

/// A colour as red, green, blue and alpha components.
pub struct Color {
    pub r: i32,
    pub g: i32,
    pub b: i32,
    pub a: i32,
}

/// The health bar's colour: blue for an overhealed player, else green.
pub fn health_bar_color(overhealed: bool) -> (c: Color)
    ensures
        overhealed ==> c == (Color { r: 0, g: 0, b: 255, a: 255 }),
        !overhealed ==> c == (Color { r: 0, g: 255, b: 0, a: 255 }),
{
    if overhealed {
        Color { r: 0, g: 0, b: 255, a: 255 }
    } else {
        Color { r: 0, g: 255, b: 0, a: 255 }
    }
}

} // verus!
