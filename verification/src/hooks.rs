//! The input rules that the trainer applies to each user command the game
//! builds: jump only while on the ground, and attack whenever a knife is
//! ready to backstab.
use crate::sdk::WeaponEntity;
use vstd::prelude::*;

verus! {

/// The attack button of a user command.
pub const IN_ATTACK: i32 = 1;

/// The jump button of a user command.
pub const IN_JUMP: i32 = 2;

/// The player flag set while the player stands on the ground.
pub const FL_ONGROUND: i32 = 1;

/// Whether the trainer attacks for the player: the active weapon is a knife
/// that is ready to backstab.
pub open spec fn wants_backstab(weapon: Option<WeaponEntity>) -> bool {
    match weapon {
        Some(w) => w.weapon_id == crate::sdk::Weapons::TF_WEAPON_KNIFE.number() && w.can_backstab,
        None => false,
    }
}

/// The buttons after the movement rule: in the air the jump button is
/// released.
pub open spec fn bhop_buttons(buttons: i32, flags: i32) -> i32 {
    if flags & FL_ONGROUND == 0 {
        buttons & !IN_JUMP
    } else {
        buttons
    }
}

/// The buttons after both rules.
pub open spec fn spec_create_move_buttons(
    buttons: i32,
    flags: i32,
    weapon: Option<WeaponEntity>,
) -> i32 {
    let b = bhop_buttons(buttons, flags);
    if wants_backstab(weapon) {
        b | IN_ATTACK
    } else {
        b
    }
}

/// The buttons of a user command after the trainer's rules, for a local
/// player with movement flags `flags` holding `weapon`: the jump button is
/// released while the player is in the air, and the attack button pressed
/// while a knife is ready to backstab; every other button stays as it was.
pub fn create_move_buttons(buttons: i32, flags: i32, weapon: Option<WeaponEntity>) -> (r: i32)
    ensures
        r == spec_create_move_buttons(buttons, flags, weapon),
        r & !3i32 == buttons & !3i32,
        (r & IN_JUMP != 0) == (buttons & IN_JUMP != 0 && flags & FL_ONGROUND != 0),
        (r & IN_ATTACK != 0) == (buttons & IN_ATTACK != 0 || wants_backstab(weapon)),
{
    let mut b = buttons;
    if (flags & FL_ONGROUND) == 0 {
        b &= !IN_JUMP;
    }
    let backstab = match weapon {
        Some(w) => w.is_knife() && w.can_backstab(),
        None => false,
    };
    if backstab {
        b |= IN_ATTACK;
    }
    proof {
        let g = flags & 1 == 0;
        assert(r_bits(buttons, b, g, backstab)) by (bit_vector)
            requires
                b == (if backstab {
                    (if g { buttons & !2i32 } else { buttons }) | 1i32
                } else {
                    (if g { buttons & !2i32 } else { buttons })
                }),
        ;
    }
    b
}

spec fn r_bits(buttons: i32, r: i32, in_air: bool, backstab: bool) -> bool {
    &&& r & !3i32 == buttons & !3i32
    &&& (r & 2 != 0) == (buttons & 2 != 0 && !in_air)
    &&& (r & 1 != 0) == (buttons & 1 != 0 || backstab)
}

/// Applying the rules to a command that they already shaped changes
/// nothing.
pub proof fn lemma_create_move_idempotent(buttons: i32, flags: i32, weapon: Option<WeaponEntity>)
    ensures
        spec_create_move_buttons(
            spec_create_move_buttons(buttons, flags, weapon),
            flags,
            weapon,
        ) == spec_create_move_buttons(buttons, flags, weapon),
{
    let g = flags & FL_ONGROUND == 0;
    let w = wants_backstab(weapon);
    assert(idempotent_bits(buttons, g, w)) by (bit_vector);
}

spec fn shape(buttons: i32, in_air: bool, backstab: bool) -> i32 {
    let b = if in_air { buttons & !2i32 } else { buttons };
    if backstab { b | 1i32 } else { b }
}

spec fn idempotent_bits(buttons: i32, in_air: bool, backstab: bool) -> bool {
    shape(shape(buttons, in_air, backstab), in_air, backstab) == shape(buttons, in_air, backstab)
}

} // verus!
