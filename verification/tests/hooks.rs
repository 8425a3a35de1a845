use tf2_trainer::hooks::{create_move_buttons, FL_ONGROUND, IN_ATTACK, IN_JUMP};
use tf2_trainer::sdk::WeaponEntity;

fn knife(ready: bool) -> WeaponEntity {
    WeaponEntity { start: 0x2000, weapon_id: 7, can_backstab: ready }
}

#[test]
fn jump_is_released_in_the_air() {
    assert_eq!(create_move_buttons(IN_JUMP, 0, None), 0);
    assert_eq!(create_move_buttons(IN_JUMP | IN_ATTACK, 0, None), IN_ATTACK);
    assert_eq!(create_move_buttons(IN_JUMP | 0x100, 0x100, None), 0x100);
}

#[test]
fn jump_is_kept_on_the_ground() {
    assert_eq!(create_move_buttons(IN_JUMP, FL_ONGROUND, None), IN_JUMP);
    assert_eq!(create_move_buttons(IN_JUMP | 0x200, 257, None), IN_JUMP | 0x200);
}

#[test]
fn ready_knife_attacks() {
    assert_eq!(create_move_buttons(0, FL_ONGROUND, Some(knife(true))), IN_ATTACK);
    assert_eq!(create_move_buttons(IN_JUMP, 0, Some(knife(true))), IN_ATTACK);
    assert_eq!(create_move_buttons(IN_ATTACK, FL_ONGROUND, Some(knife(true))), IN_ATTACK);
}

#[test]
fn unready_knife_or_other_weapon_does_not_attack() {
    assert_eq!(create_move_buttons(0, FL_ONGROUND, Some(knife(false))), 0);
    let bat = WeaponEntity { start: 0x2000, weapon_id: 1, can_backstab: true };
    assert_eq!(create_move_buttons(0, FL_ONGROUND, Some(bat)), 0);
    assert_eq!(create_move_buttons(0, FL_ONGROUND, None), 0);
}

#[test]
fn other_buttons_are_untouched() {
    let b = -1i32;
    assert_eq!(create_move_buttons(b, 0, None), b & !IN_JUMP);
    assert_eq!(create_move_buttons(b, FL_ONGROUND, Some(knife(true))), b);
    assert_eq!(create_move_buttons(0x7FFF_FFF0, 0, Some(knife(true))), 0x7FFF_FFF1);
}

#[test]
fn applying_the_rules_twice_changes_nothing() {
    for &b in &[0, 1, 2, 3, 0x4000_0002, -1] {
        for &f in &[0, 1, 256, 257] {
            for w in [None, Some(knife(true)), Some(knife(false))] {
                let once = create_move_buttons(b, f, w);
                assert_eq!(create_move_buttons(once, f, w), once);
            }
        }
    }
}
