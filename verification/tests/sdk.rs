use tf2_trainer::sdk::{
    field_address, handle_index, vfunc_slot_address, Conditions, PlayerEntity, WeaponEntity,
    Weapons,
};

fn player(start: usize) -> PlayerEntity {
    PlayerEntity {
        start,
        health: 150,
        max_health: 125,
        lifestate: 0,
        flags: 257,
        team: 2,
        dormant: false,
    }
}

#[test]
fn condition_numbers_follow_the_game() {
    assert_eq!(Conditions::TF_COND_INVALID.id(), -1);
    assert_eq!(Conditions::TF_COND_AIMING.id(), 0);
    assert_eq!(Conditions::TF_COND_ZOOMED.id(), 1);
    assert_eq!(Conditions::TF_COND_HEALTH_OVERHEALED.id(), 23);
    assert_eq!(Conditions::TF_COND_SPEED_BOOST.id(), 32);
    assert_eq!(Conditions::TF_COND_CRITBOOSTED_ON_KILL.id(), 40);
    assert_eq!(Conditions::TF_COND_SAPPED.id(), 50);
    assert_eq!(Conditions::TF_COND_MEDIGUN_UBER_FIRE_RESIST.id(), 60);
    assert_eq!(Conditions::TF_COND_PREVENT_DEATH.id(), 70);
    assert_eq!(Conditions::TF_COND_HALLOWEEN_GHOST_MODE.id(), 77);
    assert_eq!(Conditions::TF_COND_PARACHUTE_DEPLOYED.id(), 80);
    assert_eq!(Conditions::TF_COND_BALLOON_HEAD.id(), 84);
    assert_eq!(Conditions::TF_COND_MELEE_ONLY.id(), 85);
    assert_eq!(Conditions::TF_COND_SWIMMING_NO_EFFECTS.id(), 107);
    assert_eq!(Conditions::TF_COND_GRAPPLED_BY_PLAYER.id(), 121);
}

#[test]
fn weapon_numbers_follow_the_game() {
    assert_eq!(Weapons::TF_WEAPON_NONE.id(), 0);
    assert_eq!(Weapons::TF_WEAPON_KNIFE.id(), 7);
    assert_eq!(Weapons::TF_WEAPON_PASSTIME_GUN.id(), 102);
}

#[test]
fn is_knife_checks_the_weapon_number() {
    let knife = WeaponEntity { start: 0x1000, weapon_id: 7, can_backstab: false };
    let bat = WeaponEntity { start: 0x1000, weapon_id: 1, can_backstab: true };
    assert!(knife.is_knife());
    assert!(!bat.is_knife());
    assert_eq!(knife.weapon_id(), 7);
    assert!(bat.can_backstab());
}

#[test]
fn handle_index_keeps_low_twelve_bits() {
    assert_eq!(handle_index(0x0012_3456), 0x456);
    assert_eq!(handle_index(0xFFF), 0xFFF);
    assert_eq!(handle_index(0x1000), 0);
    assert_eq!(handle_index(0xFFFF_FFFF), 0xFFF);
}

#[test]
fn vfunc_slot_address_steps_by_pointer_size() {
    let size = std::mem::size_of::<usize>();
    assert_eq!(vfunc_slot_address(0x1000, 0), 0x1000);
    assert_eq!(vfunc_slot_address(0x1000, 12), 0x1000 + 12 * size);
    assert_eq!(vfunc_slot_address(0x2000, 380), 0x2000 + 380 * size);
}

#[test]
fn field_address_adds_the_offset() {
    assert_eq!(field_address(0x4000, 0xA8), 0x40A8);
    assert_eq!(field_address(0x4000, 0), 0x4000);
}

#[test]
fn player_parts_and_fields() {
    let p = player(0x8000);
    assert_eq!(p.get_renderable(), 0x8004);
    assert_eq!(p.get_networkable(), 0x8008);
    assert_eq!(p.health(), 150);
    assert_eq!(p.max_health(), 125);
    assert_eq!(p.lifestate(), 0);
    assert_eq!(p.flags(), 257);
    assert_eq!(p.team(), 2);
    assert!(!p.is_dormant());
    assert!(p.is_alive());
}

#[test]
fn player_with_nonzero_lifestate_is_dead() {
    let mut p = player(0x8000);
    p.lifestate = 1;
    assert!(!p.is_alive());
    p.lifestate = 2;
    assert!(!p.is_alive());
}
