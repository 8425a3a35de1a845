//! The game's data as the trainer reads it: condition and weapon numbers,
//! snapshots of players and weapons, and the address arithmetic that
//! reaches fields and virtual functions.
use vstd::prelude::*;

verus! {

broadcast use vstd::layout::layout_of_primitives;

/// The conditions that a player can be in, in the game's order: the first
/// stands for no condition and is numbered -1, the others from 0 up.
#[allow(non_camel_case_types, dead_code)]
#[derive(Clone, Copy, Debug)]
pub enum Conditions {
    TF_COND_INVALID,
    TF_COND_AIMING,
    TF_COND_ZOOMED,
    TF_COND_DISGUISING,
    TF_COND_DISGUISED,
    TF_COND_STEALTHED,
    TF_COND_INVULNERABLE,
    TF_COND_TELEPORTED,
    TF_COND_TAUNTING,
    TF_COND_INVULNERABLE_WEARINGOFF,
    TF_COND_STEALTHED_BLINK,
    TF_COND_SELECTED_TO_TELEPORT,
    TF_COND_CRITBOOSTED,
    TF_COND_TMPDAMAGEBONUS,
    TF_COND_FEIGN_DEATH,
    TF_COND_PHASE,
    TF_COND_STUNNED,
    TF_COND_OFFENSEBUFF,
    TF_COND_SHIELD_CHARGE,
    TF_COND_DEMO_BUFF,
    TF_COND_ENERGY_BUFF,
    TF_COND_RADIUSHEAL,
    TF_COND_HEALTH_BUFF,
    TF_COND_BURNING,
    TF_COND_HEALTH_OVERHEALED,
    TF_COND_URINE,
    TF_COND_BLEEDING,
    TF_COND_DEFENSEBUFF,
    TF_COND_MAD_MILK,
    TF_COND_MEGAHEAL,
    TF_COND_REGENONDAMAGEBUFF,
    TF_COND_MARKEDFORDEATH,
    TF_COND_NOHEALINGDAMAGEBUFF,
    TF_COND_SPEED_BOOST,
    TF_COND_CRITBOOSTED_PUMPKIN,
    TF_COND_CRITBOOSTED_USER_BUFF,
    TF_COND_CRITBOOSTED_DEMO_CHARGE,
    TF_COND_SODAPOPPER_HYPE,
    TF_COND_CRITBOOSTED_FIRST_BLOOD,
    TF_COND_CRITBOOSTED_BONUS_TIME,
    TF_COND_CRITBOOSTED_CTF_CAPTURE,
    TF_COND_CRITBOOSTED_ON_KILL,
    TF_COND_CANNOT_SWITCH_FROM_MELEE,
    TF_COND_DEFENSEBUFF_NO_CRIT_BLOCK,
    TF_COND_REPROGRAMMED,
    TF_COND_CRITBOOSTED_RAGE_BUFF,
    TF_COND_DEFENSEBUFF_HIGH,
    TF_COND_SNIPERCHARGE_RAGE_BUFF,
    TF_COND_DISGUISE_WEARINGOFF,
    TF_COND_MARKEDFORDEATH_SILENT,
    TF_COND_DISGUISED_AS_DISPENSER,
    TF_COND_SAPPED,
    TF_COND_INVULNERABLE_HIDE_UNLESS_DAMAGED,
    TF_COND_INVULNERABLE_USER_BUFF,
    TF_COND_HALLOWEEN_BOMB_HEAD,
    TF_COND_HALLOWEEN_THRILLER,
    TF_COND_RADIUSHEAL_ON_DAMAGE,
    TF_COND_CRITBOOSTED_CARD_EFFECT,
    TF_COND_INVULNERABLE_CARD_EFFECT,
    TF_COND_MEDIGUN_UBER_BULLET_RESIST,
    TF_COND_MEDIGUN_UBER_BLAST_RESIST,
    TF_COND_MEDIGUN_UBER_FIRE_RESIST,
    TF_COND_MEDIGUN_SMALL_BULLET_RESIST,
    TF_COND_MEDIGUN_SMALL_BLAST_RESIST,
    TF_COND_MEDIGUN_SMALL_FIRE_RESIST,
    TF_COND_STEALTHED_USER_BUFF,
    TF_COND_MEDIGUN_DEBUFF,
    TF_COND_STEALTHED_USER_BUFF_FADING,
    TF_COND_BULLET_IMMUNE,
    TF_COND_BLAST_IMMUNE,
    TF_COND_FIRE_IMMUNE,
    TF_COND_PREVENT_DEATH,
    TF_COND_MVM_BOT_STUN_RADIOWAVE,
    TF_COND_HALLOWEEN_SPEED_BOOST,
    TF_COND_HALLOWEEN_QUICK_HEAL,
    TF_COND_HALLOWEEN_GIANT,
    TF_COND_HALLOWEEN_TINY,
    TF_COND_HALLOWEEN_IN_HELL,
    TF_COND_HALLOWEEN_GHOST_MODE,
    TF_COND_MINICRITBOOSTED_ON_KILL,
    TF_COND_OBSCURED_SMOKE,
    TF_COND_PARACHUTE_DEPLOYED,
    TF_COND_BLASTJUMPING,
    TF_COND_HALLOWEEN_KART,
    TF_COND_HALLOWEEN_KART_DASH,
    TF_COND_BALLOON_HEAD,
    TF_COND_MELEE_ONLY,
    TF_COND_SWIMMING_CURSE,
    TF_COND_FREEZE_INPUT,
    TF_COND_HALLOWEEN_KART_CAGE,
    TF_COND_DONOTUSE_0,
    TF_COND_RUNE_STRENGTH,
    TF_COND_RUNE_HASTE,
    TF_COND_RUNE_REGEN,
    TF_COND_RUNE_RESIST,
    TF_COND_RUNE_VAMPIRE,
    TF_COND_RUNE_REFLECT,
    TF_COND_RUNE_PRECISION,
    TF_COND_RUNE_AGILITY,
    TF_COND_GRAPPLINGHOOK,
    TF_COND_GRAPPLINGHOOK_SAFEFALL,
    TF_COND_GRAPPLINGHOOK_LATCHED,
    TF_COND_GRAPPLINGHOOK_BLEEDING,
    TF_COND_AFTERBURN_IMMUNE,
    TF_COND_RUNE_KNOCKOUT,
    TF_COND_RUNE_IMBALANCE,
    TF_COND_CRITBOOSTED_RUNE_TEMP,
    TF_COND_PASSTIME_INTERCEPTION,
    TF_COND_SWIMMING_NO_EFFECTS,
    TF_COND_PURGATORY,
    TF_COND_RUNE_KING,
    TF_COND_RUNE_PLAGUE,
    TF_COND_RUNE_SUPERNOVA,
    TF_COND_PLAGUE,
    TF_COND_KING_BUFFED,
    TF_COND_TEAM_GLOWS,
    TF_COND_KNOCKED_INTO_AIR,
    TF_COND_COMPETITIVE_WINNER,
    TF_COND_COMPETITIVE_LOSER,
    TF_COND_HEALING_DEBUFF,
    TF_COND_PASSTIME_PENALTY_DEBUFF,
    TF_COND_GRAPPLED_TO_PLAYER,
    TF_COND_GRAPPLED_BY_PLAYER,
}

impl Conditions {
    /// The number that the game gives this condition.
    pub open spec fn number(self) -> int {
        match self {
            Conditions::TF_COND_INVALID => -1,
            Conditions::TF_COND_AIMING => 0,
            Conditions::TF_COND_ZOOMED => 1,
            Conditions::TF_COND_DISGUISING => 2,
            Conditions::TF_COND_DISGUISED => 3,
            Conditions::TF_COND_STEALTHED => 4,
            Conditions::TF_COND_INVULNERABLE => 5,
            Conditions::TF_COND_TELEPORTED => 6,
            Conditions::TF_COND_TAUNTING => 7,
            Conditions::TF_COND_INVULNERABLE_WEARINGOFF => 8,
            Conditions::TF_COND_STEALTHED_BLINK => 9,
            Conditions::TF_COND_SELECTED_TO_TELEPORT => 10,
            Conditions::TF_COND_CRITBOOSTED => 11,
            Conditions::TF_COND_TMPDAMAGEBONUS => 12,
            Conditions::TF_COND_FEIGN_DEATH => 13,
            Conditions::TF_COND_PHASE => 14,
            Conditions::TF_COND_STUNNED => 15,
            Conditions::TF_COND_OFFENSEBUFF => 16,
            Conditions::TF_COND_SHIELD_CHARGE => 17,
            Conditions::TF_COND_DEMO_BUFF => 18,
            Conditions::TF_COND_ENERGY_BUFF => 19,
            Conditions::TF_COND_RADIUSHEAL => 20,
            Conditions::TF_COND_HEALTH_BUFF => 21,
            Conditions::TF_COND_BURNING => 22,
            Conditions::TF_COND_HEALTH_OVERHEALED => 23,
            Conditions::TF_COND_URINE => 24,
            Conditions::TF_COND_BLEEDING => 25,
            Conditions::TF_COND_DEFENSEBUFF => 26,
            Conditions::TF_COND_MAD_MILK => 27,
            Conditions::TF_COND_MEGAHEAL => 28,
            Conditions::TF_COND_REGENONDAMAGEBUFF => 29,
            Conditions::TF_COND_MARKEDFORDEATH => 30,
            Conditions::TF_COND_NOHEALINGDAMAGEBUFF => 31,
            Conditions::TF_COND_SPEED_BOOST => 32,
            Conditions::TF_COND_CRITBOOSTED_PUMPKIN => 33,
            Conditions::TF_COND_CRITBOOSTED_USER_BUFF => 34,
            Conditions::TF_COND_CRITBOOSTED_DEMO_CHARGE => 35,
            Conditions::TF_COND_SODAPOPPER_HYPE => 36,
            Conditions::TF_COND_CRITBOOSTED_FIRST_BLOOD => 37,
            Conditions::TF_COND_CRITBOOSTED_BONUS_TIME => 38,
            Conditions::TF_COND_CRITBOOSTED_CTF_CAPTURE => 39,
            Conditions::TF_COND_CRITBOOSTED_ON_KILL => 40,
            Conditions::TF_COND_CANNOT_SWITCH_FROM_MELEE => 41,
            Conditions::TF_COND_DEFENSEBUFF_NO_CRIT_BLOCK => 42,
            Conditions::TF_COND_REPROGRAMMED => 43,
            Conditions::TF_COND_CRITBOOSTED_RAGE_BUFF => 44,
            Conditions::TF_COND_DEFENSEBUFF_HIGH => 45,
            Conditions::TF_COND_SNIPERCHARGE_RAGE_BUFF => 46,
            Conditions::TF_COND_DISGUISE_WEARINGOFF => 47,
            Conditions::TF_COND_MARKEDFORDEATH_SILENT => 48,
            Conditions::TF_COND_DISGUISED_AS_DISPENSER => 49,
            Conditions::TF_COND_SAPPED => 50,
            Conditions::TF_COND_INVULNERABLE_HIDE_UNLESS_DAMAGED => 51,
            Conditions::TF_COND_INVULNERABLE_USER_BUFF => 52,
            Conditions::TF_COND_HALLOWEEN_BOMB_HEAD => 53,
            Conditions::TF_COND_HALLOWEEN_THRILLER => 54,
            Conditions::TF_COND_RADIUSHEAL_ON_DAMAGE => 55,
            Conditions::TF_COND_CRITBOOSTED_CARD_EFFECT => 56,
            Conditions::TF_COND_INVULNERABLE_CARD_EFFECT => 57,
            Conditions::TF_COND_MEDIGUN_UBER_BULLET_RESIST => 58,
            Conditions::TF_COND_MEDIGUN_UBER_BLAST_RESIST => 59,
            Conditions::TF_COND_MEDIGUN_UBER_FIRE_RESIST => 60,
            Conditions::TF_COND_MEDIGUN_SMALL_BULLET_RESIST => 61,
            Conditions::TF_COND_MEDIGUN_SMALL_BLAST_RESIST => 62,
            Conditions::TF_COND_MEDIGUN_SMALL_FIRE_RESIST => 63,
            Conditions::TF_COND_STEALTHED_USER_BUFF => 64,
            Conditions::TF_COND_MEDIGUN_DEBUFF => 65,
            Conditions::TF_COND_STEALTHED_USER_BUFF_FADING => 66,
            Conditions::TF_COND_BULLET_IMMUNE => 67,
            Conditions::TF_COND_BLAST_IMMUNE => 68,
            Conditions::TF_COND_FIRE_IMMUNE => 69,
            Conditions::TF_COND_PREVENT_DEATH => 70,
            Conditions::TF_COND_MVM_BOT_STUN_RADIOWAVE => 71,
            Conditions::TF_COND_HALLOWEEN_SPEED_BOOST => 72,
            Conditions::TF_COND_HALLOWEEN_QUICK_HEAL => 73,
            Conditions::TF_COND_HALLOWEEN_GIANT => 74,
            Conditions::TF_COND_HALLOWEEN_TINY => 75,
            Conditions::TF_COND_HALLOWEEN_IN_HELL => 76,
            Conditions::TF_COND_HALLOWEEN_GHOST_MODE => 77,
            Conditions::TF_COND_MINICRITBOOSTED_ON_KILL => 78,
            Conditions::TF_COND_OBSCURED_SMOKE => 79,
            Conditions::TF_COND_PARACHUTE_DEPLOYED => 80,
            Conditions::TF_COND_BLASTJUMPING => 81,
            Conditions::TF_COND_HALLOWEEN_KART => 82,
            Conditions::TF_COND_HALLOWEEN_KART_DASH => 83,
            Conditions::TF_COND_BALLOON_HEAD => 84,
            Conditions::TF_COND_MELEE_ONLY => 85,
            Conditions::TF_COND_SWIMMING_CURSE => 86,
            Conditions::TF_COND_FREEZE_INPUT => 87,
            Conditions::TF_COND_HALLOWEEN_KART_CAGE => 88,
            Conditions::TF_COND_DONOTUSE_0 => 89,
            Conditions::TF_COND_RUNE_STRENGTH => 90,
            Conditions::TF_COND_RUNE_HASTE => 91,
            Conditions::TF_COND_RUNE_REGEN => 92,
            Conditions::TF_COND_RUNE_RESIST => 93,
            Conditions::TF_COND_RUNE_VAMPIRE => 94,
            Conditions::TF_COND_RUNE_REFLECT => 95,
            Conditions::TF_COND_RUNE_PRECISION => 96,
            Conditions::TF_COND_RUNE_AGILITY => 97,
            Conditions::TF_COND_GRAPPLINGHOOK => 98,
            Conditions::TF_COND_GRAPPLINGHOOK_SAFEFALL => 99,
            Conditions::TF_COND_GRAPPLINGHOOK_LATCHED => 100,
            Conditions::TF_COND_GRAPPLINGHOOK_BLEEDING => 101,
            Conditions::TF_COND_AFTERBURN_IMMUNE => 102,
            Conditions::TF_COND_RUNE_KNOCKOUT => 103,
            Conditions::TF_COND_RUNE_IMBALANCE => 104,
            Conditions::TF_COND_CRITBOOSTED_RUNE_TEMP => 105,
            Conditions::TF_COND_PASSTIME_INTERCEPTION => 106,
            Conditions::TF_COND_SWIMMING_NO_EFFECTS => 107,
            Conditions::TF_COND_PURGATORY => 108,
            Conditions::TF_COND_RUNE_KING => 109,
            Conditions::TF_COND_RUNE_PLAGUE => 110,
            Conditions::TF_COND_RUNE_SUPERNOVA => 111,
            Conditions::TF_COND_PLAGUE => 112,
            Conditions::TF_COND_KING_BUFFED => 113,
            Conditions::TF_COND_TEAM_GLOWS => 114,
            Conditions::TF_COND_KNOCKED_INTO_AIR => 115,
            Conditions::TF_COND_COMPETITIVE_WINNER => 116,
            Conditions::TF_COND_COMPETITIVE_LOSER => 117,
            Conditions::TF_COND_HEALING_DEBUFF => 118,
            Conditions::TF_COND_PASSTIME_PENALTY_DEBUFF => 119,
            Conditions::TF_COND_GRAPPLED_TO_PLAYER => 120,
            Conditions::TF_COND_GRAPPLED_BY_PLAYER => 121,
        }
    }

    /// The number that the game gives this condition.
    pub fn id(&self) -> (r: i32)
        ensures
            r == self.number(),
    {
        match self {
            Conditions::TF_COND_INVALID => -1,
            Conditions::TF_COND_AIMING => 0,
            Conditions::TF_COND_ZOOMED => 1,
            Conditions::TF_COND_DISGUISING => 2,
            Conditions::TF_COND_DISGUISED => 3,
            Conditions::TF_COND_STEALTHED => 4,
            Conditions::TF_COND_INVULNERABLE => 5,
            Conditions::TF_COND_TELEPORTED => 6,
            Conditions::TF_COND_TAUNTING => 7,
            Conditions::TF_COND_INVULNERABLE_WEARINGOFF => 8,
            Conditions::TF_COND_STEALTHED_BLINK => 9,
            Conditions::TF_COND_SELECTED_TO_TELEPORT => 10,
            Conditions::TF_COND_CRITBOOSTED => 11,
            Conditions::TF_COND_TMPDAMAGEBONUS => 12,
            Conditions::TF_COND_FEIGN_DEATH => 13,
            Conditions::TF_COND_PHASE => 14,
            Conditions::TF_COND_STUNNED => 15,
            Conditions::TF_COND_OFFENSEBUFF => 16,
            Conditions::TF_COND_SHIELD_CHARGE => 17,
            Conditions::TF_COND_DEMO_BUFF => 18,
            Conditions::TF_COND_ENERGY_BUFF => 19,
            Conditions::TF_COND_RADIUSHEAL => 20,
            Conditions::TF_COND_HEALTH_BUFF => 21,
            Conditions::TF_COND_BURNING => 22,
            Conditions::TF_COND_HEALTH_OVERHEALED => 23,
            Conditions::TF_COND_URINE => 24,
            Conditions::TF_COND_BLEEDING => 25,
            Conditions::TF_COND_DEFENSEBUFF => 26,
            Conditions::TF_COND_MAD_MILK => 27,
            Conditions::TF_COND_MEGAHEAL => 28,
            Conditions::TF_COND_REGENONDAMAGEBUFF => 29,
            Conditions::TF_COND_MARKEDFORDEATH => 30,
            Conditions::TF_COND_NOHEALINGDAMAGEBUFF => 31,
            Conditions::TF_COND_SPEED_BOOST => 32,
            Conditions::TF_COND_CRITBOOSTED_PUMPKIN => 33,
            Conditions::TF_COND_CRITBOOSTED_USER_BUFF => 34,
            Conditions::TF_COND_CRITBOOSTED_DEMO_CHARGE => 35,
            Conditions::TF_COND_SODAPOPPER_HYPE => 36,
            Conditions::TF_COND_CRITBOOSTED_FIRST_BLOOD => 37,
            Conditions::TF_COND_CRITBOOSTED_BONUS_TIME => 38,
            Conditions::TF_COND_CRITBOOSTED_CTF_CAPTURE => 39,
            Conditions::TF_COND_CRITBOOSTED_ON_KILL => 40,
            Conditions::TF_COND_CANNOT_SWITCH_FROM_MELEE => 41,
            Conditions::TF_COND_DEFENSEBUFF_NO_CRIT_BLOCK => 42,
            Conditions::TF_COND_REPROGRAMMED => 43,
            Conditions::TF_COND_CRITBOOSTED_RAGE_BUFF => 44,
            Conditions::TF_COND_DEFENSEBUFF_HIGH => 45,
            Conditions::TF_COND_SNIPERCHARGE_RAGE_BUFF => 46,
            Conditions::TF_COND_DISGUISE_WEARINGOFF => 47,
            Conditions::TF_COND_MARKEDFORDEATH_SILENT => 48,
            Conditions::TF_COND_DISGUISED_AS_DISPENSER => 49,
            Conditions::TF_COND_SAPPED => 50,
            Conditions::TF_COND_INVULNERABLE_HIDE_UNLESS_DAMAGED => 51,
            Conditions::TF_COND_INVULNERABLE_USER_BUFF => 52,
            Conditions::TF_COND_HALLOWEEN_BOMB_HEAD => 53,
            Conditions::TF_COND_HALLOWEEN_THRILLER => 54,
            Conditions::TF_COND_RADIUSHEAL_ON_DAMAGE => 55,
            Conditions::TF_COND_CRITBOOSTED_CARD_EFFECT => 56,
            Conditions::TF_COND_INVULNERABLE_CARD_EFFECT => 57,
            Conditions::TF_COND_MEDIGUN_UBER_BULLET_RESIST => 58,
            Conditions::TF_COND_MEDIGUN_UBER_BLAST_RESIST => 59,
            Conditions::TF_COND_MEDIGUN_UBER_FIRE_RESIST => 60,
            Conditions::TF_COND_MEDIGUN_SMALL_BULLET_RESIST => 61,
            Conditions::TF_COND_MEDIGUN_SMALL_BLAST_RESIST => 62,
            Conditions::TF_COND_MEDIGUN_SMALL_FIRE_RESIST => 63,
            Conditions::TF_COND_STEALTHED_USER_BUFF => 64,
            Conditions::TF_COND_MEDIGUN_DEBUFF => 65,
            Conditions::TF_COND_STEALTHED_USER_BUFF_FADING => 66,
            Conditions::TF_COND_BULLET_IMMUNE => 67,
            Conditions::TF_COND_BLAST_IMMUNE => 68,
            Conditions::TF_COND_FIRE_IMMUNE => 69,
            Conditions::TF_COND_PREVENT_DEATH => 70,
            Conditions::TF_COND_MVM_BOT_STUN_RADIOWAVE => 71,
            Conditions::TF_COND_HALLOWEEN_SPEED_BOOST => 72,
            Conditions::TF_COND_HALLOWEEN_QUICK_HEAL => 73,
            Conditions::TF_COND_HALLOWEEN_GIANT => 74,
            Conditions::TF_COND_HALLOWEEN_TINY => 75,
            Conditions::TF_COND_HALLOWEEN_IN_HELL => 76,
            Conditions::TF_COND_HALLOWEEN_GHOST_MODE => 77,
            Conditions::TF_COND_MINICRITBOOSTED_ON_KILL => 78,
            Conditions::TF_COND_OBSCURED_SMOKE => 79,
            Conditions::TF_COND_PARACHUTE_DEPLOYED => 80,
            Conditions::TF_COND_BLASTJUMPING => 81,
            Conditions::TF_COND_HALLOWEEN_KART => 82,
            Conditions::TF_COND_HALLOWEEN_KART_DASH => 83,
            Conditions::TF_COND_BALLOON_HEAD => 84,
            Conditions::TF_COND_MELEE_ONLY => 85,
            Conditions::TF_COND_SWIMMING_CURSE => 86,
            Conditions::TF_COND_FREEZE_INPUT => 87,
            Conditions::TF_COND_HALLOWEEN_KART_CAGE => 88,
            Conditions::TF_COND_DONOTUSE_0 => 89,
            Conditions::TF_COND_RUNE_STRENGTH => 90,
            Conditions::TF_COND_RUNE_HASTE => 91,
            Conditions::TF_COND_RUNE_REGEN => 92,
            Conditions::TF_COND_RUNE_RESIST => 93,
            Conditions::TF_COND_RUNE_VAMPIRE => 94,
            Conditions::TF_COND_RUNE_REFLECT => 95,
            Conditions::TF_COND_RUNE_PRECISION => 96,
            Conditions::TF_COND_RUNE_AGILITY => 97,
            Conditions::TF_COND_GRAPPLINGHOOK => 98,
            Conditions::TF_COND_GRAPPLINGHOOK_SAFEFALL => 99,
            Conditions::TF_COND_GRAPPLINGHOOK_LATCHED => 100,
            Conditions::TF_COND_GRAPPLINGHOOK_BLEEDING => 101,
            Conditions::TF_COND_AFTERBURN_IMMUNE => 102,
            Conditions::TF_COND_RUNE_KNOCKOUT => 103,
            Conditions::TF_COND_RUNE_IMBALANCE => 104,
            Conditions::TF_COND_CRITBOOSTED_RUNE_TEMP => 105,
            Conditions::TF_COND_PASSTIME_INTERCEPTION => 106,
            Conditions::TF_COND_SWIMMING_NO_EFFECTS => 107,
            Conditions::TF_COND_PURGATORY => 108,
            Conditions::TF_COND_RUNE_KING => 109,
            Conditions::TF_COND_RUNE_PLAGUE => 110,
            Conditions::TF_COND_RUNE_SUPERNOVA => 111,
            Conditions::TF_COND_PLAGUE => 112,
            Conditions::TF_COND_KING_BUFFED => 113,
            Conditions::TF_COND_TEAM_GLOWS => 114,
            Conditions::TF_COND_KNOCKED_INTO_AIR => 115,
            Conditions::TF_COND_COMPETITIVE_WINNER => 116,
            Conditions::TF_COND_COMPETITIVE_LOSER => 117,
            Conditions::TF_COND_HEALING_DEBUFF => 118,
            Conditions::TF_COND_PASSTIME_PENALTY_DEBUFF => 119,
            Conditions::TF_COND_GRAPPLED_TO_PLAYER => 120,
            Conditions::TF_COND_GRAPPLED_BY_PLAYER => 121,
        }
    }
}

/// The game's weapon kinds, in the game's order, numbered from 0 up.
#[allow(non_camel_case_types, dead_code)]
#[derive(Clone, Copy, Debug)]
pub enum Weapons {
    TF_WEAPON_NONE,
    TF_WEAPON_BAT,
    TF_WEAPON_BAT_WOOD,
    TF_WEAPON_BOTTLE,
    TF_WEAPON_FIREAXE,
    TF_WEAPON_CLUB,
    TF_WEAPON_CROWBAR,
    TF_WEAPON_KNIFE,
    TF_WEAPON_FISTS,
    TF_WEAPON_SHOVEL,
    TF_WEAPON_WRENCH,
    TF_WEAPON_BONESAW,
    TF_WEAPON_SHOTGUN_PRIMARY,
    TF_WEAPON_SHOTGUN_SOLDIER,
    TF_WEAPON_SHOTGUN_HWG,
    TF_WEAPON_SHOTGUN_PYRO,
    TF_WEAPON_SCATTERGUN,
    TF_WEAPON_SNIPERRIFLE,
    TF_WEAPON_MINIGUN,
    TF_WEAPON_SMG,
    TF_WEAPON_SYRINGEGUN_MEDIC,
    TF_WEAPON_TRANQ,
    TF_WEAPON_ROCKETLAUNCHER,
    TF_WEAPON_GRENADELAUNCHER,
    TF_WEAPON_PIPEBOMBLAUNCHER,
    TF_WEAPON_FLAMETHROWER,
    TF_WEAPON_GRENADE_NORMAL,
    TF_WEAPON_GRENADE_CONCUSSION,
    TF_WEAPON_GRENADE_NAIL,
    TF_WEAPON_GRENADE_MIRV,
    TF_WEAPON_GRENADE_MIRV_DEMOMAN,
    TF_WEAPON_GRENADE_NAPALM,
    TF_WEAPON_GRENADE_GAS,
    TF_WEAPON_GRENADE_EMP,
    TF_WEAPON_GRENADE_CALTROP,
    TF_WEAPON_GRENADE_PIPEBOMB,
    TF_WEAPON_GRENADE_SMOKE_BOMB,
    TF_WEAPON_GRENADE_HEAL,
    TF_WEAPON_GRENADE_STUNBALL,
    TF_WEAPON_GRENADE_JAR,
    TF_WEAPON_GRENADE_JAR_MILK,
    TF_WEAPON_PISTOL,
    TF_WEAPON_PISTOL_SCOUT,
    TF_WEAPON_REVOLVER,
    TF_WEAPON_NAILGUN,
    TF_WEAPON_PDA,
    TF_WEAPON_PDA_ENGINEER_BUILD,
    TF_WEAPON_PDA_ENGINEER_DESTROY,
    TF_WEAPON_PDA_SPY,
    TF_WEAPON_BUILDER,
    TF_WEAPON_MEDIGUN,
    TF_WEAPON_GRENADE_MIRVBOMB,
    TF_WEAPON_FLAMETHROWER_ROCKET,
    TF_WEAPON_GRENADE_DEMOMAN,
    TF_WEAPON_SENTRY_BULLET,
    TF_WEAPON_SENTRY_ROCKET,
    TF_WEAPON_DISPENSER,
    TF_WEAPON_INVIS,
    TF_WEAPON_FLAREGUN,
    TF_WEAPON_LUNCHBOX,
    TF_WEAPON_JAR,
    TF_WEAPON_COMPOUND_BOW,
    TF_WEAPON_BUFF_ITEM,
    TF_WEAPON_PUMPKIN_BOMB,
    TF_WEAPON_SWORD,
    TF_WEAPON_ROCKETLAUNCHER_DIRECTHIT,
    TF_WEAPON_LIFELINE,
    TF_WEAPON_LASER_POINTER,
    TF_WEAPON_DISPENSER_GUN,
    TF_WEAPON_SENTRY_REVENGE,
    TF_WEAPON_JAR_MILK,
    TF_WEAPON_HANDGUN_SCOUT_PRIMARY,
    TF_WEAPON_BAT_FISH,
    TF_WEAPON_CROSSBOW,
    TF_WEAPON_STICKBOMB,
    TF_WEAPON_HANDGUN_SCOUT_SECONDARY,
    TF_WEAPON_SODA_POPPER,
    TF_WEAPON_SNIPERRIFLE_DECAP,
    TF_WEAPON_RAYGUN,
    TF_WEAPON_PARTICLE_CANNON,
    TF_WEAPON_MECHANICAL_ARM,
    TF_WEAPON_DRG_POMSON,
    TF_WEAPON_BAT_GIFTWRAP,
    TF_WEAPON_GRENADE_ORNAMENT_BALL,
    TF_WEAPON_FLAREGUN_REVENGE,
    TF_WEAPON_PEP_BRAWLER_BLASTER,
    TF_WEAPON_CLEAVER,
    TF_WEAPON_GRENADE_CLEAVER,
    TF_WEAPON_STICKY_BALL_LAUNCHER,
    TF_WEAPON_GRENADE_STICKY_BALL,
    TF_WEAPON_SHOTGUN_BUILDING_RESCUE,
    TF_WEAPON_CANNON,
    TF_WEAPON_THROWABLE,
    TF_WEAPON_GRENADE_THROWABLE,
    TF_WEAPON_PDA_SPY_BUILD,
    TF_WEAPON_GRENADE_WATERBALLOON,
    TF_WEAPON_HARVESTER_SAW,
    TF_WEAPON_SPELLBOOK,
    TF_WEAPON_SPELLBOOK_PROJECTILE,
    TF_WEAPON_SNIPERRIFLE_CLASSIC,
    TF_WEAPON_PARACHUTE,
    TF_WEAPON_GRAPPLINGHOOK,
    TF_WEAPON_PASSTIME_GUN,
}

impl Weapons {
    /// The number that the game gives this weapon kind.
    pub open spec fn number(self) -> int {
        match self {
            Weapons::TF_WEAPON_NONE => 0,
            Weapons::TF_WEAPON_BAT => 1,
            Weapons::TF_WEAPON_BAT_WOOD => 2,
            Weapons::TF_WEAPON_BOTTLE => 3,
            Weapons::TF_WEAPON_FIREAXE => 4,
            Weapons::TF_WEAPON_CLUB => 5,
            Weapons::TF_WEAPON_CROWBAR => 6,
            Weapons::TF_WEAPON_KNIFE => 7,
            Weapons::TF_WEAPON_FISTS => 8,
            Weapons::TF_WEAPON_SHOVEL => 9,
            Weapons::TF_WEAPON_WRENCH => 10,
            Weapons::TF_WEAPON_BONESAW => 11,
            Weapons::TF_WEAPON_SHOTGUN_PRIMARY => 12,
            Weapons::TF_WEAPON_SHOTGUN_SOLDIER => 13,
            Weapons::TF_WEAPON_SHOTGUN_HWG => 14,
            Weapons::TF_WEAPON_SHOTGUN_PYRO => 15,
            Weapons::TF_WEAPON_SCATTERGUN => 16,
            Weapons::TF_WEAPON_SNIPERRIFLE => 17,
            Weapons::TF_WEAPON_MINIGUN => 18,
            Weapons::TF_WEAPON_SMG => 19,
            Weapons::TF_WEAPON_SYRINGEGUN_MEDIC => 20,
            Weapons::TF_WEAPON_TRANQ => 21,
            Weapons::TF_WEAPON_ROCKETLAUNCHER => 22,
            Weapons::TF_WEAPON_GRENADELAUNCHER => 23,
            Weapons::TF_WEAPON_PIPEBOMBLAUNCHER => 24,
            Weapons::TF_WEAPON_FLAMETHROWER => 25,
            Weapons::TF_WEAPON_GRENADE_NORMAL => 26,
            Weapons::TF_WEAPON_GRENADE_CONCUSSION => 27,
            Weapons::TF_WEAPON_GRENADE_NAIL => 28,
            Weapons::TF_WEAPON_GRENADE_MIRV => 29,
            Weapons::TF_WEAPON_GRENADE_MIRV_DEMOMAN => 30,
            Weapons::TF_WEAPON_GRENADE_NAPALM => 31,
            Weapons::TF_WEAPON_GRENADE_GAS => 32,
            Weapons::TF_WEAPON_GRENADE_EMP => 33,
            Weapons::TF_WEAPON_GRENADE_CALTROP => 34,
            Weapons::TF_WEAPON_GRENADE_PIPEBOMB => 35,
            Weapons::TF_WEAPON_GRENADE_SMOKE_BOMB => 36,
            Weapons::TF_WEAPON_GRENADE_HEAL => 37,
            Weapons::TF_WEAPON_GRENADE_STUNBALL => 38,
            Weapons::TF_WEAPON_GRENADE_JAR => 39,
            Weapons::TF_WEAPON_GRENADE_JAR_MILK => 40,
            Weapons::TF_WEAPON_PISTOL => 41,
            Weapons::TF_WEAPON_PISTOL_SCOUT => 42,
            Weapons::TF_WEAPON_REVOLVER => 43,
            Weapons::TF_WEAPON_NAILGUN => 44,
            Weapons::TF_WEAPON_PDA => 45,
            Weapons::TF_WEAPON_PDA_ENGINEER_BUILD => 46,
            Weapons::TF_WEAPON_PDA_ENGINEER_DESTROY => 47,
            Weapons::TF_WEAPON_PDA_SPY => 48,
            Weapons::TF_WEAPON_BUILDER => 49,
            Weapons::TF_WEAPON_MEDIGUN => 50,
            Weapons::TF_WEAPON_GRENADE_MIRVBOMB => 51,
            Weapons::TF_WEAPON_FLAMETHROWER_ROCKET => 52,
            Weapons::TF_WEAPON_GRENADE_DEMOMAN => 53,
            Weapons::TF_WEAPON_SENTRY_BULLET => 54,
            Weapons::TF_WEAPON_SENTRY_ROCKET => 55,
            Weapons::TF_WEAPON_DISPENSER => 56,
            Weapons::TF_WEAPON_INVIS => 57,
            Weapons::TF_WEAPON_FLAREGUN => 58,
            Weapons::TF_WEAPON_LUNCHBOX => 59,
            Weapons::TF_WEAPON_JAR => 60,
            Weapons::TF_WEAPON_COMPOUND_BOW => 61,
            Weapons::TF_WEAPON_BUFF_ITEM => 62,
            Weapons::TF_WEAPON_PUMPKIN_BOMB => 63,
            Weapons::TF_WEAPON_SWORD => 64,
            Weapons::TF_WEAPON_ROCKETLAUNCHER_DIRECTHIT => 65,
            Weapons::TF_WEAPON_LIFELINE => 66,
            Weapons::TF_WEAPON_LASER_POINTER => 67,
            Weapons::TF_WEAPON_DISPENSER_GUN => 68,
            Weapons::TF_WEAPON_SENTRY_REVENGE => 69,
            Weapons::TF_WEAPON_JAR_MILK => 70,
            Weapons::TF_WEAPON_HANDGUN_SCOUT_PRIMARY => 71,
            Weapons::TF_WEAPON_BAT_FISH => 72,
            Weapons::TF_WEAPON_CROSSBOW => 73,
            Weapons::TF_WEAPON_STICKBOMB => 74,
            Weapons::TF_WEAPON_HANDGUN_SCOUT_SECONDARY => 75,
            Weapons::TF_WEAPON_SODA_POPPER => 76,
            Weapons::TF_WEAPON_SNIPERRIFLE_DECAP => 77,
            Weapons::TF_WEAPON_RAYGUN => 78,
            Weapons::TF_WEAPON_PARTICLE_CANNON => 79,
            Weapons::TF_WEAPON_MECHANICAL_ARM => 80,
            Weapons::TF_WEAPON_DRG_POMSON => 81,
            Weapons::TF_WEAPON_BAT_GIFTWRAP => 82,
            Weapons::TF_WEAPON_GRENADE_ORNAMENT_BALL => 83,
            Weapons::TF_WEAPON_FLAREGUN_REVENGE => 84,
            Weapons::TF_WEAPON_PEP_BRAWLER_BLASTER => 85,
            Weapons::TF_WEAPON_CLEAVER => 86,
            Weapons::TF_WEAPON_GRENADE_CLEAVER => 87,
            Weapons::TF_WEAPON_STICKY_BALL_LAUNCHER => 88,
            Weapons::TF_WEAPON_GRENADE_STICKY_BALL => 89,
            Weapons::TF_WEAPON_SHOTGUN_BUILDING_RESCUE => 90,
            Weapons::TF_WEAPON_CANNON => 91,
            Weapons::TF_WEAPON_THROWABLE => 92,
            Weapons::TF_WEAPON_GRENADE_THROWABLE => 93,
            Weapons::TF_WEAPON_PDA_SPY_BUILD => 94,
            Weapons::TF_WEAPON_GRENADE_WATERBALLOON => 95,
            Weapons::TF_WEAPON_HARVESTER_SAW => 96,
            Weapons::TF_WEAPON_SPELLBOOK => 97,
            Weapons::TF_WEAPON_SPELLBOOK_PROJECTILE => 98,
            Weapons::TF_WEAPON_SNIPERRIFLE_CLASSIC => 99,
            Weapons::TF_WEAPON_PARACHUTE => 100,
            Weapons::TF_WEAPON_GRAPPLINGHOOK => 101,
            Weapons::TF_WEAPON_PASSTIME_GUN => 102,
        }
    }

    /// The number that the game gives this weapon kind.
    pub fn id(&self) -> (r: i32)
        ensures
            r == self.number(),
    {
        match self {
            Weapons::TF_WEAPON_NONE => 0,
            Weapons::TF_WEAPON_BAT => 1,
            Weapons::TF_WEAPON_BAT_WOOD => 2,
            Weapons::TF_WEAPON_BOTTLE => 3,
            Weapons::TF_WEAPON_FIREAXE => 4,
            Weapons::TF_WEAPON_CLUB => 5,
            Weapons::TF_WEAPON_CROWBAR => 6,
            Weapons::TF_WEAPON_KNIFE => 7,
            Weapons::TF_WEAPON_FISTS => 8,
            Weapons::TF_WEAPON_SHOVEL => 9,
            Weapons::TF_WEAPON_WRENCH => 10,
            Weapons::TF_WEAPON_BONESAW => 11,
            Weapons::TF_WEAPON_SHOTGUN_PRIMARY => 12,
            Weapons::TF_WEAPON_SHOTGUN_SOLDIER => 13,
            Weapons::TF_WEAPON_SHOTGUN_HWG => 14,
            Weapons::TF_WEAPON_SHOTGUN_PYRO => 15,
            Weapons::TF_WEAPON_SCATTERGUN => 16,
            Weapons::TF_WEAPON_SNIPERRIFLE => 17,
            Weapons::TF_WEAPON_MINIGUN => 18,
            Weapons::TF_WEAPON_SMG => 19,
            Weapons::TF_WEAPON_SYRINGEGUN_MEDIC => 20,
            Weapons::TF_WEAPON_TRANQ => 21,
            Weapons::TF_WEAPON_ROCKETLAUNCHER => 22,
            Weapons::TF_WEAPON_GRENADELAUNCHER => 23,
            Weapons::TF_WEAPON_PIPEBOMBLAUNCHER => 24,
            Weapons::TF_WEAPON_FLAMETHROWER => 25,
            Weapons::TF_WEAPON_GRENADE_NORMAL => 26,
            Weapons::TF_WEAPON_GRENADE_CONCUSSION => 27,
            Weapons::TF_WEAPON_GRENADE_NAIL => 28,
            Weapons::TF_WEAPON_GRENADE_MIRV => 29,
            Weapons::TF_WEAPON_GRENADE_MIRV_DEMOMAN => 30,
            Weapons::TF_WEAPON_GRENADE_NAPALM => 31,
            Weapons::TF_WEAPON_GRENADE_GAS => 32,
            Weapons::TF_WEAPON_GRENADE_EMP => 33,
            Weapons::TF_WEAPON_GRENADE_CALTROP => 34,
            Weapons::TF_WEAPON_GRENADE_PIPEBOMB => 35,
            Weapons::TF_WEAPON_GRENADE_SMOKE_BOMB => 36,
            Weapons::TF_WEAPON_GRENADE_HEAL => 37,
            Weapons::TF_WEAPON_GRENADE_STUNBALL => 38,
            Weapons::TF_WEAPON_GRENADE_JAR => 39,
            Weapons::TF_WEAPON_GRENADE_JAR_MILK => 40,
            Weapons::TF_WEAPON_PISTOL => 41,
            Weapons::TF_WEAPON_PISTOL_SCOUT => 42,
            Weapons::TF_WEAPON_REVOLVER => 43,
            Weapons::TF_WEAPON_NAILGUN => 44,
            Weapons::TF_WEAPON_PDA => 45,
            Weapons::TF_WEAPON_PDA_ENGINEER_BUILD => 46,
            Weapons::TF_WEAPON_PDA_ENGINEER_DESTROY => 47,
            Weapons::TF_WEAPON_PDA_SPY => 48,
            Weapons::TF_WEAPON_BUILDER => 49,
            Weapons::TF_WEAPON_MEDIGUN => 50,
            Weapons::TF_WEAPON_GRENADE_MIRVBOMB => 51,
            Weapons::TF_WEAPON_FLAMETHROWER_ROCKET => 52,
            Weapons::TF_WEAPON_GRENADE_DEMOMAN => 53,
            Weapons::TF_WEAPON_SENTRY_BULLET => 54,
            Weapons::TF_WEAPON_SENTRY_ROCKET => 55,
            Weapons::TF_WEAPON_DISPENSER => 56,
            Weapons::TF_WEAPON_INVIS => 57,
            Weapons::TF_WEAPON_FLAREGUN => 58,
            Weapons::TF_WEAPON_LUNCHBOX => 59,
            Weapons::TF_WEAPON_JAR => 60,
            Weapons::TF_WEAPON_COMPOUND_BOW => 61,
            Weapons::TF_WEAPON_BUFF_ITEM => 62,
            Weapons::TF_WEAPON_PUMPKIN_BOMB => 63,
            Weapons::TF_WEAPON_SWORD => 64,
            Weapons::TF_WEAPON_ROCKETLAUNCHER_DIRECTHIT => 65,
            Weapons::TF_WEAPON_LIFELINE => 66,
            Weapons::TF_WEAPON_LASER_POINTER => 67,
            Weapons::TF_WEAPON_DISPENSER_GUN => 68,
            Weapons::TF_WEAPON_SENTRY_REVENGE => 69,
            Weapons::TF_WEAPON_JAR_MILK => 70,
            Weapons::TF_WEAPON_HANDGUN_SCOUT_PRIMARY => 71,
            Weapons::TF_WEAPON_BAT_FISH => 72,
            Weapons::TF_WEAPON_CROSSBOW => 73,
            Weapons::TF_WEAPON_STICKBOMB => 74,
            Weapons::TF_WEAPON_HANDGUN_SCOUT_SECONDARY => 75,
            Weapons::TF_WEAPON_SODA_POPPER => 76,
            Weapons::TF_WEAPON_SNIPERRIFLE_DECAP => 77,
            Weapons::TF_WEAPON_RAYGUN => 78,
            Weapons::TF_WEAPON_PARTICLE_CANNON => 79,
            Weapons::TF_WEAPON_MECHANICAL_ARM => 80,
            Weapons::TF_WEAPON_DRG_POMSON => 81,
            Weapons::TF_WEAPON_BAT_GIFTWRAP => 82,
            Weapons::TF_WEAPON_GRENADE_ORNAMENT_BALL => 83,
            Weapons::TF_WEAPON_FLAREGUN_REVENGE => 84,
            Weapons::TF_WEAPON_PEP_BRAWLER_BLASTER => 85,
            Weapons::TF_WEAPON_CLEAVER => 86,
            Weapons::TF_WEAPON_GRENADE_CLEAVER => 87,
            Weapons::TF_WEAPON_STICKY_BALL_LAUNCHER => 88,
            Weapons::TF_WEAPON_GRENADE_STICKY_BALL => 89,
            Weapons::TF_WEAPON_SHOTGUN_BUILDING_RESCUE => 90,
            Weapons::TF_WEAPON_CANNON => 91,
            Weapons::TF_WEAPON_THROWABLE => 92,
            Weapons::TF_WEAPON_GRENADE_THROWABLE => 93,
            Weapons::TF_WEAPON_PDA_SPY_BUILD => 94,
            Weapons::TF_WEAPON_GRENADE_WATERBALLOON => 95,
            Weapons::TF_WEAPON_HARVESTER_SAW => 96,
            Weapons::TF_WEAPON_SPELLBOOK => 97,
            Weapons::TF_WEAPON_SPELLBOOK_PROJECTILE => 98,
            Weapons::TF_WEAPON_SNIPERRIFLE_CLASSIC => 99,
            Weapons::TF_WEAPON_PARACHUTE => 100,
            Weapons::TF_WEAPON_GRAPPLINGHOOK => 101,
            Weapons::TF_WEAPON_PASSTIME_GUN => 102,
        }
    }
}

/// The address of the `index`-th entry of the virtual function table that
/// starts at `vtable`: entries are pointer-sized.
pub fn vfunc_slot_address(vtable: usize, index: usize) -> (r: usize)
    requires
        vtable + vstd::layout::size_of::<usize>() * index <= usize::MAX,
    ensures
        r == vtable + vstd::layout::size_of::<usize>() * index,
{
    let size = core::mem::size_of::<usize>();
    proof {
        assert(size * index <= vtable + size * index) by (nonlinear_arith)
            requires
                0 <= vtable,
                0 <= size * index,
        ;
    }
    vtable + size * index
}

/// The address of the field at byte offset `offset` of the object at
/// `start`.
pub fn field_address(start: usize, offset: usize) -> (r: usize)
    requires
        start + offset <= usize::MAX,
    ensures
        r == start + offset,
{
    start + offset
}

/// The entity list index that an entity handle names: its low 12 bits.
pub fn handle_index(handle: usize) -> (r: i32)
    ensures
        r == handle % 4096,
{
    let r = handle as i32 & 0xFFF;
    assert(r == handle % 4096) by (bit_vector)
        requires
            r == (handle as i32) & 0xFFF,
    ;
    r
}

/// A weapon, as the trainer reads it from the game.
#[derive(Clone, Copy, Debug)]
pub struct WeaponEntity {
    /// The weapon object's address.
    pub start: usize,
    /// The weapon kind's number.
    pub weapon_id: i32,
    /// Whether a knife is ready to backstab (`m_bReadyToBackstab`).
    pub can_backstab: bool,
}

impl WeaponEntity {
    pub fn can_backstab(&self) -> (r: bool)
        ensures
            r == self.can_backstab,
    {
        self.can_backstab
    }

    pub fn weapon_id(&self) -> (r: i32)
        ensures
            r == self.weapon_id,
    {
        self.weapon_id
    }

    /// Whether the weapon is of the knife kind.
    pub fn is_knife(&self) -> (r: bool)
        ensures
            r == (self.weapon_id == Weapons::TF_WEAPON_KNIFE.number()),
    {
        self.weapon_id == Weapons::TF_WEAPON_KNIFE.id()
    }
}

/// A player, as the trainer reads it from the game.
#[derive(Clone, Copy, Debug)]
pub struct PlayerEntity {
    /// The player object's address.
    pub start: usize,
    pub health: i32,
    pub max_health: i32,
    /// 0 while the player is alive (`m_lifeState`).
    pub lifestate: u8,
    /// The movement flags (`m_fFlags`); bit 0 is set while on the ground.
    pub flags: i32,
    pub team: i32,
    /// Whether the game has stopped updating the player.
    pub dormant: bool,
}

impl PlayerEntity {
    /// The address of the player's renderable part, 4 bytes into it.
    pub fn get_renderable(&self) -> (r: usize)
        requires
            self.start + 4 <= usize::MAX,
        ensures
            r == self.start + 4,
    {
        field_address(self.start, 4)
    }

    /// The address of the player's networkable part, 8 bytes into it.
    pub fn get_networkable(&self) -> (r: usize)
        requires
            self.start + 8 <= usize::MAX,
        ensures
            r == self.start + 8,
    {
        field_address(self.start, 8)
    }

    pub fn health(&self) -> (r: i32)
        ensures
            r == self.health,
    {
        self.health
    }

    pub fn max_health(&self) -> (r: i32)
        ensures
            r == self.max_health,
    {
        self.max_health
    }

    pub fn lifestate(&self) -> (r: u8)
        ensures
            r == self.lifestate,
    {
        self.lifestate
    }

    /// Whether the player is alive: its life state is 0.
    pub fn is_alive(&self) -> (r: bool)
        ensures
            r == (self.lifestate == 0),
    {
        self.lifestate == 0
    }

    pub fn flags(&self) -> (r: i32)
        ensures
            r == self.flags,
    {
        self.flags
    }

    pub fn team(&self) -> (r: i32)
        ensures
            r == self.team,
    {
        self.team
    }

    pub fn is_dormant(&self) -> (r: bool)
        ensures
            r == self.dormant,
    {
        self.dormant
    }
}

/// The conditions in declaration order: the `k`-th of the 123 (counting from 0;
/// out of range, the last).
pub open spec fn condition_in_order(k: int) -> Conditions {
    if k == 0 {
        Conditions::TF_COND_INVALID
    } else if k == 1 {
        Conditions::TF_COND_AIMING
    } else if k == 2 {
        Conditions::TF_COND_ZOOMED
    } else if k == 3 {
        Conditions::TF_COND_DISGUISING
    } else if k == 4 {
        Conditions::TF_COND_DISGUISED
    } else if k == 5 {
        Conditions::TF_COND_STEALTHED
    } else if k == 6 {
        Conditions::TF_COND_INVULNERABLE
    } else if k == 7 {
        Conditions::TF_COND_TELEPORTED
    } else if k == 8 {
        Conditions::TF_COND_TAUNTING
    } else if k == 9 {
        Conditions::TF_COND_INVULNERABLE_WEARINGOFF
    } else if k == 10 {
        Conditions::TF_COND_STEALTHED_BLINK
    } else if k == 11 {
        Conditions::TF_COND_SELECTED_TO_TELEPORT
    } else if k == 12 {
        Conditions::TF_COND_CRITBOOSTED
    } else if k == 13 {
        Conditions::TF_COND_TMPDAMAGEBONUS
    } else if k == 14 {
        Conditions::TF_COND_FEIGN_DEATH
    } else if k == 15 {
        Conditions::TF_COND_PHASE
    } else if k == 16 {
        Conditions::TF_COND_STUNNED
    } else if k == 17 {
        Conditions::TF_COND_OFFENSEBUFF
    } else if k == 18 {
        Conditions::TF_COND_SHIELD_CHARGE
    } else if k == 19 {
        Conditions::TF_COND_DEMO_BUFF
    } else if k == 20 {
        Conditions::TF_COND_ENERGY_BUFF
    } else if k == 21 {
        Conditions::TF_COND_RADIUSHEAL
    } else if k == 22 {
        Conditions::TF_COND_HEALTH_BUFF
    } else if k == 23 {
        Conditions::TF_COND_BURNING
    } else if k == 24 {
        Conditions::TF_COND_HEALTH_OVERHEALED
    } else if k == 25 {
        Conditions::TF_COND_URINE
    } else if k == 26 {
        Conditions::TF_COND_BLEEDING
    } else if k == 27 {
        Conditions::TF_COND_DEFENSEBUFF
    } else if k == 28 {
        Conditions::TF_COND_MAD_MILK
    } else if k == 29 {
        Conditions::TF_COND_MEGAHEAL
    } else if k == 30 {
        Conditions::TF_COND_REGENONDAMAGEBUFF
    } else if k == 31 {
        Conditions::TF_COND_MARKEDFORDEATH
    } else if k == 32 {
        Conditions::TF_COND_NOHEALINGDAMAGEBUFF
    } else if k == 33 {
        Conditions::TF_COND_SPEED_BOOST
    } else if k == 34 {
        Conditions::TF_COND_CRITBOOSTED_PUMPKIN
    } else if k == 35 {
        Conditions::TF_COND_CRITBOOSTED_USER_BUFF
    } else if k == 36 {
        Conditions::TF_COND_CRITBOOSTED_DEMO_CHARGE
    } else if k == 37 {
        Conditions::TF_COND_SODAPOPPER_HYPE
    } else if k == 38 {
        Conditions::TF_COND_CRITBOOSTED_FIRST_BLOOD
    } else if k == 39 {
        Conditions::TF_COND_CRITBOOSTED_BONUS_TIME
    } else if k == 40 {
        Conditions::TF_COND_CRITBOOSTED_CTF_CAPTURE
    } else if k == 41 {
        Conditions::TF_COND_CRITBOOSTED_ON_KILL
    } else if k == 42 {
        Conditions::TF_COND_CANNOT_SWITCH_FROM_MELEE
    } else if k == 43 {
        Conditions::TF_COND_DEFENSEBUFF_NO_CRIT_BLOCK
    } else if k == 44 {
        Conditions::TF_COND_REPROGRAMMED
    } else if k == 45 {
        Conditions::TF_COND_CRITBOOSTED_RAGE_BUFF
    } else if k == 46 {
        Conditions::TF_COND_DEFENSEBUFF_HIGH
    } else if k == 47 {
        Conditions::TF_COND_SNIPERCHARGE_RAGE_BUFF
    } else if k == 48 {
        Conditions::TF_COND_DISGUISE_WEARINGOFF
    } else if k == 49 {
        Conditions::TF_COND_MARKEDFORDEATH_SILENT
    } else if k == 50 {
        Conditions::TF_COND_DISGUISED_AS_DISPENSER
    } else if k == 51 {
        Conditions::TF_COND_SAPPED
    } else if k == 52 {
        Conditions::TF_COND_INVULNERABLE_HIDE_UNLESS_DAMAGED
    } else if k == 53 {
        Conditions::TF_COND_INVULNERABLE_USER_BUFF
    } else if k == 54 {
        Conditions::TF_COND_HALLOWEEN_BOMB_HEAD
    } else if k == 55 {
        Conditions::TF_COND_HALLOWEEN_THRILLER
    } else if k == 56 {
        Conditions::TF_COND_RADIUSHEAL_ON_DAMAGE
    } else if k == 57 {
        Conditions::TF_COND_CRITBOOSTED_CARD_EFFECT
    } else if k == 58 {
        Conditions::TF_COND_INVULNERABLE_CARD_EFFECT
    } else if k == 59 {
        Conditions::TF_COND_MEDIGUN_UBER_BULLET_RESIST
    } else if k == 60 {
        Conditions::TF_COND_MEDIGUN_UBER_BLAST_RESIST
    } else if k == 61 {
        Conditions::TF_COND_MEDIGUN_UBER_FIRE_RESIST
    } else if k == 62 {
        Conditions::TF_COND_MEDIGUN_SMALL_BULLET_RESIST
    } else if k == 63 {
        Conditions::TF_COND_MEDIGUN_SMALL_BLAST_RESIST
    } else if k == 64 {
        Conditions::TF_COND_MEDIGUN_SMALL_FIRE_RESIST
    } else if k == 65 {
        Conditions::TF_COND_STEALTHED_USER_BUFF
    } else if k == 66 {
        Conditions::TF_COND_MEDIGUN_DEBUFF
    } else if k == 67 {
        Conditions::TF_COND_STEALTHED_USER_BUFF_FADING
    } else if k == 68 {
        Conditions::TF_COND_BULLET_IMMUNE
    } else if k == 69 {
        Conditions::TF_COND_BLAST_IMMUNE
    } else if k == 70 {
        Conditions::TF_COND_FIRE_IMMUNE
    } else if k == 71 {
        Conditions::TF_COND_PREVENT_DEATH
    } else if k == 72 {
        Conditions::TF_COND_MVM_BOT_STUN_RADIOWAVE
    } else if k == 73 {
        Conditions::TF_COND_HALLOWEEN_SPEED_BOOST
    } else if k == 74 {
        Conditions::TF_COND_HALLOWEEN_QUICK_HEAL
    } else if k == 75 {
        Conditions::TF_COND_HALLOWEEN_GIANT
    } else if k == 76 {
        Conditions::TF_COND_HALLOWEEN_TINY
    } else if k == 77 {
        Conditions::TF_COND_HALLOWEEN_IN_HELL
    } else if k == 78 {
        Conditions::TF_COND_HALLOWEEN_GHOST_MODE
    } else if k == 79 {
        Conditions::TF_COND_MINICRITBOOSTED_ON_KILL
    } else if k == 80 {
        Conditions::TF_COND_OBSCURED_SMOKE
    } else if k == 81 {
        Conditions::TF_COND_PARACHUTE_DEPLOYED
    } else if k == 82 {
        Conditions::TF_COND_BLASTJUMPING
    } else if k == 83 {
        Conditions::TF_COND_HALLOWEEN_KART
    } else if k == 84 {
        Conditions::TF_COND_HALLOWEEN_KART_DASH
    } else if k == 85 {
        Conditions::TF_COND_BALLOON_HEAD
    } else if k == 86 {
        Conditions::TF_COND_MELEE_ONLY
    } else if k == 87 {
        Conditions::TF_COND_SWIMMING_CURSE
    } else if k == 88 {
        Conditions::TF_COND_FREEZE_INPUT
    } else if k == 89 {
        Conditions::TF_COND_HALLOWEEN_KART_CAGE
    } else if k == 90 {
        Conditions::TF_COND_DONOTUSE_0
    } else if k == 91 {
        Conditions::TF_COND_RUNE_STRENGTH
    } else if k == 92 {
        Conditions::TF_COND_RUNE_HASTE
    } else if k == 93 {
        Conditions::TF_COND_RUNE_REGEN
    } else if k == 94 {
        Conditions::TF_COND_RUNE_RESIST
    } else if k == 95 {
        Conditions::TF_COND_RUNE_VAMPIRE
    } else if k == 96 {
        Conditions::TF_COND_RUNE_REFLECT
    } else if k == 97 {
        Conditions::TF_COND_RUNE_PRECISION
    } else if k == 98 {
        Conditions::TF_COND_RUNE_AGILITY
    } else if k == 99 {
        Conditions::TF_COND_GRAPPLINGHOOK
    } else if k == 100 {
        Conditions::TF_COND_GRAPPLINGHOOK_SAFEFALL
    } else if k == 101 {
        Conditions::TF_COND_GRAPPLINGHOOK_LATCHED
    } else if k == 102 {
        Conditions::TF_COND_GRAPPLINGHOOK_BLEEDING
    } else if k == 103 {
        Conditions::TF_COND_AFTERBURN_IMMUNE
    } else if k == 104 {
        Conditions::TF_COND_RUNE_KNOCKOUT
    } else if k == 105 {
        Conditions::TF_COND_RUNE_IMBALANCE
    } else if k == 106 {
        Conditions::TF_COND_CRITBOOSTED_RUNE_TEMP
    } else if k == 107 {
        Conditions::TF_COND_PASSTIME_INTERCEPTION
    } else if k == 108 {
        Conditions::TF_COND_SWIMMING_NO_EFFECTS
    } else if k == 109 {
        Conditions::TF_COND_PURGATORY
    } else if k == 110 {
        Conditions::TF_COND_RUNE_KING
    } else if k == 111 {
        Conditions::TF_COND_RUNE_PLAGUE
    } else if k == 112 {
        Conditions::TF_COND_RUNE_SUPERNOVA
    } else if k == 113 {
        Conditions::TF_COND_PLAGUE
    } else if k == 114 {
        Conditions::TF_COND_KING_BUFFED
    } else if k == 115 {
        Conditions::TF_COND_TEAM_GLOWS
    } else if k == 116 {
        Conditions::TF_COND_KNOCKED_INTO_AIR
    } else if k == 117 {
        Conditions::TF_COND_COMPETITIVE_WINNER
    } else if k == 118 {
        Conditions::TF_COND_COMPETITIVE_LOSER
    } else if k == 119 {
        Conditions::TF_COND_HEALING_DEBUFF
    } else if k == 120 {
        Conditions::TF_COND_PASSTIME_PENALTY_DEBUFF
    } else if k == 121 {
        Conditions::TF_COND_GRAPPLED_TO_PLAYER
    } else {
        Conditions::TF_COND_GRAPPLED_BY_PLAYER
    }
}

/// The game numbers the conditions in declaration order, from -1 up: the
/// `k`-th one has number `k - 1`, and each one is the one at its own
/// number's place.
pub proof fn lemma_condition_in_order_numbering()
    ensures
        forall|k: int| 0 <= k < 123 ==> #[trigger] condition_in_order(k).number() == k - 1,
        forall|c: Conditions| -1 <= #[trigger] c.number() <= 121 && condition_in_order(c.number() + 1) == c,
{
    assert forall|k: int| 0 <= k < 123 implies #[trigger] condition_in_order(k).number() == k - 1 by {}
    assert forall|c: Conditions| -1 <= #[trigger] c.number() <= 121 && condition_in_order(c.number() + 1) == c by {
        match c {
            Conditions::TF_COND_INVALID => {},
            Conditions::TF_COND_AIMING => {},
            Conditions::TF_COND_ZOOMED => {},
            Conditions::TF_COND_DISGUISING => {},
            Conditions::TF_COND_DISGUISED => {},
            Conditions::TF_COND_STEALTHED => {},
            Conditions::TF_COND_INVULNERABLE => {},
            Conditions::TF_COND_TELEPORTED => {},
            Conditions::TF_COND_TAUNTING => {},
            Conditions::TF_COND_INVULNERABLE_WEARINGOFF => {},
            Conditions::TF_COND_STEALTHED_BLINK => {},
            Conditions::TF_COND_SELECTED_TO_TELEPORT => {},
            Conditions::TF_COND_CRITBOOSTED => {},
            Conditions::TF_COND_TMPDAMAGEBONUS => {},
            Conditions::TF_COND_FEIGN_DEATH => {},
            Conditions::TF_COND_PHASE => {},
            Conditions::TF_COND_STUNNED => {},
            Conditions::TF_COND_OFFENSEBUFF => {},
            Conditions::TF_COND_SHIELD_CHARGE => {},
            Conditions::TF_COND_DEMO_BUFF => {},
            Conditions::TF_COND_ENERGY_BUFF => {},
            Conditions::TF_COND_RADIUSHEAL => {},
            Conditions::TF_COND_HEALTH_BUFF => {},
            Conditions::TF_COND_BURNING => {},
            Conditions::TF_COND_HEALTH_OVERHEALED => {},
            Conditions::TF_COND_URINE => {},
            Conditions::TF_COND_BLEEDING => {},
            Conditions::TF_COND_DEFENSEBUFF => {},
            Conditions::TF_COND_MAD_MILK => {},
            Conditions::TF_COND_MEGAHEAL => {},
            Conditions::TF_COND_REGENONDAMAGEBUFF => {},
            Conditions::TF_COND_MARKEDFORDEATH => {},
            Conditions::TF_COND_NOHEALINGDAMAGEBUFF => {},
            Conditions::TF_COND_SPEED_BOOST => {},
            Conditions::TF_COND_CRITBOOSTED_PUMPKIN => {},
            Conditions::TF_COND_CRITBOOSTED_USER_BUFF => {},
            Conditions::TF_COND_CRITBOOSTED_DEMO_CHARGE => {},
            Conditions::TF_COND_SODAPOPPER_HYPE => {},
            Conditions::TF_COND_CRITBOOSTED_FIRST_BLOOD => {},
            Conditions::TF_COND_CRITBOOSTED_BONUS_TIME => {},
            Conditions::TF_COND_CRITBOOSTED_CTF_CAPTURE => {},
            Conditions::TF_COND_CRITBOOSTED_ON_KILL => {},
            Conditions::TF_COND_CANNOT_SWITCH_FROM_MELEE => {},
            Conditions::TF_COND_DEFENSEBUFF_NO_CRIT_BLOCK => {},
            Conditions::TF_COND_REPROGRAMMED => {},
            Conditions::TF_COND_CRITBOOSTED_RAGE_BUFF => {},
            Conditions::TF_COND_DEFENSEBUFF_HIGH => {},
            Conditions::TF_COND_SNIPERCHARGE_RAGE_BUFF => {},
            Conditions::TF_COND_DISGUISE_WEARINGOFF => {},
            Conditions::TF_COND_MARKEDFORDEATH_SILENT => {},
            Conditions::TF_COND_DISGUISED_AS_DISPENSER => {},
            Conditions::TF_COND_SAPPED => {},
            Conditions::TF_COND_INVULNERABLE_HIDE_UNLESS_DAMAGED => {},
            Conditions::TF_COND_INVULNERABLE_USER_BUFF => {},
            Conditions::TF_COND_HALLOWEEN_BOMB_HEAD => {},
            Conditions::TF_COND_HALLOWEEN_THRILLER => {},
            Conditions::TF_COND_RADIUSHEAL_ON_DAMAGE => {},
            Conditions::TF_COND_CRITBOOSTED_CARD_EFFECT => {},
            Conditions::TF_COND_INVULNERABLE_CARD_EFFECT => {},
            Conditions::TF_COND_MEDIGUN_UBER_BULLET_RESIST => {},
            Conditions::TF_COND_MEDIGUN_UBER_BLAST_RESIST => {},
            Conditions::TF_COND_MEDIGUN_UBER_FIRE_RESIST => {},
            Conditions::TF_COND_MEDIGUN_SMALL_BULLET_RESIST => {},
            Conditions::TF_COND_MEDIGUN_SMALL_BLAST_RESIST => {},
            Conditions::TF_COND_MEDIGUN_SMALL_FIRE_RESIST => {},
            Conditions::TF_COND_STEALTHED_USER_BUFF => {},
            Conditions::TF_COND_MEDIGUN_DEBUFF => {},
            Conditions::TF_COND_STEALTHED_USER_BUFF_FADING => {},
            Conditions::TF_COND_BULLET_IMMUNE => {},
            Conditions::TF_COND_BLAST_IMMUNE => {},
            Conditions::TF_COND_FIRE_IMMUNE => {},
            Conditions::TF_COND_PREVENT_DEATH => {},
            Conditions::TF_COND_MVM_BOT_STUN_RADIOWAVE => {},
            Conditions::TF_COND_HALLOWEEN_SPEED_BOOST => {},
            Conditions::TF_COND_HALLOWEEN_QUICK_HEAL => {},
            Conditions::TF_COND_HALLOWEEN_GIANT => {},
            Conditions::TF_COND_HALLOWEEN_TINY => {},
            Conditions::TF_COND_HALLOWEEN_IN_HELL => {},
            Conditions::TF_COND_HALLOWEEN_GHOST_MODE => {},
            Conditions::TF_COND_MINICRITBOOSTED_ON_KILL => {},
            Conditions::TF_COND_OBSCURED_SMOKE => {},
            Conditions::TF_COND_PARACHUTE_DEPLOYED => {},
            Conditions::TF_COND_BLASTJUMPING => {},
            Conditions::TF_COND_HALLOWEEN_KART => {},
            Conditions::TF_COND_HALLOWEEN_KART_DASH => {},
            Conditions::TF_COND_BALLOON_HEAD => {},
            Conditions::TF_COND_MELEE_ONLY => {},
            Conditions::TF_COND_SWIMMING_CURSE => {},
            Conditions::TF_COND_FREEZE_INPUT => {},
            Conditions::TF_COND_HALLOWEEN_KART_CAGE => {},
            Conditions::TF_COND_DONOTUSE_0 => {},
            Conditions::TF_COND_RUNE_STRENGTH => {},
            Conditions::TF_COND_RUNE_HASTE => {},
            Conditions::TF_COND_RUNE_REGEN => {},
            Conditions::TF_COND_RUNE_RESIST => {},
            Conditions::TF_COND_RUNE_VAMPIRE => {},
            Conditions::TF_COND_RUNE_REFLECT => {},
            Conditions::TF_COND_RUNE_PRECISION => {},
            Conditions::TF_COND_RUNE_AGILITY => {},
            Conditions::TF_COND_GRAPPLINGHOOK => {},
            Conditions::TF_COND_GRAPPLINGHOOK_SAFEFALL => {},
            Conditions::TF_COND_GRAPPLINGHOOK_LATCHED => {},
            Conditions::TF_COND_GRAPPLINGHOOK_BLEEDING => {},
            Conditions::TF_COND_AFTERBURN_IMMUNE => {},
            Conditions::TF_COND_RUNE_KNOCKOUT => {},
            Conditions::TF_COND_RUNE_IMBALANCE => {},
            Conditions::TF_COND_CRITBOOSTED_RUNE_TEMP => {},
            Conditions::TF_COND_PASSTIME_INTERCEPTION => {},
            Conditions::TF_COND_SWIMMING_NO_EFFECTS => {},
            Conditions::TF_COND_PURGATORY => {},
            Conditions::TF_COND_RUNE_KING => {},
            Conditions::TF_COND_RUNE_PLAGUE => {},
            Conditions::TF_COND_RUNE_SUPERNOVA => {},
            Conditions::TF_COND_PLAGUE => {},
            Conditions::TF_COND_KING_BUFFED => {},
            Conditions::TF_COND_TEAM_GLOWS => {},
            Conditions::TF_COND_KNOCKED_INTO_AIR => {},
            Conditions::TF_COND_COMPETITIVE_WINNER => {},
            Conditions::TF_COND_COMPETITIVE_LOSER => {},
            Conditions::TF_COND_HEALING_DEBUFF => {},
            Conditions::TF_COND_PASSTIME_PENALTY_DEBUFF => {},
            Conditions::TF_COND_GRAPPLED_TO_PLAYER => {},
            Conditions::TF_COND_GRAPPLED_BY_PLAYER => {},
        }
    }
}

/// The weapon kinds in declaration order: the `k`-th of the 103 (counting from 0;
/// out of range, the last).
pub open spec fn weapon_in_order(k: int) -> Weapons {
    if k == 0 {
        Weapons::TF_WEAPON_NONE
    } else if k == 1 {
        Weapons::TF_WEAPON_BAT
    } else if k == 2 {
        Weapons::TF_WEAPON_BAT_WOOD
    } else if k == 3 {
        Weapons::TF_WEAPON_BOTTLE
    } else if k == 4 {
        Weapons::TF_WEAPON_FIREAXE
    } else if k == 5 {
        Weapons::TF_WEAPON_CLUB
    } else if k == 6 {
        Weapons::TF_WEAPON_CROWBAR
    } else if k == 7 {
        Weapons::TF_WEAPON_KNIFE
    } else if k == 8 {
        Weapons::TF_WEAPON_FISTS
    } else if k == 9 {
        Weapons::TF_WEAPON_SHOVEL
    } else if k == 10 {
        Weapons::TF_WEAPON_WRENCH
    } else if k == 11 {
        Weapons::TF_WEAPON_BONESAW
    } else if k == 12 {
        Weapons::TF_WEAPON_SHOTGUN_PRIMARY
    } else if k == 13 {
        Weapons::TF_WEAPON_SHOTGUN_SOLDIER
    } else if k == 14 {
        Weapons::TF_WEAPON_SHOTGUN_HWG
    } else if k == 15 {
        Weapons::TF_WEAPON_SHOTGUN_PYRO
    } else if k == 16 {
        Weapons::TF_WEAPON_SCATTERGUN
    } else if k == 17 {
        Weapons::TF_WEAPON_SNIPERRIFLE
    } else if k == 18 {
        Weapons::TF_WEAPON_MINIGUN
    } else if k == 19 {
        Weapons::TF_WEAPON_SMG
    } else if k == 20 {
        Weapons::TF_WEAPON_SYRINGEGUN_MEDIC
    } else if k == 21 {
        Weapons::TF_WEAPON_TRANQ
    } else if k == 22 {
        Weapons::TF_WEAPON_ROCKETLAUNCHER
    } else if k == 23 {
        Weapons::TF_WEAPON_GRENADELAUNCHER
    } else if k == 24 {
        Weapons::TF_WEAPON_PIPEBOMBLAUNCHER
    } else if k == 25 {
        Weapons::TF_WEAPON_FLAMETHROWER
    } else if k == 26 {
        Weapons::TF_WEAPON_GRENADE_NORMAL
    } else if k == 27 {
        Weapons::TF_WEAPON_GRENADE_CONCUSSION
    } else if k == 28 {
        Weapons::TF_WEAPON_GRENADE_NAIL
    } else if k == 29 {
        Weapons::TF_WEAPON_GRENADE_MIRV
    } else if k == 30 {
        Weapons::TF_WEAPON_GRENADE_MIRV_DEMOMAN
    } else if k == 31 {
        Weapons::TF_WEAPON_GRENADE_NAPALM
    } else if k == 32 {
        Weapons::TF_WEAPON_GRENADE_GAS
    } else if k == 33 {
        Weapons::TF_WEAPON_GRENADE_EMP
    } else if k == 34 {
        Weapons::TF_WEAPON_GRENADE_CALTROP
    } else if k == 35 {
        Weapons::TF_WEAPON_GRENADE_PIPEBOMB
    } else if k == 36 {
        Weapons::TF_WEAPON_GRENADE_SMOKE_BOMB
    } else if k == 37 {
        Weapons::TF_WEAPON_GRENADE_HEAL
    } else if k == 38 {
        Weapons::TF_WEAPON_GRENADE_STUNBALL
    } else if k == 39 {
        Weapons::TF_WEAPON_GRENADE_JAR
    } else if k == 40 {
        Weapons::TF_WEAPON_GRENADE_JAR_MILK
    } else if k == 41 {
        Weapons::TF_WEAPON_PISTOL
    } else if k == 42 {
        Weapons::TF_WEAPON_PISTOL_SCOUT
    } else if k == 43 {
        Weapons::TF_WEAPON_REVOLVER
    } else if k == 44 {
        Weapons::TF_WEAPON_NAILGUN
    } else if k == 45 {
        Weapons::TF_WEAPON_PDA
    } else if k == 46 {
        Weapons::TF_WEAPON_PDA_ENGINEER_BUILD
    } else if k == 47 {
        Weapons::TF_WEAPON_PDA_ENGINEER_DESTROY
    } else if k == 48 {
        Weapons::TF_WEAPON_PDA_SPY
    } else if k == 49 {
        Weapons::TF_WEAPON_BUILDER
    } else if k == 50 {
        Weapons::TF_WEAPON_MEDIGUN
    } else if k == 51 {
        Weapons::TF_WEAPON_GRENADE_MIRVBOMB
    } else if k == 52 {
        Weapons::TF_WEAPON_FLAMETHROWER_ROCKET
    } else if k == 53 {
        Weapons::TF_WEAPON_GRENADE_DEMOMAN
    } else if k == 54 {
        Weapons::TF_WEAPON_SENTRY_BULLET
    } else if k == 55 {
        Weapons::TF_WEAPON_SENTRY_ROCKET
    } else if k == 56 {
        Weapons::TF_WEAPON_DISPENSER
    } else if k == 57 {
        Weapons::TF_WEAPON_INVIS
    } else if k == 58 {
        Weapons::TF_WEAPON_FLAREGUN
    } else if k == 59 {
        Weapons::TF_WEAPON_LUNCHBOX
    } else if k == 60 {
        Weapons::TF_WEAPON_JAR
    } else if k == 61 {
        Weapons::TF_WEAPON_COMPOUND_BOW
    } else if k == 62 {
        Weapons::TF_WEAPON_BUFF_ITEM
    } else if k == 63 {
        Weapons::TF_WEAPON_PUMPKIN_BOMB
    } else if k == 64 {
        Weapons::TF_WEAPON_SWORD
    } else if k == 65 {
        Weapons::TF_WEAPON_ROCKETLAUNCHER_DIRECTHIT
    } else if k == 66 {
        Weapons::TF_WEAPON_LIFELINE
    } else if k == 67 {
        Weapons::TF_WEAPON_LASER_POINTER
    } else if k == 68 {
        Weapons::TF_WEAPON_DISPENSER_GUN
    } else if k == 69 {
        Weapons::TF_WEAPON_SENTRY_REVENGE
    } else if k == 70 {
        Weapons::TF_WEAPON_JAR_MILK
    } else if k == 71 {
        Weapons::TF_WEAPON_HANDGUN_SCOUT_PRIMARY
    } else if k == 72 {
        Weapons::TF_WEAPON_BAT_FISH
    } else if k == 73 {
        Weapons::TF_WEAPON_CROSSBOW
    } else if k == 74 {
        Weapons::TF_WEAPON_STICKBOMB
    } else if k == 75 {
        Weapons::TF_WEAPON_HANDGUN_SCOUT_SECONDARY
    } else if k == 76 {
        Weapons::TF_WEAPON_SODA_POPPER
    } else if k == 77 {
        Weapons::TF_WEAPON_SNIPERRIFLE_DECAP
    } else if k == 78 {
        Weapons::TF_WEAPON_RAYGUN
    } else if k == 79 {
        Weapons::TF_WEAPON_PARTICLE_CANNON
    } else if k == 80 {
        Weapons::TF_WEAPON_MECHANICAL_ARM
    } else if k == 81 {
        Weapons::TF_WEAPON_DRG_POMSON
    } else if k == 82 {
        Weapons::TF_WEAPON_BAT_GIFTWRAP
    } else if k == 83 {
        Weapons::TF_WEAPON_GRENADE_ORNAMENT_BALL
    } else if k == 84 {
        Weapons::TF_WEAPON_FLAREGUN_REVENGE
    } else if k == 85 {
        Weapons::TF_WEAPON_PEP_BRAWLER_BLASTER
    } else if k == 86 {
        Weapons::TF_WEAPON_CLEAVER
    } else if k == 87 {
        Weapons::TF_WEAPON_GRENADE_CLEAVER
    } else if k == 88 {
        Weapons::TF_WEAPON_STICKY_BALL_LAUNCHER
    } else if k == 89 {
        Weapons::TF_WEAPON_GRENADE_STICKY_BALL
    } else if k == 90 {
        Weapons::TF_WEAPON_SHOTGUN_BUILDING_RESCUE
    } else if k == 91 {
        Weapons::TF_WEAPON_CANNON
    } else if k == 92 {
        Weapons::TF_WEAPON_THROWABLE
    } else if k == 93 {
        Weapons::TF_WEAPON_GRENADE_THROWABLE
    } else if k == 94 {
        Weapons::TF_WEAPON_PDA_SPY_BUILD
    } else if k == 95 {
        Weapons::TF_WEAPON_GRENADE_WATERBALLOON
    } else if k == 96 {
        Weapons::TF_WEAPON_HARVESTER_SAW
    } else if k == 97 {
        Weapons::TF_WEAPON_SPELLBOOK
    } else if k == 98 {
        Weapons::TF_WEAPON_SPELLBOOK_PROJECTILE
    } else if k == 99 {
        Weapons::TF_WEAPON_SNIPERRIFLE_CLASSIC
    } else if k == 100 {
        Weapons::TF_WEAPON_PARACHUTE
    } else if k == 101 {
        Weapons::TF_WEAPON_GRAPPLINGHOOK
    } else {
        Weapons::TF_WEAPON_PASSTIME_GUN
    }
}

/// The game numbers the weapon kinds in declaration order, from 0 up: the
/// `k`-th one has number `k + 0`, and each one is the one at its own
/// number's place.
pub proof fn lemma_weapon_in_order_numbering()
    ensures
        forall|k: int| 0 <= k < 103 ==> #[trigger] weapon_in_order(k).number() == k + 0,
        forall|c: Weapons| 0 <= #[trigger] c.number() <= 102 && weapon_in_order(c.number() - 0) == c,
{
    assert forall|k: int| 0 <= k < 103 implies #[trigger] weapon_in_order(k).number() == k + 0 by {}
    assert forall|c: Weapons| 0 <= #[trigger] c.number() <= 102 && weapon_in_order(c.number() - 0) == c by {
        match c {
            Weapons::TF_WEAPON_NONE => {},
            Weapons::TF_WEAPON_BAT => {},
            Weapons::TF_WEAPON_BAT_WOOD => {},
            Weapons::TF_WEAPON_BOTTLE => {},
            Weapons::TF_WEAPON_FIREAXE => {},
            Weapons::TF_WEAPON_CLUB => {},
            Weapons::TF_WEAPON_CROWBAR => {},
            Weapons::TF_WEAPON_KNIFE => {},
            Weapons::TF_WEAPON_FISTS => {},
            Weapons::TF_WEAPON_SHOVEL => {},
            Weapons::TF_WEAPON_WRENCH => {},
            Weapons::TF_WEAPON_BONESAW => {},
            Weapons::TF_WEAPON_SHOTGUN_PRIMARY => {},
            Weapons::TF_WEAPON_SHOTGUN_SOLDIER => {},
            Weapons::TF_WEAPON_SHOTGUN_HWG => {},
            Weapons::TF_WEAPON_SHOTGUN_PYRO => {},
            Weapons::TF_WEAPON_SCATTERGUN => {},
            Weapons::TF_WEAPON_SNIPERRIFLE => {},
            Weapons::TF_WEAPON_MINIGUN => {},
            Weapons::TF_WEAPON_SMG => {},
            Weapons::TF_WEAPON_SYRINGEGUN_MEDIC => {},
            Weapons::TF_WEAPON_TRANQ => {},
            Weapons::TF_WEAPON_ROCKETLAUNCHER => {},
            Weapons::TF_WEAPON_GRENADELAUNCHER => {},
            Weapons::TF_WEAPON_PIPEBOMBLAUNCHER => {},
            Weapons::TF_WEAPON_FLAMETHROWER => {},
            Weapons::TF_WEAPON_GRENADE_NORMAL => {},
            Weapons::TF_WEAPON_GRENADE_CONCUSSION => {},
            Weapons::TF_WEAPON_GRENADE_NAIL => {},
            Weapons::TF_WEAPON_GRENADE_MIRV => {},
            Weapons::TF_WEAPON_GRENADE_MIRV_DEMOMAN => {},
            Weapons::TF_WEAPON_GRENADE_NAPALM => {},
            Weapons::TF_WEAPON_GRENADE_GAS => {},
            Weapons::TF_WEAPON_GRENADE_EMP => {},
            Weapons::TF_WEAPON_GRENADE_CALTROP => {},
            Weapons::TF_WEAPON_GRENADE_PIPEBOMB => {},
            Weapons::TF_WEAPON_GRENADE_SMOKE_BOMB => {},
            Weapons::TF_WEAPON_GRENADE_HEAL => {},
            Weapons::TF_WEAPON_GRENADE_STUNBALL => {},
            Weapons::TF_WEAPON_GRENADE_JAR => {},
            Weapons::TF_WEAPON_GRENADE_JAR_MILK => {},
            Weapons::TF_WEAPON_PISTOL => {},
            Weapons::TF_WEAPON_PISTOL_SCOUT => {},
            Weapons::TF_WEAPON_REVOLVER => {},
            Weapons::TF_WEAPON_NAILGUN => {},
            Weapons::TF_WEAPON_PDA => {},
            Weapons::TF_WEAPON_PDA_ENGINEER_BUILD => {},
            Weapons::TF_WEAPON_PDA_ENGINEER_DESTROY => {},
            Weapons::TF_WEAPON_PDA_SPY => {},
            Weapons::TF_WEAPON_BUILDER => {},
            Weapons::TF_WEAPON_MEDIGUN => {},
            Weapons::TF_WEAPON_GRENADE_MIRVBOMB => {},
            Weapons::TF_WEAPON_FLAMETHROWER_ROCKET => {},
            Weapons::TF_WEAPON_GRENADE_DEMOMAN => {},
            Weapons::TF_WEAPON_SENTRY_BULLET => {},
            Weapons::TF_WEAPON_SENTRY_ROCKET => {},
            Weapons::TF_WEAPON_DISPENSER => {},
            Weapons::TF_WEAPON_INVIS => {},
            Weapons::TF_WEAPON_FLAREGUN => {},
            Weapons::TF_WEAPON_LUNCHBOX => {},
            Weapons::TF_WEAPON_JAR => {},
            Weapons::TF_WEAPON_COMPOUND_BOW => {},
            Weapons::TF_WEAPON_BUFF_ITEM => {},
            Weapons::TF_WEAPON_PUMPKIN_BOMB => {},
            Weapons::TF_WEAPON_SWORD => {},
            Weapons::TF_WEAPON_ROCKETLAUNCHER_DIRECTHIT => {},
            Weapons::TF_WEAPON_LIFELINE => {},
            Weapons::TF_WEAPON_LASER_POINTER => {},
            Weapons::TF_WEAPON_DISPENSER_GUN => {},
            Weapons::TF_WEAPON_SENTRY_REVENGE => {},
            Weapons::TF_WEAPON_JAR_MILK => {},
            Weapons::TF_WEAPON_HANDGUN_SCOUT_PRIMARY => {},
            Weapons::TF_WEAPON_BAT_FISH => {},
            Weapons::TF_WEAPON_CROSSBOW => {},
            Weapons::TF_WEAPON_STICKBOMB => {},
            Weapons::TF_WEAPON_HANDGUN_SCOUT_SECONDARY => {},
            Weapons::TF_WEAPON_SODA_POPPER => {},
            Weapons::TF_WEAPON_SNIPERRIFLE_DECAP => {},
            Weapons::TF_WEAPON_RAYGUN => {},
            Weapons::TF_WEAPON_PARTICLE_CANNON => {},
            Weapons::TF_WEAPON_MECHANICAL_ARM => {},
            Weapons::TF_WEAPON_DRG_POMSON => {},
            Weapons::TF_WEAPON_BAT_GIFTWRAP => {},
            Weapons::TF_WEAPON_GRENADE_ORNAMENT_BALL => {},
            Weapons::TF_WEAPON_FLAREGUN_REVENGE => {},
            Weapons::TF_WEAPON_PEP_BRAWLER_BLASTER => {},
            Weapons::TF_WEAPON_CLEAVER => {},
            Weapons::TF_WEAPON_GRENADE_CLEAVER => {},
            Weapons::TF_WEAPON_STICKY_BALL_LAUNCHER => {},
            Weapons::TF_WEAPON_GRENADE_STICKY_BALL => {},
            Weapons::TF_WEAPON_SHOTGUN_BUILDING_RESCUE => {},
            Weapons::TF_WEAPON_CANNON => {},
            Weapons::TF_WEAPON_THROWABLE => {},
            Weapons::TF_WEAPON_GRENADE_THROWABLE => {},
            Weapons::TF_WEAPON_PDA_SPY_BUILD => {},
            Weapons::TF_WEAPON_GRENADE_WATERBALLOON => {},
            Weapons::TF_WEAPON_HARVESTER_SAW => {},
            Weapons::TF_WEAPON_SPELLBOOK => {},
            Weapons::TF_WEAPON_SPELLBOOK_PROJECTILE => {},
            Weapons::TF_WEAPON_SNIPERRIFLE_CLASSIC => {},
            Weapons::TF_WEAPON_PARACHUTE => {},
            Weapons::TF_WEAPON_GRAPPLINGHOOK => {},
            Weapons::TF_WEAPON_PASSTIME_GUN => {},
        }
    }
}

} // verus!
