use purple_night::entity::Sprite;
use purple_night::instruction::UpdateInstruction;
use purple_night::level::Level;
use purple_night::number::Number;
use purple_night::particle::ParticleData;
use purple_night::player::{AttackTimer, Input, Player, PlayerState, Tri};
use purple_night::sword::{
    long_sword_fudge, long_sword_hurtbox, short_sword_fudge, short_sword_hurtbox, SwordState,
};
use purple_night::vector::{IntVector2D, MaskRect, Rect, Vector2D};

/// A level of 20 by 10 tiles whose bottom row is solid.
fn floor_level() -> Level {
    let mut foreground = vec![0u16; 200];
    for x in 0..20 {
        foreground[9 * 20 + x] = 1;
    }
    Level::load_level(20, 10, vec![0; 200], foreground, vec![0, 1], &vec![], &vec![], &vec![], &vec![]).unwrap()
}

fn raw(x: i32, y: i32) -> Vector2D {
    Vector2D::new(Number::from_raw(x), Number::from_raw(y))
}

const NO_INPUT: Input = Input { x: Tri::Zero, attack: false, jump: false };
const RIGHT: Input = Input { x: Tri::Positive, attack: false, jump: false };
const LEFT: Input = Input { x: Tri::Negative, attack: false, jump: false };
const ATTACK: Input = Input { x: Tri::Zero, attack: true, jump: false };
const JUMP: Input = Input { x: Tri::Zero, attack: false, jump: true };
const BOTH: Input = Input { x: Tri::Zero, attack: true, jump: true };

/// A player standing on the floor of the level.
fn grounded() -> Player {
    let mut player = Player::new();
    player.entity.position = raw(58 * 256, 16896);
    player
}

fn step(player: &mut Player, input: Input, level: &Level) -> UpdateInstruction {
    assert!(player.can_update());
    player.update(input, level)
}

#[test]
fn a_new_player_stands_at_the_start() {
    let player = Player::new();
    assert_eq!(player.entity.position, Vector2D::from_ints(58, 26));
    assert_eq!(player.entity.velocity, Vector2D::from_ints(0, 0));
    assert_eq!(player.entity.collision_mask, MaskRect::new(0, 0, 4, 12));
    assert_eq!(
        player.entity.sprite,
        Sprite { tile_id: 0, hflip: false, position: IntVector2D::new(0, 0), visible: true }
    );
    assert_eq!(player.facing, Tri::Positive);
    assert_eq!(player.state, PlayerState::OnGround);
    assert_eq!(player.sword, SwordState::LongSword);
    assert_eq!(player.sprite_offset, 0);
    assert_eq!(player.attack_timer, AttackTimer::Idle);
    assert_eq!(player.fudge_factor, IntVector2D::new(0, 0));
    assert_eq!(player.hurtbox, None);
    assert_eq!(player.damage_cooldown, 0);
    assert!(player.can_update());
}

#[test]
fn directions_as_integers() {
    assert_eq!(Tri::Positive.to_int(), 1);
    assert_eq!(Tri::Zero.to_int(), 0);
    assert_eq!(Tri::Negative.to_int(), -1);
}

#[test]
fn the_first_frame_in_mid_air_starts_the_fall() {
    let level = floor_level();
    let mut player = Player::new();
    let instruction = step(&mut player, NO_INPUT, &level);
    assert_eq!(instruction, UpdateInstruction::Nothing);
    assert_eq!(player.entity.position, raw(58 * 256, 26 * 256 + 16));
    assert_eq!(player.entity.velocity, raw(0, 16));
    assert_eq!(player.state, PlayerState::InAir);
    assert_eq!(player.sprite_offset, 1);
    assert_eq!(player.entity.sprite.tile_id, 0);
    assert_eq!(player.hurtbox, None);
}

#[test]
fn a_hard_landing_raises_dust() {
    let level = floor_level();
    let mut player = Player::new();
    for _ in 0..34 {
        assert_eq!(step(&mut player, NO_INPUT, &level), UpdateInstruction::Nothing);
        assert_eq!(player.state, PlayerState::InAir);
    }
    assert_eq!(player.entity.position, raw(58 * 256, 26 * 256 + 9520));
    assert_eq!(player.entity.velocity, raw(0, 544));
    // The fall ends less than one unit above the floor: the ground probe
    // finds the floor, and the player has landed.
    let instruction = step(&mut player, NO_INPUT, &level);
    assert_eq!(
        instruction,
        UpdateInstruction::CreateParticle(ParticleData::Dust(0), raw(58 * 256 + 512, 16736))
    );
    assert_eq!(player.state, PlayerState::OnGround);
    assert_eq!(player.entity.position, raw(58 * 256, 16736));
    assert_eq!(player.entity.velocity, raw(0, 560));
    // Gravity closes the gap.
    for _ in 0..10 {
        assert_eq!(step(&mut player, NO_INPUT, &level), UpdateInstruction::Nothing);
        assert_eq!(player.state, PlayerState::OnGround);
    }
    assert_eq!(player.entity.position, raw(58 * 256, 16896));
    assert_eq!(player.entity.velocity, raw(0, 0));
    assert_eq!(step(&mut player, NO_INPUT, &level), UpdateInstruction::Nothing);
    assert_eq!(player.entity.position, raw(58 * 256, 16896));
}

#[test]
fn a_soft_landing_raises_no_dust() {
    let level = floor_level();
    let mut player = grounded();
    player.entity.position = raw(58 * 256, 16896 - 300);
    player.state = PlayerState::InAir;
    player.entity.velocity = raw(0, 400);
    let instruction = step(&mut player, NO_INPUT, &level);
    assert_eq!(instruction, UpdateInstruction::Nothing);
    assert_eq!(player.state, PlayerState::OnGround);
    assert_eq!(player.entity.position, raw(58 * 256, 16896));
}

#[test]
fn dust_appears_on_the_side_the_player_faces() {
    let level = floor_level();
    let mut player = grounded();
    player.entity.position = raw(58 * 256, 16896 - 300);
    player.state = PlayerState::InAir;
    player.facing = Tri::Negative;
    player.entity.velocity = raw(0, 600);
    let instruction = step(&mut player, NO_INPUT, &level);
    assert_eq!(
        instruction,
        UpdateInstruction::CreateParticle(ParticleData::Dust(0), raw(58 * 256 - 512, 16896))
    );
}

#[test]
fn walking_accelerates_toward_the_input() {
    let level = floor_level();
    let mut player = grounded();
    step(&mut player, RIGHT, &level);
    assert_eq!(player.entity.velocity, raw(64, 0));
    assert_eq!(player.entity.position, raw(58 * 256 + 64, 16896));
    assert_eq!(player.entity.sprite.tile_id, 16);
    assert!(!player.entity.sprite.hflip);
    assert_eq!(player.facing, Tri::Positive);
    assert_eq!(player.state, PlayerState::OnGround);
    step(&mut player, RIGHT, &level);
    assert_eq!(player.entity.velocity, raw(104, 0));
    assert_eq!(player.entity.position, raw(58 * 256 + 168, 16896));
}

#[test]
fn walking_left_flips_the_sprite() {
    let level = floor_level();
    let mut player = grounded();
    step(&mut player, LEFT, &level);
    assert_eq!(player.entity.velocity, raw(-64, 0));
    assert!(player.entity.sprite.hflip);
    assert_eq!(player.facing, Tri::Negative);
    step(&mut player, NO_INPUT, &level);
    assert_eq!(player.facing, Tri::Negative);
    assert!(player.entity.sprite.hflip);
    assert_eq!(player.entity.velocity, raw(-40, 0));
}

#[test]
fn the_short_sword_walks_faster() {
    let level = floor_level();
    let mut player = grounded();
    player.sword = SwordState::ShortSword;
    step(&mut player, RIGHT, &level);
    assert_eq!(player.entity.velocity, raw(80, 0));
    assert_eq!(player.entity.sprite.tile_id, (45 + 0) * 4);
}

#[test]
fn standing_plays_the_idle_cycle() {
    let level = floor_level();
    let mut player = grounded();
    let mut tiles = Vec::new();
    for _ in 0..34 {
        step(&mut player, NO_INPUT, &level);
        tiles.push(player.entity.sprite.tile_id);
    }
    assert_eq!(tiles[0], 0);
    assert_eq!(tiles[7], 0);
    assert_eq!(tiles[8], 4);
    assert_eq!(tiles[16], 8);
    assert_eq!(tiles[31], 12);
    assert_eq!(tiles[32], 0);
    assert_eq!(player.sprite_offset, 2);
}

#[test]
fn velocity_decays_geometrically_without_input() {
    let level = floor_level();
    let mut player = grounded();
    player.entity.velocity = raw(256, 0);
    let expected = [160, 100, 62, 38, 23, 14, 8, 5, 3, 1, 0, 0];
    let mut last = 256;
    for value in expected {
        step(&mut player, NO_INPUT, &level);
        assert_eq!(player.entity.velocity, raw(value, 0));
        assert!(value * 64 <= last * 40);
        last = value;
    }
    let mut leftward = grounded();
    leftward.entity.velocity = raw(-256, 0);
    for value in expected {
        step(&mut leftward, NO_INPUT, &level);
        assert_eq!(leftward.entity.velocity, raw(-value, 0));
    }
}

#[test]
fn velocity_decays_slowly_in_the_air() {
    let level = floor_level();
    let mut player = Player::new();
    player.state = PlayerState::InAir;
    player.entity.velocity = raw(256, 0);
    step(&mut player, NO_INPUT, &level);
    assert_eq!(player.entity.velocity, raw(252, 16));
    step(&mut player, RIGHT, &level);
    assert_eq!(player.entity.velocity, raw(248 + 4, 32));
}

#[test]
fn a_jump_leaves_the_ground() {
    let level = floor_level();
    let mut player = grounded();
    player.sprite_offset = 17;
    step(&mut player, JUMP, &level);
    assert_eq!(player.state, PlayerState::InAir);
    assert_eq!(player.entity.velocity, raw(0, -496));
    assert_eq!(player.entity.position, raw(58 * 256, 16896 - 496));
    assert_eq!(player.sprite_offset, 1);
    let mut light = grounded();
    light.sword = SwordState::ShortSword;
    step(&mut light, JUMP, &level);
    assert_eq!(light.entity.velocity, raw(0, -544));
}

#[test]
fn the_jump_animation_follows_time_then_speed() {
    let level = floor_level();
    let mut player = grounded();
    step(&mut player, JUMP, &level);
    let mut tiles = Vec::new();
    for _ in 0..40 {
        step(&mut player, NO_INPUT, &level);
        tiles.push((player.entity.sprite.tile_id, player.entity.velocity));
    }
    // frames 0 to 2 by time in the air
    assert_eq!(tiles[0].0, (0 + 10) * 4);
    assert_eq!(tiles[3].0, (1 + 10) * 4);
    assert_eq!(tiles[7].0, (2 + 10) * 4);
    // rising fast
    assert_eq!(tiles[11].0, (2 + 10) * 4);
    // near the apex, where the speed is below a fifth of a unit
    assert_eq!(tiles[29].1, raw(0, -16));
    assert_eq!(tiles[30].0, (3 + 10) * 4);
    // falling slowly
    assert_eq!(tiles[35].0, (4 + 10) * 4);
}

#[test]
fn an_attack_runs_its_timer_and_then_rests() {
    let level = floor_level();
    let mut player = grounded();
    step(&mut player, ATTACK, &level);
    assert_eq!(player.attack_timer, AttackTimer::Attack(60));
    assert_eq!(player.hurtbox, None);
    step(&mut player, NO_INPUT, &level);
    assert_eq!(player.attack_timer, AttackTimer::Attack(59));
    assert_eq!(player.entity.sprite.tile_id, 64);
    assert_eq!(player.fudge_factor, IntVector2D::new(0, 0));
    assert_eq!(player.hurtbox, Some(Rect::from_ints(51, 68, 6, 3)));
    for _ in 0..58 {
        step(&mut player, NO_INPUT, &level);
    }
    assert_eq!(player.attack_timer, AttackTimer::Attack(1));
    assert_eq!(player.entity.sprite.tile_id, (16 + 7) * 4);
    step(&mut player, NO_INPUT, &level);
    assert_eq!(player.attack_timer, AttackTimer::Cooldown(20));
    assert_eq!(player.entity.sprite.tile_id, (16 + 7) * 4);
    assert_eq!(player.fudge_factor, IntVector2D::new(4, 0));
    assert_eq!(player.hurtbox, Some(Rect::from_ints(60, 63, 10, 9)));
    step(&mut player, NO_INPUT, &level);
    assert_eq!(player.attack_timer, AttackTimer::Cooldown(19));
    assert_eq!(player.hurtbox, None);
    assert_eq!(player.fudge_factor, IntVector2D::new(4, 0));
    assert_eq!(player.entity.sprite.tile_id, (16 + 7) * 4);
    for _ in 0..18 {
        step(&mut player, ATTACK, &level);
    }
    assert_eq!(player.attack_timer, AttackTimer::Cooldown(1));
    step(&mut player, NO_INPUT, &level);
    assert_eq!(player.attack_timer, AttackTimer::Idle);
    step(&mut player, NO_INPUT, &level);
    assert_eq!(player.fudge_factor, IntVector2D::new(0, 0));
}

#[test]
fn the_hurtbox_is_mirrored_when_facing_left() {
    let level = floor_level();
    let mut player = grounded();
    player.facing = Tri::Negative;
    player.attack_timer = AttackTimer::Attack(60 - 31);
    step(&mut player, NO_INPUT, &level);
    // frame 4 of the long sword: box (6, 3, 10, 8), nudge 5
    assert_eq!(player.fudge_factor, IntVector2D::new(-5, 0));
    assert_eq!(player.entity.sprite.tile_id, (16 + 4) * 4);
    assert_eq!(player.hurtbox, Some(Rect::from_ints(58 - 5 - 8, 66 - 5, 10, 8)));
    let mut right = grounded();
    right.attack_timer = AttackTimer::Attack(60 - 31);
    step(&mut right, NO_INPUT, &level);
    assert_eq!(right.hurtbox, Some(Rect::from_ints(58 + 5 - 2, 66 - 5, 10, 8)));
}

#[test]
fn attack_wins_over_jump() {
    let level = floor_level();
    let mut player = grounded();
    step(&mut player, BOTH, &level);
    assert_eq!(player.attack_timer, AttackTimer::Attack(60));
    assert_eq!(player.state, PlayerState::OnGround);
}

#[test]
fn the_short_sword_attacks_faster() {
    let level = floor_level();
    let mut player = grounded();
    player.sword = SwordState::ShortSword;
    step(&mut player, ATTACK, &level);
    assert_eq!(player.attack_timer, AttackTimer::Attack(40));
    step(&mut player, NO_INPUT, &level);
    assert_eq!(player.hurtbox, None);
    assert_eq!(player.entity.sprite.tile_id, 57 * 4);
    for _ in 0..8 {
        step(&mut player, NO_INPUT, &level);
    }
    assert_eq!(player.entity.sprite.tile_id, 58 * 4);
    assert_eq!(player.fudge_factor, IntVector2D::new(1, 0));
    assert_eq!(player.hurtbox, Some(Rect::from_ints(58 + 1 + 2, 66 - 3, 3, 5)));
    for _ in 0..31 {
        step(&mut player, NO_INPUT, &level);
    }
    assert_eq!(player.attack_timer, AttackTimer::Cooldown(10));
}

#[test]
fn only_the_short_sword_attacks_in_the_air() {
    let level = floor_level();
    let mut long = Player::new();
    long.state = PlayerState::InAir;
    step(&mut long, ATTACK, &level);
    assert_eq!(long.attack_timer, AttackTimer::Idle);
    let mut short = Player::new();
    short.state = PlayerState::InAir;
    short.sword = SwordState::ShortSword;
    step(&mut short, ATTACK, &level);
    assert_eq!(short.attack_timer, AttackTimer::Attack(28));
    let at = short.entity.position;
    step(&mut short, NO_INPUT, &level);
    assert_eq!(short.attack_timer, AttackTimer::Attack(27));
    assert_eq!(short.entity.sprite.tile_id, (65 + 0) * 4);
    assert_eq!(short.hurtbox, Some(Rect::new(at.minus(Vector2D::from_ints(8, 8)), Vector2D::from_ints(16, 16))));
}

#[test]
fn a_rest_ends_in_the_air() {
    let level = floor_level();
    let mut player = Player::new();
    player.state = PlayerState::InAir;
    player.attack_timer = AttackTimer::Cooldown(7);
    step(&mut player, NO_INPUT, &level);
    assert_eq!(player.attack_timer, AttackTimer::Idle);
}

#[test]
fn a_hit_downgrades_the_sword_once_per_cooldown() {
    let mut player = Player::new();
    assert_eq!(player.damage(), (true, true));
    assert_eq!(player.sword, SwordState::ShortSword);
    assert_eq!(player.damage_cooldown, 120);
    let before = player;
    assert_eq!(player.damage(), (true, false));
    assert_eq!(player, before);
    assert_eq!(player.damage(), (true, false));
    assert_eq!(player, before);
}

#[test]
fn the_cooldown_runs_down_one_per_frame() {
    let level = floor_level();
    let mut player = grounded();
    player.damage();
    for frame in 1..=119 {
        step(&mut player, NO_INPUT, &level);
        assert_eq!(player.damage_cooldown, 120 - frame);
        let before = player;
        assert_eq!(player.damage(), (true, false));
        assert_eq!(player, before);
    }
    step(&mut player, NO_INPUT, &level);
    assert_eq!(player.damage_cooldown, 0);
    step(&mut player, NO_INPUT, &level);
    assert_eq!(player.damage_cooldown, 0);
    assert_eq!(player.damage(), (false, true));
}

#[test]
fn a_hit_at_the_weakest_sword_kills() {
    let mut player = Player::new();
    player.sword = SwordState::ShortSword;
    assert_eq!(player.damage(), (false, true));
    assert_eq!(player.sword, SwordState::ShortSword);
    assert_eq!(player.damage_cooldown, 120);
}

#[test]
fn healing_restores_the_long_sword() {
    let mut player = Player::new();
    player.sword = SwordState::ShortSword;
    player.damage_cooldown = 3;
    player.heal();
    assert_eq!(player.sword, SwordState::LongSword);
    assert_eq!(player.damage_cooldown, 120);
    player.damage_cooldown = 0;
    player.heal();
    assert_eq!(player.sword, SwordState::LongSword);
    assert_eq!(player.damage_cooldown, 120);
}

#[test]
fn commit_applies_the_nudge_of_the_attack() {
    let mut player = grounded();
    player.fudge_factor = IntVector2D::new(-5, 0);
    player.commit(Vector2D::from_ints(2, 1));
    assert_eq!(player.entity.sprite.position, IntVector2D::new(58 - 2 - 5 - 8, 66 - 1 - 8));
    assert!(player.entity.sprite.visible);
}

#[test]
fn a_player_beyond_the_limits_cannot_be_updated() {
    let mut far = Player::new();
    far.entity.position = raw(0x0400_0001, 0);
    assert!(!far.can_update());
    let mut fast = Player::new();
    fast.entity.velocity = raw(0, -0x0100_0001);
    assert!(!fast.can_update());
    let mut late = Player::new();
    late.sprite_offset = u16::MAX;
    assert!(!late.can_update());
    let mut spent = Player::new();
    spent.attack_timer = AttackTimer::Attack(0);
    assert!(!spent.can_update());
    let mut rested = Player::new();
    rested.attack_timer = AttackTimer::Cooldown(0);
    assert!(!rested.can_update());
    rested.state = PlayerState::InAir;
    assert!(rested.can_update());
    let mut long = Player::new();
    long.attack_timer = AttackTimer::Attack(u16::MAX);
    assert!(long.can_update());
    long.state = PlayerState::InAir;
    assert!(long.can_update());
}

#[test]
fn a_sword_lost_in_mid_swing_wraps_the_animation() {
    let level = floor_level();
    let mut player = grounded();
    step(&mut player, ATTACK, &level);
    step(&mut player, NO_INPUT, &level);
    assert_eq!(player.attack_timer, AttackTimer::Attack(59));
    assert_eq!(player.damage(), (true, true));
    step(&mut player, NO_INPUT, &level);
    assert_eq!(player.attack_timer, AttackTimer::Attack(58));
    // 40 - 58 frames have passed, counted in sixteen bits
    assert_eq!(player.entity.sprite.tile_id, (57 + 8189) * 4);
    assert_eq!(player.fudge_factor, IntVector2D::new(0, 0));
    assert_eq!(player.hurtbox, None);
    for _ in 0..18 {
        step(&mut player, NO_INPUT, &level);
    }
    assert_eq!(player.attack_timer, AttackTimer::Attack(40));
    assert_eq!(player.entity.sprite.tile_id, 57 * 4);
    for _ in 0..40 {
        step(&mut player, NO_INPUT, &level);
    }
    assert_eq!(player.attack_timer, AttackTimer::Cooldown(10));
}

#[test]
fn a_swing_carried_into_the_air_wraps_the_animation() {
    let level = floor_level();
    let mut player = Player::new();
    player.state = PlayerState::InAir;
    player.attack_timer = AttackTimer::Attack(59);
    let at = player.entity.position;
    step(&mut player, NO_INPUT, &level);
    assert_eq!(player.attack_timer, AttackTimer::Attack(58));
    // 34 - 58 frames have passed, counted in sixteen bits
    assert_eq!(player.entity.sprite.tile_id, (24 + 8189) * 4);
    assert_eq!(
        player.hurtbox,
        Some(Rect::new(at.minus(Vector2D::from_ints(8, 8)), Vector2D::from_ints(16, 16)))
    );
}

#[test]
fn sword_parameters() {
    let long = SwordState::LongSword;
    let short = SwordState::ShortSword;
    assert_eq!(long.ground_walk_force(), Number::from_raw(64));
    assert_eq!(short.ground_walk_force(), Number::from_raw(80));
    assert_eq!(long.jump_impulse(), Number::from_raw(512));
    assert_eq!(short.jump_impulse(), Number::from_raw(560));
    assert_eq!(long.air_move_force(), Number::from_raw(4));
    assert_eq!(short.air_move_force(), Number::from_raw(5));
    assert_eq!((long.jump_offset(), short.jump_offset()), (10, 51));
    assert_eq!((long.attack_duration(), short.attack_duration()), (60, 40));
    assert_eq!((long.jump_attack_duration(), short.jump_attack_duration()), (34, 28));
    assert_eq!((long.hold_frame(), short.hold_frame()), (7, 7));
    assert_eq!((long.jump_attack_hold_frame(), short.jump_attack_hold_frame()), (13, 54));
    assert_eq!((long.cooldown_time(), short.cooldown_time()), (20, 10));
}

#[test]
fn sword_animation_frames() {
    let long = SwordState::LongSword;
    let short = SwordState::ShortSword;
    assert_eq!(long.attack_frame(60), 0);
    assert_eq!(long.attack_frame(52), 1);
    assert_eq!(long.attack_frame(0), 7);
    assert_eq!(short.attack_frame(0), 5);
    assert_eq!(long.jump_attack_frame(0), 4);
    assert_eq!(long.attack_frame(61), 8191);
    assert_eq!(short.attack_frame(58), 8189);
    assert_eq!(long.jump_attack_frame(58), 8189);
    assert_eq!(short.jump_attack_frame(u16::MAX), 3);
    assert_eq!(short.jump_attack_frame(20), 1);
    assert_eq!(long.to_sprite_id(3), 76);
    assert_eq!(short.to_sprite_id(3), 240);
    assert_eq!(long.to_jump_sprite_id(2), 104);
    assert_eq!(long.to_jump_sprite_id(13), 52);
    assert_eq!(short.to_jump_sprite_id(2), 268);
    assert_eq!(short.to_jump_sprite_id(54), 216);
}

#[test]
fn sword_cycles_reset_their_counter() {
    let long = SwordState::LongSword;
    let short = SwordState::ShortSword;
    let mut counter = 31;
    assert_eq!(long.idle_animation(&mut counter), 12);
    assert_eq!(counter, 31);
    counter = 32;
    assert_eq!(short.idle_animation(&mut counter), 164);
    assert_eq!(counter, 0);
    counter = 23;
    assert_eq!(long.walk_animation(&mut counter), (4 + 5) * 4);
    assert_eq!(counter, 23);
    counter = 24;
    assert_eq!(short.walk_animation(&mut counter), 45 * 4);
    assert_eq!(counter, 0);
    counter = 9;
    assert_eq!(short.walk_animation(&mut counter), 47 * 4);
}

#[test]
fn sword_tables() {
    assert_eq!(
        (0..9).map(long_sword_fudge).collect::<Vec<_>>(),
        vec![0, 0, 1, 4, 5, 5, 5, 4, 0]
    );
    assert_eq!(
        (0..9).map(short_sword_fudge).collect::<Vec<_>>(),
        vec![0, 1, 2, 3, 3, 3, 3, 3, 0]
    );
    assert_eq!(SwordState::LongSword.fudge(3), 4);
    assert_eq!(SwordState::ShortSword.fudge(3), 3);
    assert_eq!(long_sword_hurtbox(0), Some(Rect::from_ints(1, 10, 6, 3)));
    assert_eq!(long_sword_hurtbox(1), Some(Rect::from_ints(0, 9, 7, 2)));
    assert_eq!(long_sword_hurtbox(2), Some(Rect::from_ints(0, 1, 6, 8)));
    assert_eq!(long_sword_hurtbox(3), Some(Rect::from_ints(3, 0, 6, 8)));
    assert_eq!(long_sword_hurtbox(4), Some(Rect::from_ints(6, 3, 10, 8)));
    assert_eq!(long_sword_hurtbox(7), Some(Rect::from_ints(6, 5, 10, 9)));
    assert_eq!(long_sword_hurtbox(8), None);
    assert_eq!(short_sword_hurtbox(0), None);
    assert_eq!(short_sword_hurtbox(1), Some(Rect::from_ints(10, 5, 3, 5)));
    assert_eq!(short_sword_hurtbox(2), Some(Rect::from_ints(8, 5, 6, 6)));
    assert_eq!(short_sword_hurtbox(3), Some(Rect::from_ints(8, 6, 8, 8)));
    assert_eq!(short_sword_hurtbox(4), Some(Rect::from_ints(8, 7, 5, 7)));
    assert_eq!(short_sword_hurtbox(5), Some(Rect::from_ints(8, 7, 7, 7)));
    assert_eq!(short_sword_hurtbox(6), Some(Rect::from_ints(8, 5, 7, 8)));
    assert_eq!(short_sword_hurtbox(7), Some(Rect::from_ints(8, 4, 4, 7)));
    assert_eq!(short_sword_hurtbox(8), None);
    assert_eq!(SwordState::LongSword.ground_attack_hurtbox(4), long_sword_hurtbox(4));
    assert_eq!(SwordState::ShortSword.ground_attack_hurtbox(4), short_sword_hurtbox(4));
    assert_eq!(SwordState::LongSword.air_attack_hurtbox(2), Some(Rect::from_ints(0, 0, 16, 16)));
}
