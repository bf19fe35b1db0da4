use purple_night::enemy::{ping_pong, BatData, BatState, Enemy, EnemyData, SlimeData, SlimeState};
use purple_night::entity::{steer, Entity, Sprite};
use purple_night::instruction::UpdateInstruction;
use purple_night::level::Level;
use purple_night::number::Number;
use purple_night::particle::ParticleData;
use purple_night::player::{Player, Tri};
use purple_night::vector::{IntVector2D, MaskRect, Rect, Vector2D};

/// A level of 40 by 10 tiles whose bottom row is solid.
fn floor_level() -> Level {
    let mut foreground = vec![0u16; 400];
    for x in 0..40 {
        foreground[9 * 40 + x] = 1;
    }
    Level::load_level(40, 10, vec![0; 400], foreground, vec![0, 1], &vec![], &vec![], &vec![], &vec![]).unwrap()
}

fn raw(x: i32, y: i32) -> Vector2D {
    Vector2D::new(Number::from_raw(x), Number::from_raw(y))
}

/// A player standing on the floor at the horizontal position `x`.
fn player_at(x: i32) -> Player {
    let mut player = Player::new();
    player.entity.position = raw(x * 256, 16896);
    player
}

/// A slime standing on the floor at the horizontal position `x`.
fn slime_at(x: i32) -> Enemy {
    let mut slime = Enemy::new(EnemyData::Slime(SlimeData::new()));
    slime.entity.position = raw(x * 256, 17024);
    slime
}

/// A bat in the air at the given position.
fn bat_at(x: i32, y: i32) -> Enemy {
    let mut bat = Enemy::new(EnemyData::Bat(BatData::new()));
    bat.entity.position = Vector2D::from_ints(x, y);
    bat
}

fn step(enemy: &mut Enemy, player: &Player, level: &Level) -> UpdateInstruction {
    assert!(enemy.can_update());
    enemy.update(player, level)
}

fn slime_state(enemy: &Enemy) -> SlimeData {
    match enemy.enemy_data {
        EnemyData::Slime(data) => data,
        EnemyData::Bat(_) => panic!("not a slime"),
    }
}

fn bat_state(enemy: &Enemy) -> BatData {
    match enemy.enemy_data {
        EnemyData::Bat(data) => data,
        EnemyData::Slime(_) => panic!("not a bat"),
    }
}

#[test]
fn ping_pong_examples() {
    assert_eq!(ping_pong(0, 5), 0);
    assert_eq!(ping_pong(4, 5), 4);
    assert_eq!(ping_pong(6, 5), 2);
}

#[test]
fn ping_pong_rises_and_falls_with_period() {
    let expected = [0, 1, 2, 3, 4, 3, 2, 1, 0, 1, 2, 3, 4, 3, 2, 1, 0];
    for (i, value) in expected.iter().enumerate() {
        assert_eq!(ping_pong(i as u16, 5), *value);
    }
    for n in 2..40u16 {
        for i in 0..200u16 {
            assert_eq!(ping_pong(i, n), ping_pong(i + 2 * (n - 1), n));
            assert!(ping_pong(i, n) < n);
        }
        for i in 0..n {
            assert_eq!(ping_pong(i, n), i);
            assert_eq!(ping_pong(2 * (n - 1) - i, n), i);
        }
    }
    assert_eq!(ping_pong(7, 2), 1);
    assert_eq!(ping_pong(65535, 0x8000), 1);
}

#[test]
fn new_enemies_show_the_first_frame_of_their_kind() {
    let slime = Enemy::new(EnemyData::Slime(SlimeData::new()));
    assert_eq!(slime.entity.collision_mask, MaskRect::new(0, 0, 4, 11));
    assert_eq!(
        slime.entity.sprite,
        Sprite { tile_id: 29, hflip: false, position: IntVector2D::new(0, 0), visible: true }
    );
    assert_eq!(slime.enemy_data, EnemyData::Slime(SlimeData { sprite_offset: 0, slime_state: SlimeState::Idle }));
    let bat = Enemy::new(EnemyData::Bat(BatData::new()));
    assert_eq!(bat.entity.collision_mask, MaskRect::new(0, 0, 12, 4));
    assert_eq!(bat.entity.sprite.tile_id, 78);
    assert_eq!(bat.enemy_data, EnemyData::Bat(BatData { sprite_offset: 0, bat_state: BatState::Idle }));
    assert_eq!(bat.enemy_data.tile_id(), 78);
    assert_eq!(slime.enemy_data.collision_mask(), MaskRect::new(0, 0, 4, 11));
}

#[test]
fn a_slime_far_from_the_player_stays_idle_and_chases_once_near() {
    let level = floor_level();
    let mut slime = slime_at(120);
    let mut player = player_at(58);
    assert_eq!(step(&mut slime, &player, &level), UpdateInstruction::Nothing);
    assert_eq!(slime_state(&slime), SlimeData { sprite_offset: 1, slime_state: SlimeState::Idle });
    assert_eq!(slime.entity.sprite.tile_id, 29 * 4);
    assert_eq!(slime.entity.position, raw(120 * 256, 17024));
    player.entity.position = raw(90 * 256, 16896);
    assert_eq!(step(&mut slime, &player, &level), UpdateInstruction::Nothing);
    assert_eq!(
        slime_state(&slime),
        SlimeData { sprite_offset: 0, slime_state: SlimeState::Chasing(Tri::Negative) }
    );
    let mut other = slime_at(120);
    player.entity.position = raw(150 * 256, 16896);
    step(&mut other, &player, &level);
    assert_eq!(
        slime_state(&other),
        SlimeData { sprite_offset: 0, slime_state: SlimeState::Chasing(Tri::Positive) }
    );
}

#[test]
fn the_aggro_threshold_of_a_slime_is_strict() {
    let level = floor_level();
    let mut player = player_at(80);
    // vertical distance is half a unit, so 39 units apart is 39.5 in all
    let mut near = slime_at(119);
    step(&mut near, &player, &level);
    assert_eq!(slime_state(&near).slime_state, SlimeState::Chasing(Tri::Negative));
    player.entity.position = raw(80 * 256, 17024);
    let mut edge = slime_at(120);
    step(&mut edge, &player, &level);
    assert_eq!(slime_state(&edge).slime_state, SlimeState::Idle);
    let mut above = slime_at(80);
    player.entity.position = raw(80 * 256, 17024 - 30 * 256);
    step(&mut above, &player, &level);
    assert_eq!(slime_state(&above).slime_state, SlimeState::Chasing(Tri::Zero));
}

#[test]
fn the_idle_animation_of_a_slime_cycles() {
    let level = floor_level();
    let player = player_at(200);
    let mut slime = slime_at(20);
    let mut tiles = Vec::new();
    for _ in 0..33 {
        step(&mut slime, &player, &level);
        tiles.push(slime.entity.sprite.tile_id);
    }
    assert_eq!(tiles[14], 29 * 4);
    assert_eq!(tiles[15], 30 * 4);
    assert_eq!(tiles[30], 30 * 4);
    assert_eq!(tiles[31], 29 * 4);
    assert_eq!(slime_state(&slime).sprite_offset, 1);
}

#[test]
fn a_hopping_slime_moves_in_the_middle_of_the_hop() {
    let level = floor_level();
    let player = player_at(200);
    let mut slime = slime_at(120);
    slime.enemy_data =
        EnemyData::Slime(SlimeData { sprite_offset: 0, slime_state: SlimeState::Chasing(Tri::Negative) });
    let mut moves = Vec::new();
    let mut tiles = Vec::new();
    for _ in 0..41 {
        let before = slime.entity.position;
        assert_eq!(step(&mut slime, &player, &level), UpdateInstruction::Nothing);
        moves.push(slime.entity.position.minus(before));
        tiles.push(slime.entity.sprite.tile_id);
        assert_eq!(slime_state(&slime).slime_state, SlimeState::Chasing(Tri::Negative));
    }
    for (i, moved) in moves.iter().enumerate() {
        let counter = i + 1;
        let expected = if (12..42).contains(&counter) { -51 } else { 0 };
        assert_eq!(*moved, raw(expected, 0));
    }
    assert_eq!(tiles[0], 31 * 4);
    assert_eq!(tiles[5], 32 * 4);
    assert_eq!(tiles[11], 33 * 4);
    assert_eq!(tiles[23], 35 * 4);
    assert_eq!(tiles[29], 34 * 4);
    assert_eq!(tiles[40], 33 * 4);
    assert_eq!(slime.entity.position, raw(120 * 256 - 30 * 51, 17024));
    let at = slime.entity;
    step(&mut slime, &player, &level);
    assert_eq!(slime_state(&slime), SlimeData { sprite_offset: 42, slime_state: SlimeState::Idle });
    assert_eq!(slime.entity, at);
    step(&mut slime, &player, &level);
    assert_eq!(slime_state(&slime), SlimeData { sprite_offset: 0, slime_state: SlimeState::Idle });
}

#[test]
fn a_slime_that_falls_late_in_a_hop_is_put_at_the_landing() {
    let level = floor_level();
    let player = player_at(200);
    let mut slime = slime_at(120);
    slime.entity.position = raw(120 * 256, 17024 - 2048);
    slime.enemy_data =
        EnemyData::Slime(SlimeData { sprite_offset: 12, slime_state: SlimeState::Chasing(Tri::Positive) });
    step(&mut slime, &player, &level);
    assert_eq!(slime_state(&slime).sprite_offset, 36);
    assert_eq!(slime.entity.position, raw(120 * 256 + 51, 17024 - 2048 + 16));
    let mut early = slime_at(120);
    early.entity.position = raw(120 * 256, 17024 - 2048);
    early.enemy_data =
        EnemyData::Slime(SlimeData { sprite_offset: 11, slime_state: SlimeState::Chasing(Tri::Positive) });
    step(&mut early, &player, &level);
    assert_eq!(slime_state(&early).sprite_offset, 12);
}

#[test]
fn a_slime_that_touches_the_player_hurts() {
    let level = floor_level();
    let player = player_at(58);
    let mut slime = slime_at(60);
    assert_eq!(step(&mut slime, &player, &level), UpdateInstruction::DamagePlayer);
    assert_eq!(slime_state(&slime).slime_state, SlimeState::Chasing(Tri::Negative));
    assert_eq!(step(&mut slime, &player, &level), UpdateInstruction::DamagePlayer);
    // boxes that share an edge touch
    let mut beside = slime_at(62);
    assert_eq!(step(&mut beside, &player, &level), UpdateInstruction::DamagePlayer);
    let mut apart = slime_at(63);
    assert_eq!(step(&mut apart, &player, &level), UpdateInstruction::Nothing);
}

#[test]
fn a_slime_struck_by_the_hurtbox_dies_and_is_removed() {
    let level = floor_level();
    let mut player = player_at(58);
    player.hurtbox = Some(Rect::from_ints(60, 63, 10, 9));
    let mut slime = slime_at(66);
    assert_eq!(step(&mut slime, &player, &level), UpdateInstruction::Nothing);
    assert_eq!(slime_state(&slime).slime_state, SlimeState::Dead(0));
    player.hurtbox = None;
    for count in 0..20u16 {
        let at = slime.entity.position;
        assert_eq!(step(&mut slime, &player, &level), UpdateInstruction::Nothing);
        assert_eq!(slime.entity.sprite.tile_id, (36 + count / 4) * 4);
        assert_eq!(slime_state(&slime).slime_state, SlimeState::Dead(count + 1));
        assert_eq!(slime.entity.position, at);
    }
    assert_eq!(step(&mut slime, &player, &level), UpdateInstruction::Remove);
    assert_eq!(step(&mut slime, &player, &level), UpdateInstruction::Remove);
    assert_eq!(slime_state(&slime).slime_state, SlimeState::Dead(20));
}

#[test]
fn a_struck_slime_does_not_hurt() {
    let level = floor_level();
    let mut player = player_at(58);
    player.hurtbox = Some(Rect::from_ints(50, 60, 20, 20));
    let mut slime = slime_at(60);
    assert_eq!(step(&mut slime, &player, &level), UpdateInstruction::Nothing);
    assert_eq!(slime_state(&slime).slime_state, SlimeState::Dead(0));
    let mut hopping = slime_at(60);
    hopping.enemy_data =
        EnemyData::Slime(SlimeData { sprite_offset: 3, slime_state: SlimeState::Chasing(Tri::Positive) });
    assert_eq!(step(&mut hopping, &player, &level), UpdateInstruction::Nothing);
    assert_eq!(slime_state(&hopping), SlimeData { sprite_offset: 4, slime_state: SlimeState::Dead(0) });
}

#[test]
fn a_bat_starts_to_chase_within_reach() {
    let level = floor_level();
    let mut player = player_at(58);
    let mut bat = bat_at(150, 30);
    for i in 1..=20u16 {
        assert_eq!(step(&mut bat, &player, &level), UpdateInstruction::Nothing);
        assert_eq!(bat_state(&bat), BatData { sprite_offset: i, bat_state: BatState::Idle });
        assert_eq!(bat.entity.sprite.tile_id, (78 + i / 8) * 4);
    }
    assert_eq!(bat.entity.position, Vector2D::from_ints(150, 30));
    player.entity.position = Vector2D::from_ints(130, 20);
    assert_eq!(step(&mut bat, &player, &level), UpdateInstruction::Nothing);
    assert_eq!(bat_state(&bat), BatData { sprite_offset: 5, bat_state: BatState::Chasing(300) });
    player.entity.position = Vector2D::from_ints(130, 60);
    let mut edge = bat_at(150, 30);
    step(&mut edge, &player, &level);
    assert_eq!(bat_state(&edge).bat_state, BatState::Idle);
}

#[test]
fn the_idle_animation_of_a_bat_cycles() {
    let level = floor_level();
    let player = player_at(58);
    let mut bat = bat_at(250, 30);
    bat.enemy_data = EnemyData::Bat(BatData { sprite_offset: 70, bat_state: BatState::Idle });
    step(&mut bat, &player, &level);
    assert_eq!(bat.entity.sprite.tile_id, (78 + 8) * 4);
    step(&mut bat, &player, &level);
    assert_eq!(bat_state(&bat).sprite_offset, 0);
    assert_eq!(bat.entity.sprite.tile_id, 78 * 4);
}

#[test]
fn a_chasing_bat_flies_straight_at_the_player() {
    let level = floor_level();
    let mut player = player_at(58);
    player.entity.position = Vector2D::from_ints(80, 30);
    let mut bat = bat_at(100, 30);
    bat.enemy_data = EnemyData::Bat(BatData { sprite_offset: 16, bat_state: BatState::Chasing(300) });
    assert_eq!(step(&mut bat, &player, &level), UpdateInstruction::Nothing);
    assert_eq!(bat.entity.velocity, raw(-64, 0));
    assert_eq!(bat.entity.position, raw(100 * 256 - 64, 30 * 256));
    assert_eq!(bat_state(&bat), BatData { sprite_offset: 17, bat_state: BatState::Chasing(299) });
    assert_eq!(bat.entity.sprite.tile_id, (78 + 8) * 4);
    player.entity.position = raw(100 * 256 - 64 + 1024, 30 * 256 + 1024);
    step(&mut bat, &player, &level);
    // the unit vector along (4, 4) has components 182 / 256
    assert_eq!(bat.entity.velocity, raw(45, 45));
    assert_eq!(bat_state(&bat), BatData { sprite_offset: 0, bat_state: BatState::Chasing(298) });
    assert_eq!(bat.entity.sprite.tile_id, 78 * 4);
}

#[test]
fn a_bat_on_top_of_the_player_keeps_its_velocity() {
    let level = floor_level();
    let mut player = player_at(58);
    player.entity.position = Vector2D::from_ints(100, 30);
    let mut bat = bat_at(100, 30);
    bat.entity.velocity = raw(10, -20);
    bat.enemy_data = EnemyData::Bat(BatData { sprite_offset: 0, bat_state: BatState::Chasing(5) });
    assert_eq!(step(&mut bat, &player, &level), UpdateInstruction::DamagePlayer);
    assert_eq!(bat.entity.velocity, raw(10, -20));
    assert_eq!(bat.entity.position, raw(100 * 256 + 10, 30 * 256 - 20));
}

#[test]
fn a_bat_rests_when_the_chase_is_over() {
    let level = floor_level();
    let mut player = player_at(58);
    player.entity.position = Vector2D::from_ints(10, 30);
    let mut bat = bat_at(200, 30);
    bat.enemy_data = EnemyData::Bat(BatData { sprite_offset: 6, bat_state: BatState::Chasing(1) });
    step(&mut bat, &player, &level);
    assert_eq!(bat_state(&bat), BatData { sprite_offset: 7, bat_state: BatState::Chasing(0) });
    step(&mut bat, &player, &level);
    assert_eq!(bat_state(&bat), BatData { sprite_offset: 32, bat_state: BatState::Idle });
    assert_eq!(bat.entity.velocity, raw(-64, 0));
}

#[test]
fn a_struck_bat_dies_and_a_touching_bat_hurts() {
    let level = floor_level();
    let mut player = player_at(58);
    player.entity.position = Vector2D::from_ints(100, 30);
    let mut bat = bat_at(104, 30);
    assert_eq!(step(&mut bat, &player, &level), UpdateInstruction::DamagePlayer);
    assert_eq!(bat_state(&bat).bat_state, BatState::Chasing(300));
    player.hurtbox = Some(Rect::from_ints(100, 20, 16, 16));
    assert_eq!(step(&mut bat, &player, &level), UpdateInstruction::Nothing);
    assert_eq!(bat_state(&bat).bat_state, BatState::Dead);
    let mut idle = bat_at(104, 30);
    assert_eq!(step(&mut idle, &player, &level), UpdateInstruction::Nothing);
    assert_eq!(bat_state(&idle).bat_state, BatState::Dead);
}

#[test]
fn a_dead_bat_falls_and_leaves_a_heal_orb_where_it_lands() {
    let level = floor_level();
    let player = player_at(58);
    let mut bat = bat_at(100, 30);
    bat.entity.position = raw(100 * 256, 18432 - 8 - 512 - 16 - 32);
    bat.entity.velocity = raw(77, 0);
    bat.enemy_data = EnemyData::Bat(BatData { sprite_offset: 9, bat_state: BatState::Dead });
    assert_eq!(step(&mut bat, &player, &level), UpdateInstruction::Nothing);
    assert_eq!(bat.entity.sprite.tile_id, 87 * 4);
    assert_eq!(bat.entity.velocity, raw(0, 16));
    assert_eq!(step(&mut bat, &player, &level), UpdateInstruction::Nothing);
    assert_eq!(bat.entity.velocity, raw(0, 32));
    assert_eq!(bat.entity.position, raw(100 * 256, 18432 - 8 - 512));
    assert_eq!(
        step(&mut bat, &player, &level),
        UpdateInstruction::CreateParticle(ParticleData::Health(0), raw(100 * 256, 18432 - 512))
    );
    assert_eq!(bat.entity.velocity, raw(0, 0));
    assert_eq!(step(&mut bat, &player, &level), UpdateInstruction::Nothing);
    assert_eq!(bat.entity.position, raw(100 * 256, 18432 - 512));
    assert_eq!(bat_state(&bat), BatData { sprite_offset: 9, bat_state: BatState::Dead });
}

#[test]
fn steering_sets_the_speed_along_the_direction() {
    let mut entity = Entity::new(MaskRect::new(0, 0, 0, 0));
    steer(&mut entity, Vector2D::from_ints(0, -30), Number::new(2));
    assert_eq!(entity.velocity, Vector2D::from_ints(0, -2));
    steer(&mut entity, Vector2D::from_ints(0, 0), Number::new(2));
    assert_eq!(entity.velocity, Vector2D::from_ints(0, -2));
    steer(&mut entity, Vector2D::from_ints(30, 40), Number::from_raw(64));
    assert_eq!(entity.velocity, raw(38, 51));
}

#[test]
fn an_enemy_beyond_the_limits_cannot_be_updated() {
    let mut far = slime_at(10);
    far.entity.position = raw(0, -0x0400_0001);
    assert!(!far.can_update());
    let mut fast = bat_at(10, 10);
    fast.entity.velocity = raw(0x0400_0000 - 15, 0);
    assert!(!fast.can_update());
    fast.entity.velocity = raw(0x0400_0000 - 16, 0);
    assert!(fast.can_update());
    let mut late = bat_at(10, 10);
    late.enemy_data = EnemyData::Bat(BatData { sprite_offset: u16::MAX, bat_state: BatState::Idle });
    assert!(!late.can_update());
}
