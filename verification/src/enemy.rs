//! The enemies: the slime, which hops toward the player along the ground,
//! and the bat, which homes in on the player through the air.

use vstd::prelude::*;
use crate::entity::Entity;
use crate::entity::EntityModel;
use crate::entity::SpriteModel;
use crate::entity::collider_of;
use crate::entity::after_move;
use crate::entity::homing_velocity;
use crate::entity::showing;
use crate::entity::steer;
use crate::entity::NEAR_LIMIT;
use crate::instruction::InstructionModel;
use crate::instruction::UpdateInstruction;
use crate::level::Level;
use crate::number::Number;
use crate::particle::ParticleData;
use crate::player::Player;
use crate::player::PlayerModel;
use crate::player::Tri;
use crate::vector::MaskRect;
use crate::vector::Vec2;

verus! {

/// Bound on the raw velocity components from which an enemy can be updated.
pub const ENEMY_SPEED_LIMIT: i32 = 0x0400_0000 - 16;

/// Raw manhattan distance within which a bat notices the player.
pub const BAT_AGGRO: i32 = 50 * 256;

/// Raw manhattan distance within which a slime notices the player.
pub const SLIME_AGGRO: i32 = 40 * 256;

/// Frames a bat chases before it rests.
pub const BAT_CHASE_FRAMES: u16 = 300;

/// Position `i` of a sequence that runs from 0 up to `n` - 1 and back down
/// to 0, over and over.
pub open spec fn spec_ping_pong(i: int, n: int) -> int {
    let cycle = 2 * (n - 1);
    let j = i % cycle;
    if j >= n {
        cycle - j
    } else {
        j
    }
}

/// Position `i` of a sequence that runs from 0 up to `n` - 1 and back down
/// to 0, over and over. The sequence needs at least two values.
pub fn ping_pong(i: u16, n: u16) -> (r: u16)
    requires
        2 <= n <= 0x8000,
    ensures
        r == spec_ping_pong(i as int, n as int),
        r < n,
{
    let cycle: u16 = 2 * (n - 1);
    let i: u16 = i % cycle;
    if i >= n {
        cycle - i
    } else {
        i
    }
}

/// The sequence of [`spec_ping_pong`] rises from 0 to `n` - 1, falls back to
/// 0, and repeats with period 2 (`n` - 1).
pub proof fn lemma_ping_pong_shape(i: int, n: int)
    requires
        n >= 2,
        i >= 0,
    ensures
        i < n ==> spec_ping_pong(i, n) == i,
        n - 1 <= i <= 2 * (n - 1) ==> spec_ping_pong(i, n) == 2 * (n - 1) - i,
        spec_ping_pong(i + 2 * (n - 1), n) == spec_ping_pong(i, n),
        0 <= spec_ping_pong(i, n) <= n - 1,
{
    let cycle = 2 * (n - 1);
    assert(i < cycle ==> i % cycle == i) by (nonlinear_arith)
        requires
            i >= 0,
            cycle > 0,
    ;
    assert(cycle % cycle == 0) by (nonlinear_arith)
        requires
            cycle > 0,
    ;
    assert((i + cycle) % cycle == i % cycle) by (nonlinear_arith)
        requires
            cycle > 0,
    ;
    assert(0 <= i % cycle < cycle) by (nonlinear_arith)
        requires
            cycle > 0,
    ;
}

/// What a bat is doing: resting, chasing with frames remaining, or falling
/// dead.
#[derive(Clone, Copy, Debug, PartialEq, Eq, Structural)]
pub enum BatState {
    Idle,
    Chasing(u16),
    Dead,
}

/// State of a bat.
#[derive(Clone, Copy, Debug, PartialEq, Eq, Structural)]
pub struct BatData {
    pub sprite_offset: u16,
    pub bat_state: BatState,
}

/// Model of a [`BatState`].
pub enum BatStateModel {
    Idle,
    Chasing(int),
    Dead,
}

/// Model of a [`BatData`].
pub struct BatModel {
    pub sprite_offset: int,
    pub bat_state: BatStateModel,
}

impl View for BatData {
    type V = BatModel;

    open spec fn view(&self) -> BatModel {
        BatModel {
            sprite_offset: self.sprite_offset as int,
            bat_state: match self.bat_state {
                BatState::Idle => BatStateModel::Idle,
                BatState::Chasing(count) => BatStateModel::Chasing(count as int),
                BatState::Dead => BatStateModel::Dead,
            },
        }
    }
}

/// What a slime is doing: resting, hopping in a direction, or dying with
/// the frames of its death animation counted.
#[derive(Clone, Copy, Debug, PartialEq, Eq, Structural)]
pub enum SlimeState {
    Idle,
    Chasing(Tri),
    Dead(u16),
}

/// State of a slime.
#[derive(Clone, Copy, Debug, PartialEq, Eq, Structural)]
pub struct SlimeData {
    pub sprite_offset: u16,
    pub slime_state: SlimeState,
}

/// Model of a [`SlimeState`].
pub enum SlimeStateModel {
    Idle,
    Chasing(Tri),
    Dead(int),
}

/// Model of a [`SlimeData`].
pub struct SlimeModel {
    pub sprite_offset: int,
    pub slime_state: SlimeStateModel,
}

impl View for SlimeData {
    type V = SlimeModel;

    open spec fn view(&self) -> SlimeModel {
        SlimeModel {
            sprite_offset: self.sprite_offset as int,
            slime_state: match self.slime_state {
                SlimeState::Idle => SlimeStateModel::Idle,
                SlimeState::Chasing(direction) => SlimeStateModel::Chasing(direction),
                SlimeState::Dead(count) => SlimeStateModel::Dead(count as int),
            },
        }
    }
}

/// Whether the player's hurtbox touches the collision box of the actor `e`.
pub open spec fn struck(player: PlayerModel, e: EntityModel) -> bool {
    match player.hurtbox {
        Some(h) => h.touches(collider_of(e.position, e.collision_mask)),
        None => false,
    }
}

/// Whether the collision box of the actor `e` touches the player's.
pub open spec fn touching(player: PlayerModel, e: EntityModel) -> bool {
    collider_of(e.position, e.collision_mask).touches(
        collider_of(player.entity.position, player.entity.collision_mask),
    )
}

/// What a live enemy reports: nothing when struck, a hit on the player when
/// it touches the player, nothing otherwise.
pub open spec fn contact_instruction(die: bool, damage: bool) -> InstructionModel {
    if !die && damage {
        InstructionModel::DamagePlayer
    } else {
        InstructionModel::Nothing
    }
}

/// The side of `from` on which `to` lies.
pub open spec fn side_of(from: int, to: int) -> Tri {
    if to > from {
        Tri::Positive
    } else if to < from {
        Tri::Negative
    } else {
        Tri::Zero
    }
}

impl BatModel {
    /// Whether the counters are where the bat's own updates leave them: the
    /// animation counter within its cycle, the chase within its length.
    pub open spec fn wf(self) -> bool {
        &&& 0 <= self.sprite_offset <= 72
        &&& match self.bat_state {
            BatStateModel::Chasing(count) => 0 <= count <= BAT_CHASE_FRAMES,
            _ => true,
        }
    }

    /// Whether a bat in this state, with the body `e`, can be updated.
    pub open spec fn ready(self, e: EntityModel) -> bool {
        &&& e.position.within(NEAR_LIMIT as int)
        &&& e.velocity.within(ENEMY_SPEED_LIMIT as int)
        &&& 0 <= self.sprite_offset < u16::MAX
    }

    /// A resting bat after one frame: the flap animation goes on; within
    /// reach of the player the chase begins.
    pub open spec fn rested(self, e: EntityModel, player: PlayerModel) -> (BatModel, EntityModel) {
        let counted = if self.sprite_offset + 1 >= 72 {
            0
        } else {
            self.sprite_offset + 1
        };
        let near = e.position.minus(player.entity.position).manhattan() < BAT_AGGRO;
        (
            if near {
                BatModel {
                    sprite_offset: counted / 4,
                    bat_state: BatStateModel::Chasing(BAT_CHASE_FRAMES as int),
                }
            } else {
                BatModel { sprite_offset: counted, bat_state: BatStateModel::Idle }
            },
            showing(e, (78 + counted / 8) * 4),
        )
    }

    /// A chasing bat with `count` frames left after one frame: it flies at a
    /// quarter unit per frame straight toward the player, and rests when the
    /// count has run out.
    pub open spec fn chased(
        self,
        count: int,
        e: EntityModel,
        player: PlayerModel,
        level: Level,
    ) -> (BatModel, EntityModel) {
        let counted = if self.sprite_offset + 1 >= 18 {
            0
        } else {
            self.sprite_offset + 1
        };
        let aimed = EntityModel {
            velocity: homing_velocity(player.entity.position.minus(e.position), e.velocity, 64),
            ..showing(e, (78 + counted / 2) * 4)
        };
        (
            if count == 0 {
                BatModel { sprite_offset: counted * 4, bat_state: BatStateModel::Idle }
            } else {
                BatModel { sprite_offset: counted, bat_state: BatStateModel::Chasing(count - 1) }
            },
            after_move(aimed, level),
        )
    }

    /// The body of a dead bat before it falls in this frame.
    pub open spec fn dropping(e: EntityModel) -> EntityModel {
        EntityModel { velocity: Vec2 { x: 0, y: e.velocity.y + 16 }, ..showing(e, 348) }
    }

    /// Whether a dead bat with the body `e` comes to rest on the ground in
    /// this frame: it moves, but less far than it would fall freely.
    pub open spec fn lands(e: EntityModel, level: Level) -> bool {
        let falling = BatModel::dropping(e);
        let travelled = after_move(falling, level).position.y - e.position.y;
        travelled != 0 && falling.velocity.y != travelled
    }

    /// The bat, its body and its instruction after one frame.
    pub open spec fn step(self, e: EntityModel, player: PlayerModel, level: Level) -> (
        BatModel,
        EntityModel,
        InstructionModel,
    ) {
        let die = struck(player, e);
        let damage = touching(player, e);
        match self.bat_state {
            BatStateModel::Idle => {
                let (bat, body) = self.rested(e, player);
                (
                    if die {
                        BatModel { bat_state: BatStateModel::Dead, ..bat }
                    } else {
                        bat
                    },
                    body,
                    contact_instruction(die, damage),
                )
            },
            BatStateModel::Chasing(count) => {
                let (bat, body) = self.chased(count, e, player, level);
                (
                    if die {
                        BatModel { bat_state: BatStateModel::Dead, ..bat }
                    } else {
                        bat
                    },
                    body,
                    contact_instruction(die, damage),
                )
            },
            BatStateModel::Dead => {
                let body = after_move(BatModel::dropping(e), level);
                (
                    self,
                    body,
                    if BatModel::lands(e, level) {
                        InstructionModel::CreateParticle(ParticleData::Health(0), body.position)
                    } else {
                        InstructionModel::Nothing
                    },
                )
            },
        }
    }
}

impl SlimeModel {
    /// Whether the counters are where the slime's own updates leave them:
    /// the animation counter within the hop or the rest, the death
    /// animation within its length.
    pub open spec fn wf(self) -> bool {
        &&& 0 <= self.sprite_offset <= 42
        &&& match self.slime_state {
            SlimeStateModel::Idle => true,
            SlimeStateModel::Chasing(_) => self.sprite_offset <= 41,
            SlimeStateModel::Dead(count) => 0 <= count <= 20,
        }
    }

    /// Whether a slime in this state, with the body `e`, can be updated.
    pub open spec fn ready(self, e: EntityModel) -> bool {
        &&& e.position.within(NEAR_LIMIT as int)
        &&& e.velocity.within(ENEMY_SPEED_LIMIT as int)
        &&& 0 <= self.sprite_offset < u16::MAX
    }

    /// A resting slime after one frame: the ambient animation goes on;
    /// within reach of the player it starts to hop toward the player's side.
    pub open spec fn rested(self, e: EntityModel, player: PlayerModel) -> (
        SlimeModel,
        EntityModel,
    ) {
        let counted = if self.sprite_offset + 1 >= 32 {
            0
        } else {
            self.sprite_offset + 1
        };
        let near = player.entity.position.minus(e.position).manhattan() < SLIME_AGGRO;
        (
            if near {
                SlimeModel {
                    sprite_offset: 0,
                    slime_state: SlimeStateModel::Chasing(
                        side_of(e.position.x, player.entity.position.x),
                    ),
                }
            } else {
                SlimeModel { sprite_offset: counted, slime_state: SlimeStateModel::Idle }
            },
            showing(e, (29 + counted / 16) * 4),
        )
    }

    /// Raw horizontal velocity of a hop at animation frame `frame`: a fifth
    /// of a unit per frame in the middle of the hop, none at its ends.
    pub open spec fn hop_velocity(frame: int, direction: Tri) -> int {
        if 2 <= frame <= 4 {
            51 * direction.spec_to_int()
        } else {
            0
        }
    }

    /// A hopping slime after one frame. The hop lasts 42 frames; while it
    /// lasts the slime moves with gravity against the tile map, and a slime
    /// that falls late in the hop is put at the hop's landing.
    pub open spec fn chased(self, direction: Tri, e: EntityModel, level: Level) -> (
        SlimeModel,
        EntityModel,
    ) {
        let counted = self.sprite_offset + 1;
        if counted >= 42 {
            (SlimeModel { sprite_offset: counted, slime_state: SlimeStateModel::Idle }, e)
        } else {
            let frame = spec_ping_pong(counted / 6, 5);
            let pushed = EntityModel {
                velocity: Vec2 {
                    x: SlimeModel::hop_velocity(frame, direction),
                    y: e.velocity.y + 16,
                },
                ..showing(e, (frame + 31) * 4)
            };
            let body = after_move(pushed, level);
            (
                SlimeModel {
                    sprite_offset: if body.position.y - e.position.y > 0 && counted > 12 {
                        36
                    } else {
                        counted
                    },
                    slime_state: SlimeStateModel::Chasing(direction),
                },
                body,
            )
        }
    }

    /// The slime, its body and its instruction after one frame.
    pub open spec fn step(self, e: EntityModel, player: PlayerModel, level: Level) -> (
        SlimeModel,
        EntityModel,
        InstructionModel,
    ) {
        let die = struck(player, e);
        let damage = touching(player, e);
        match self.slime_state {
            SlimeStateModel::Idle => {
                let (slime, body) = self.rested(e, player);
                (
                    if die {
                        SlimeModel { slime_state: SlimeStateModel::Dead(0), ..slime }
                    } else {
                        slime
                    },
                    body,
                    contact_instruction(die, damage),
                )
            },
            SlimeStateModel::Chasing(direction) => {
                let (slime, body) = self.chased(direction, e, level);
                (
                    if die {
                        SlimeModel { slime_state: SlimeStateModel::Dead(0), ..slime }
                    } else {
                        slime
                    },
                    body,
                    contact_instruction(die, damage),
                )
            },
            SlimeStateModel::Dead(count) => {
                if count < 20 {
                    (
                        SlimeModel { slime_state: SlimeStateModel::Dead(count + 1), ..self },
                        showing(e, (36 + count / 4) * 4),
                        InstructionModel::Nothing,
                    )
                } else {
                    (self, e, InstructionModel::Remove)
                }
            },
        }
    }
}

/// Whether the player's hurtbox touches the actor's collision box.
fn is_struck(entity: &Entity, player: &Player) -> (r: bool)
    requires
        entity.position@.within(NEAR_LIMIT as int),
        player@.readable(),
    ensures
        r == struck(player@, entity@),
{
    match player.hurtbox {
        Some(hurtbox) => hurtbox.touches(entity.collider()),
        None => false,
    }
}

/// Whether the actor's collision box touches the player's.
fn is_touching(entity: &Entity, player: &Player) -> (r: bool)
    requires
        entity.position@.within(NEAR_LIMIT as int),
        player@.readable(),
    ensures
        r == touching(player@, entity@),
{
    entity.collider().touches(player.entity.collider())
}

/// What a live enemy reports.
fn contact(die: bool, damage: bool) -> (r: UpdateInstruction)
    ensures
        r@ == contact_instruction(die, damage),
{
    if !die && damage {
        UpdateInstruction::DamagePlayer
    } else {
        UpdateInstruction::Nothing
    }
}

impl BatData {
    /// A resting bat.
    pub fn new() -> (r: BatData)
        ensures
            r == (BatData { sprite_offset: 0, bat_state: BatState::Idle }),
    {
        BatData { sprite_offset: 0, bat_state: BatState::Idle }
    }

    /// Advances a resting bat.
    fn rest(&mut self, entity: &mut Entity, player: &Player)
        requires
            old(self)@.ready(old(entity)@),
            old(self).bat_state == BatState::Idle,
            player@.readable(),
        ensures
            (final(self)@, final(entity)@) == old(self)@.rested(old(entity)@, player@),
    {
        self.sprite_offset += 1;
        if self.sprite_offset >= 9 * 8 {
            self.sprite_offset = 0;
        }
        entity.sprite.tile_id = (78 + self.sprite_offset / 8) * 4;
        if entity.position.minus(player.entity.position).manhattan_distance().raw < Number::new(
            50,
        ).raw {
            self.bat_state = BatState::Chasing(BAT_CHASE_FRAMES);
            self.sprite_offset /= 4;
        }
    }

    /// Advances a chasing bat with `count` frames left.
    fn chase(&mut self, count: u16, entity: &mut Entity, player: &Player, level: &Level)
        requires
            old(self)@.ready(old(entity)@),
            player@.readable(),
        ensures
            (final(self)@, final(entity)@) == old(self)@.chased(
                count as int,
                old(entity)@,
                player@,
                *level,
            ),
            final(entity).position@.within(2 * NEAR_LIMIT),
    {
        self.sprite_offset += 1;
        let speed = Number::new(1).over(Number::new(4));
        steer(entity, player.entity.position.minus(entity.position), speed);
        if self.sprite_offset >= 9 * 2 {
            self.sprite_offset = 0;
        }
        entity.sprite.tile_id = (78 + self.sprite_offset / 2) * 4;
        entity.update_position(level);
        if count == 0 {
            self.bat_state = BatState::Idle;
            self.sprite_offset *= 4;
        } else {
            self.bat_state = BatState::Chasing(count - 1);
        }
    }

    /// Advances a dead bat; returns its instruction.
    fn fall(entity: &mut Entity, level: &Level) -> (r: UpdateInstruction)
        requires
            old(entity).position@.within(NEAR_LIMIT as int),
            old(entity).velocity@.within(ENEMY_SPEED_LIMIT as int),
        ensures
            final(entity)@ == after_move(BatModel::dropping(old(entity)@), *level),
            r@ == (if BatModel::lands(old(entity)@, *level) {
                InstructionModel::CreateParticle(ParticleData::Health(0), final(entity).position@)
            } else {
                InstructionModel::Nothing
            }),
            final(entity).position@.within(2 * NEAR_LIMIT),
            r@.in_reach(),
    {
        entity.sprite.tile_id = 87 * 4;
        let gravity = Number::new(1).over_int(16);
        entity.velocity.x = Number::new(0);
        entity.velocity.y = entity.velocity.y.plus(gravity);
        let falling_speed = entity.velocity.y;
        let move_amount = entity.update_position(level);
        let just_landed = move_amount.y.raw != 0 && falling_speed.raw != move_amount.y.raw;
        if just_landed {
            UpdateInstruction::CreateParticle(ParticleData::new_health(), entity.position)
        } else {
            UpdateInstruction::Nothing
        }
    }

    /// Advances the bat by one frame.
    ///
    /// A resting bat starts to chase once the player is within reach. A
    /// chasing bat flies straight at the player for a fixed number of frames.
    /// A bat that the player's hurtbox touches dies; a live bat that touches
    /// the player asks for a hit on the player. A dead bat falls, and asks
    /// for a heal orb in the frame in which it lands.
    pub fn update(&mut self, entity: &mut Entity, player: &Player, level: &Level) -> (r:
        UpdateInstruction)
        requires
            old(self)@.ready(old(entity)@),
            player@.readable(),
        ensures
            (final(self)@, final(entity)@, r@) == old(self)@.step(old(entity)@, player@, *level),
            final(entity).position@.within(2 * NEAR_LIMIT),
            r@.in_reach(),
    {
        let should_die = is_struck(entity, player);
        let should_damage = is_touching(entity, player);
        match self.bat_state {
            BatState::Idle => {
                self.rest(entity, player);
                if should_die {
                    self.bat_state = BatState::Dead;
                }
                contact(should_die, should_damage)
            },
            BatState::Chasing(count) => {
                self.chase(count, entity, player, level);
                if should_die {
                    self.bat_state = BatState::Dead;
                }
                contact(should_die, should_damage)
            },
            BatState::Dead => BatData::fall(entity, level),
        }
    }
}

impl SlimeData {
    /// A resting slime.
    pub fn new() -> (r: SlimeData)
        ensures
            r == (SlimeData { sprite_offset: 0, slime_state: SlimeState::Idle }),
    {
        SlimeData { sprite_offset: 0, slime_state: SlimeState::Idle }
    }

    /// Advances a resting slime.
    fn rest(&mut self, entity: &mut Entity, player: &Player)
        requires
            old(self)@.ready(old(entity)@),
            old(self).slime_state == SlimeState::Idle,
            player@.readable(),
        ensures
            (final(self)@, final(entity)@) == old(self)@.rested(old(entity)@, player@),
    {
        self.sprite_offset += 1;
        if self.sprite_offset >= 32 {
            self.sprite_offset = 0;
        }
        entity.sprite.tile_id = (29 + self.sprite_offset / 16) * 4;
        if player.entity.position.minus(entity.position).manhattan_distance().raw < Number::new(
            40,
        ).raw {
            let direction = if player.entity.position.x.raw > entity.position.x.raw {
                Tri::Positive
            } else if player.entity.position.x.raw < entity.position.x.raw {
                Tri::Negative
            } else {
                Tri::Zero
            };
            self.slime_state = SlimeState::Chasing(direction);
            self.sprite_offset = 0;
        }
    }

    /// Advances a hopping slime.
    fn chase(&mut self, direction: Tri, entity: &mut Entity, level: &Level)
        requires
            old(self)@.ready(old(entity)@),
            old(self).slime_state == SlimeState::Chasing(direction),
        ensures
            (final(self)@, final(entity)@) == old(self)@.chased(direction, old(entity)@, *level),
            final(entity).position@.within(2 * NEAR_LIMIT),
    {
        self.sprite_offset += 1;
        if self.sprite_offset >= 7 * 6 {
            self.slime_state = SlimeState::Idle;
        } else {
            let frame = ping_pong(self.sprite_offset / 6, 5);
            entity.sprite.tile_id = (frame + 31) * 4;
            entity.velocity.x = match frame {
                2 | 3 | 4 => Number::new(1).over_int(5).times_int(direction.to_int()),
                _ => Number::new(0),
            };
            let gravity = Number::new(1).over_int(16);
            entity.velocity.y = entity.velocity.y.plus(gravity);
            let updated_position = entity.update_position(level);
            if updated_position.y.raw > Number::new(0).raw && self.sprite_offset > 2 * 6 {
                self.sprite_offset = 6 * 6;
            }
        }
    }

    /// Advances the slime by one frame.
    ///
    /// A resting slime starts to hop toward the player once the player is
    /// within reach, and rests again when the hop is over. A slime that the
    /// player's hurtbox touches dies; a live slime that touches the player
    /// asks for a hit on the player. A dying slime plays its death animation
    /// and then asks to be removed.
    pub fn update(&mut self, entity: &mut Entity, player: &Player, level: &Level) -> (r:
        UpdateInstruction)
        requires
            old(self)@.ready(old(entity)@),
            player@.readable(),
        ensures
            (final(self)@, final(entity)@, r@) == old(self)@.step(old(entity)@, player@, *level),
            final(entity).position@.within(2 * NEAR_LIMIT),
            !(r@ is CreateParticle),
    {
        let should_die = is_struck(entity, player);
        let should_damage = is_touching(entity, player);
        match self.slime_state {
            SlimeState::Idle => {
                self.rest(entity, player);
                if should_die {
                    self.slime_state = SlimeState::Dead(0);
                }
                contact(should_die, should_damage)
            },
            SlimeState::Chasing(direction) => {
                self.chase(direction, entity, level);
                if should_die {
                    self.slime_state = SlimeState::Dead(0);
                }
                contact(should_die, should_damage)
            },
            SlimeState::Dead(count) => {
                if count < 5 * 4 {
                    entity.sprite.tile_id = (36 + count / 4) * 4;
                    self.slime_state = SlimeState::Dead(count + 1);
                    UpdateInstruction::Nothing
                } else {
                    UpdateInstruction::Remove
                }
            },
        }
    }
}

/// Kind of an enemy with its state.
#[derive(Clone, Copy, Debug, PartialEq, Eq, Structural)]
pub enum EnemyData {
    Slime(SlimeData),
    Bat(BatData),
}

/// Model of an [`EnemyData`].
pub enum EnemyDataModel {
    Slime(SlimeModel),
    Bat(BatModel),
}

impl View for EnemyData {
    type V = EnemyDataModel;

    open spec fn view(&self) -> EnemyDataModel {
        match *self {
            EnemyData::Slime(data) => EnemyDataModel::Slime(data@),
            EnemyData::Bat(data) => EnemyDataModel::Bat(data@),
        }
    }
}

impl EnemyDataModel {
    /// Whether the counters are where the enemy's own updates leave them.
    pub open spec fn wf(self) -> bool {
        match self {
            EnemyDataModel::Slime(data) => data.wf(),
            EnemyDataModel::Bat(data) => data.wf(),
        }
    }

    /// Whether an enemy in this state, with the body `e`, can be updated.
    pub open spec fn ready(self, e: EntityModel) -> bool {
        match self {
            EnemyDataModel::Slime(data) => data.ready(e),
            EnemyDataModel::Bat(data) => data.ready(e),
        }
    }

    /// The enemy, its body and its instruction after one frame.
    pub open spec fn step(self, e: EntityModel, player: PlayerModel, level: Level) -> (
        EnemyDataModel,
        EntityModel,
        InstructionModel,
    ) {
        match self {
            EnemyDataModel::Slime(data) => {
                let (slime, body, instruction) = data.step(e, player, level);
                (EnemyDataModel::Slime(slime), body, instruction)
            },
            EnemyDataModel::Bat(data) => {
                let (bat, body, instruction) = data.step(e, player, level);
                (EnemyDataModel::Bat(bat), body, instruction)
            },
        }
    }
}

impl EnemyData {
    /// Collision box of the enemy's kind.
    pub fn collision_mask(&self) -> (r: MaskRect)
        ensures
            r == self.spec_collision_mask(),
    {
        match self {
            EnemyData::Slime(_) => MaskRect::new(0, 0, 4, 11),
            EnemyData::Bat(_) => MaskRect::new(0, 0, 12, 4),
        }
    }

    /// Collision box of the enemy's kind.
    pub open spec fn spec_collision_mask(self) -> MaskRect {
        match self {
            EnemyData::Slime(_) => MaskRect { x: 0, y: 0, width: 4, height: 11 },
            EnemyData::Bat(_) => MaskRect { x: 0, y: 0, width: 12, height: 4 },
        }
    }

    /// First animation frame of the enemy's kind.
    pub open spec fn spec_tile_id(self) -> int {
        match self {
            EnemyData::Slime(_) => 29,
            EnemyData::Bat(_) => 78,
        }
    }

    /// First animation frame of the enemy's kind.
    pub fn tile_id(&self) -> (r: u16)
        ensures
            r == self.spec_tile_id(),
    {
        match self {
            EnemyData::Slime(_) => 29,
            EnemyData::Bat(_) => 78,
        }
    }

    /// Advances the enemy by one frame, as its kind does.
    pub fn update(&mut self, entity: &mut Entity, player: &Player, level: &Level) -> (r:
        UpdateInstruction)
        requires
            old(self)@.ready(old(entity)@),
            player@.readable(),
        ensures
            (final(self)@, final(entity)@, r@) == old(self)@.step(old(entity)@, player@, *level),
            final(entity).position@.within(2 * NEAR_LIMIT),
            r@.in_reach(),
    {
        match self {
            EnemyData::Slime(data) => data.update(entity, player, level),
            EnemyData::Bat(data) => data.update(entity, player, level),
        }
    }
}

/// An enemy: a body and the state of its kind.
#[derive(Clone, Copy, Debug, PartialEq, Eq, Structural)]
pub struct Enemy {
    pub entity: Entity,
    pub enemy_data: EnemyData,
}

/// Model of an [`Enemy`].
pub struct EnemyModel {
    pub entity: EntityModel,
    pub enemy_data: EnemyDataModel,
}

impl View for Enemy {
    type V = EnemyModel;

    open spec fn view(&self) -> EnemyModel {
        EnemyModel { entity: self.entity@, enemy_data: self.enemy_data@ }
    }
}

impl EnemyModel {
    /// Whether the counters are where the enemy's own updates leave them.
    pub open spec fn wf(self) -> bool {
        self.enemy_data.wf()
    }

    /// Whether the body is within the limits from which it can be moved.
    pub open spec fn in_range(self) -> bool {
        &&& self.entity.position.within(NEAR_LIMIT as int)
        &&& self.entity.velocity.within(ENEMY_SPEED_LIMIT as int)
    }

    /// Whether the enemy can be updated.
    pub open spec fn ready(self) -> bool {
        self.enemy_data.ready(self.entity)
    }

    /// The enemy and its instruction after one frame.
    pub open spec fn step(self, player: PlayerModel, level: Level) -> (
        EnemyModel,
        InstructionModel,
    ) {
        let (enemy_data, entity, instruction) = self.enemy_data.step(self.entity, player, level);
        (EnemyModel { entity, enemy_data }, instruction)
    }
}

impl Enemy {
    /// An enemy of the given kind at the origin, shown with the first frame
    /// of its kind.
    pub fn new(enemy_data: EnemyData) -> (r: Enemy)
        ensures
            r.enemy_data == enemy_data,
            r.entity.collision_mask == enemy_data.spec_collision_mask(),
            r.entity.position@ == (Vec2 { x: 0, y: 0 }),
            r.entity.velocity@ == (Vec2 { x: 0, y: 0 }),
            r.entity.visible,
            r.entity.sprite@ == (SpriteModel {
                tile_id: enemy_data.spec_tile_id(),
                hflip: false,
                position: Vec2 { x: 0, y: 0 },
                visible: true,
            }),
    {
        let mut entity = Entity::new(enemy_data.collision_mask());
        entity.sprite.tile_id = enemy_data.tile_id();
        entity.sprite.visible = true;
        Enemy { entity, enemy_data }
    }

    /// Whether the enemy can be updated.
    pub fn can_update(&self) -> (r: bool)
        ensures
            r == self@.ready(),
    {
        let position = self.entity.position;
        let velocity = self.entity.velocity;
        let counter = match self.enemy_data {
            EnemyData::Slime(data) => data.sprite_offset,
            EnemyData::Bat(data) => data.sprite_offset,
        };
        -NEAR_LIMIT <= position.x.raw && position.x.raw <= NEAR_LIMIT && -NEAR_LIMIT
            <= position.y.raw && position.y.raw <= NEAR_LIMIT && -ENEMY_SPEED_LIMIT
            <= velocity.x.raw && velocity.x.raw <= ENEMY_SPEED_LIMIT && -ENEMY_SPEED_LIMIT
            <= velocity.y.raw && velocity.y.raw <= ENEMY_SPEED_LIMIT && counter < u16::MAX
    }

    /// Advances the enemy by one frame against the player and the level.
    pub fn update(&mut self, player: &Player, level: &Level) -> (r: UpdateInstruction)
        requires
            old(self)@.ready(),
            player@.readable(),
        ensures
            (final(self)@, r@) == old(self)@.step(player@, *level),
            final(self).entity.position@.within(2 * NEAR_LIMIT),
            r@.in_reach(),
    {
        self.enemy_data.update(&mut self.entity, player, level)
    }
}

/// A resting slime that the player does not strike stays at rest while the
/// player is at the aggro distance or beyond, and starts to hop toward the
/// player's side once the player is nearer.
pub proof fn lemma_slime_notices_the_player(
    slime: SlimeModel,
    e: EntityModel,
    player: PlayerModel,
    level: Level,
)
    requires
        slime.slime_state is Idle,
        !struck(player, e),
    ensures
        player.entity.position.minus(e.position).manhattan() >= SLIME_AGGRO ==> slime.step(
            e,
            player,
            level,
        ).0.slime_state is Idle,
        player.entity.position.minus(e.position).manhattan() < SLIME_AGGRO ==> slime.step(
            e,
            player,
            level,
        ).0.slime_state == SlimeStateModel::Chasing(
            side_of(e.position.x, player.entity.position.x),
        ),
        slime.step(e, player, level).1.position == e.position,
{
}

/// An update leaves the counters of an enemy where its updates leave them,
/// and an enemy with such counters can be updated whenever its body is
/// within the limits.
pub proof fn lemma_enemy_stays_well_formed(enemy: EnemyModel, player: PlayerModel, level: Level)
    requires
        enemy.wf(),
    ensures
        enemy.step(player, level).0.wf(),
        enemy.in_range() ==> enemy.ready(),
{
    match enemy.enemy_data {
        EnemyDataModel::Slime(slime) => {
            if let SlimeStateModel::Chasing(direction) = slime.slime_state {
                let counted = slime.sprite_offset + 1;
                if counted < 42 {
                    lemma_ping_pong_shape(counted / 6, 5);
                }
            }
        },
        EnemyDataModel::Bat(bat) => {},
    }
}

} // verus!
