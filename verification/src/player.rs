//! The player: ground and air locomotion crossed with the attack timer, the
//! hurtbox of a swing, and damage and healing.

use vstd::prelude::*;
use crate::entity::Entity;
use crate::entity::EntityModel;
use crate::entity::SpriteModel;
use crate::entity::collider_of;
use crate::entity::committed;
use crate::entity::moved;
use crate::entity::sweep;
use crate::entity::FAR_LIMIT;
use crate::entity::NEAR_LIMIT;
use crate::instruction::InstructionModel;
use crate::instruction::UpdateInstruction;
use crate::level::Level;
use crate::number::Number;
use crate::number::abs_int;
use crate::number::trunc_div;
use crate::particle::ParticleData;
use crate::sword::SwordState;
use crate::vector::IntVector2D;
use crate::vector::MaskRect;
use crate::vector::Rect;
use crate::vector::RectModel;
use crate::vector::Vec2;
use crate::vector::Vector2D;

verus! {

/// Bound on the raw velocity components from which the player can be updated.
pub const PLAYER_SPEED_LIMIT: i32 = 0x0100_0000;

/// Frames during which the player cannot be damaged again.
pub const DAMAGE_COOLDOWN: u16 = 120;

/// A direction on one axis: positive, none or negative.
#[derive(Clone, Copy, Debug, PartialEq, Eq, Structural)]
pub enum Tri {
    Positive,
    Zero,
    Negative,
}

impl Tri {
    /// The direction as 1, 0 or -1.
    pub open spec fn spec_to_int(self) -> int {
        match self {
            Tri::Positive => 1,
            Tri::Zero => 0,
            Tri::Negative => -1,
        }
    }

    /// The direction as 1, 0 or -1.
    pub fn to_int(self) -> (r: i32)
        ensures
            r == self.spec_to_int(),
    {
        match self {
            Tri::Positive => 1,
            Tri::Zero => 0,
            Tri::Negative => -1,
        }
    }
}

/// The input of one frame: the horizontal direction held, and whether the
/// attack and the jump button went down in this frame.
#[derive(Clone, Copy, Debug, PartialEq, Eq, Structural)]
pub struct Input {
    pub x: Tri,
    pub attack: bool,
    pub jump: bool,
}

/// Whether the player stands or is airborne.
#[derive(Clone, Copy, Debug, PartialEq, Eq, Structural)]
pub enum PlayerState {
    OnGround,
    InAir,
}

/// The attack timer: no attack, a swing with frames remaining, or the rest
/// after a swing with frames remaining.
#[derive(Clone, Copy, Debug, PartialEq, Eq, Structural)]
pub enum AttackTimer {
    Idle,
    Attack(u16),
    Cooldown(u16),
}

/// Model of an [`AttackTimer`].
pub enum TimerModel {
    Idle,
    Attack(int),
    Cooldown(int),
}

impl View for AttackTimer {
    type V = TimerModel;

    open spec fn view(&self) -> TimerModel {
        match *self {
            AttackTimer::Idle => TimerModel::Idle,
            AttackTimer::Attack(a) => TimerModel::Attack(a as int),
            AttackTimer::Cooldown(a) => TimerModel::Cooldown(a as int),
        }
    }
}

/// The player.
#[derive(Clone, Copy, Debug, PartialEq, Eq, Structural)]
pub struct Player {
    pub entity: Entity,
    pub facing: Tri,
    pub state: PlayerState,
    pub sprite_offset: u16,
    pub attack_timer: AttackTimer,
    pub damage_cooldown: u16,
    pub sword: SwordState,
    pub fudge_factor: IntVector2D,
    pub hurtbox: Option<Rect>,
}

/// Model of a [`Player`].
pub struct PlayerModel {
    pub entity: EntityModel,
    pub facing: Tri,
    pub state: PlayerState,
    pub sprite_offset: int,
    pub attack_timer: TimerModel,
    pub damage_cooldown: int,
    pub sword: SwordState,
    pub fudge_factor: Vec2,
    pub hurtbox: Option<RectModel>,
}

/// Model of an optional rectangle.
pub open spec fn rect_view(rect: Option<Rect>) -> Option<RectModel> {
    match rect {
        Some(r) => Some(r@),
        None => None,
    }
}

impl View for Player {
    type V = PlayerModel;

    open spec fn view(&self) -> PlayerModel {
        PlayerModel {
            entity: self.entity@,
            facing: self.facing,
            state: self.state,
            sprite_offset: self.sprite_offset as int,
            attack_timer: self.attack_timer@,
            damage_cooldown: self.damage_cooldown as int,
            sword: self.sword,
            fudge_factor: self.fudge_factor@,
            hurtbox: rect_view(self.hurtbox),
        }
    }
}

/// The player at the start of a level: at the starting position, at rest,
/// standing, facing right, with the long sword and no attack under way.
pub open spec fn starting_player() -> PlayerModel {
    PlayerModel {
        entity: EntityModel {
            sprite: SpriteModel {
                tile_id: 0,
                hflip: false,
                position: Vec2 { x: 0, y: 0 },
                visible: true,
            },
            position: Vec2 { x: 58 * 256int, y: 26 * 256int },
            velocity: Vec2 { x: 0, y: 0 },
            collision_mask: MaskRect { x: 0, y: 0, width: 4, height: 12 },
            visible: true,
        },
        facing: Tri::Positive,
        state: PlayerState::OnGround,
        sprite_offset: 0,
        attack_timer: TimerModel::Idle,
        damage_cooldown: 0,
        sword: SwordState::LongSword,
        fudge_factor: Vec2 { x: 0, y: 0 },
        hurtbox: None,
    }
}

/// The facing after the horizontal input `x`: the input's direction, or the
/// old facing where no direction is held.
pub open spec fn turned(facing: Tri, x: Tri) -> Tri {
    if x != Tri::Zero {
        x
    } else {
        facing
    }
}

/// A raw velocity after one frame of damping by `numerator` / 64.
pub open spec fn damped(v: int, numerator: int) -> int {
    trunc_div(v * numerator, 64)
}

/// Animation frame of the jump with no attack under way: the first three
/// frames follow the time in the air, later ones the vertical speed.
pub open spec fn air_frame(sprite_offset: int, velocity_y: int) -> int {
    if sprite_offset < 12 {
        sprite_offset / 4
    } else if abs_int(velocity_y) < 51 {
        3
    } else if velocity_y > 256 {
        5
    } else if velocity_y > 0 {
        4
    } else {
        2
    }
}

/// A hurtbox given in the actor's own space, placed in the world: moved so
/// that the sprite's centre is the origin, mirrored when facing left, and
/// moved to the actor's position plus the visual nudge.
pub open spec fn world_hurtbox(
    local: RectModel,
    facing: Tri,
    position: Vec2,
    fudge: Vec2,
) -> RectModel {
    let centred = local.position.minus(Vec2 { x: 2048, y: 2048 });
    let mirrored = if facing == Tri::Negative {
        Vec2 { x: -centred.x - local.size.x, y: centred.y }
    } else {
        centred
    };
    RectModel { position: mirrored.plus(position.plus(fudge.times_int(256))), size: local.size }
}

impl PlayerModel {
    /// Whether a running timer has a frame left to count down.
    pub open spec fn timer_runs(self) -> bool {
        match self.attack_timer {
            TimerModel::Idle => true,
            TimerModel::Attack(a) => 1 <= a <= u16::MAX,
            TimerModel::Cooldown(a) => self.state == PlayerState::OnGround ==> 1 <= a,
        }
    }

    /// Whether the player can be updated: position and velocity are within
    /// the limits of the arithmetic, the animation counter can advance, and a
    /// running timer has a frame left.
    pub open spec fn ready(self) -> bool {
        &&& self.entity.position.within(NEAR_LIMIT as int)
        &&& self.entity.velocity.within(PLAYER_SPEED_LIMIT as int)
        &&& 0 <= self.sprite_offset < u16::MAX
        &&& self.timer_runs()
    }

    /// Whether other actors can read the player's position and hurtbox.
    pub open spec fn readable(self) -> bool {
        &&& self.entity.position.within(FAR_LIMIT as int)
        &&& self.fudge_factor.within(0x1000)
        &&& match self.hurtbox {
            Some(h) => h.within(0x2000_0000),
            None => true,
        }
    }

    /// The player with the given raw velocity.
    pub open spec fn with_velocity(self, velocity: Vec2) -> PlayerModel {
        PlayerModel { entity: EntityModel { velocity, ..self.entity }, ..self }
    }

    /// The player showing the sprite `tile_id`, flipped or not.
    pub open spec fn with_sprite(self, tile_id: int, hflip: bool) -> PlayerModel {
        PlayerModel {
            entity: EntityModel {
                sprite: SpriteModel { tile_id, hflip, ..self.entity.sprite },
                ..self.entity
            },
            ..self
        }
    }

    /// On the ground with no attack under way: turn and accelerate toward
    /// the held direction, show the walking or the standing cycle, and start
    /// an attack or, failing that, a jump when its button went down.
    pub open spec fn ground_idle(self, input: Input) -> PlayerModel {
        let facing = turned(self.facing, input.x);
        let velocity_x = self.entity.velocity.x + self.sword.spec_ground_walk_force()
            * input.x.spec_to_int();
        let walking = abs_int(velocity_x) > 25;
        let tile_id = if walking {
            self.sword.spec_walk_animation(self.sprite_offset)
        } else {
            self.sword.spec_idle_animation(self.sprite_offset)
        };
        let sprite_offset = if walking {
            SwordState::cycled(self.sprite_offset, 24)
        } else {
            SwordState::cycled(self.sprite_offset, 32)
        };
        let shown = PlayerModel { facing, sprite_offset, ..self }.with_sprite(
            tile_id,
            facing == Tri::Negative,
        ).with_velocity(Vec2 { x: velocity_x, y: self.entity.velocity.y });
        if input.attack {
            PlayerModel {
                attack_timer: TimerModel::Attack(self.sword.spec_attack_duration()),
                ..shown
            }
        } else if input.jump {
            PlayerModel { state: PlayerState::InAir, sprite_offset: 0, ..shown }.with_velocity(
                Vec2 { x: velocity_x, y: self.entity.velocity.y - self.sword.spec_jump_impulse() },
            )
        } else {
            shown
        }
    }

    /// On the ground in a swing with `timer` frames left: count down, show
    /// the swing's frame with its nudge and hurtbox, and rest when the swing
    /// is over. Returns the hurtbox in the actor's own space as well.
    pub open spec fn ground_attack(self, timer: int) -> (PlayerModel, Option<RectModel>) {
        let left = timer - 1;
        let frame = self.sword.spec_attack_frame(left);
        (
            PlayerModel {
                fudge_factor: Vec2 {
                    x: self.sword.spec_fudge(frame) * self.facing.spec_to_int(),
                    y: self.fudge_factor.y,
                },
                attack_timer: if left == 0 {
                    TimerModel::Cooldown(self.sword.spec_cooldown_time())
                } else {
                    TimerModel::Attack(left)
                },
                ..self
            }.with_sprite(self.sword.spec_to_sprite_id(frame), self.entity.sprite.hflip),
            self.sword.spec_ground_attack_hurtbox(frame),
        )
    }

    /// On the ground resting after a swing with `timer` frames left: hold the
    /// resting frame until the rest is over.
    pub open spec fn ground_cooldown(self, timer: int) -> PlayerModel {
        let left = timer - 1;
        let frame = self.sword.spec_hold_frame();
        PlayerModel {
            fudge_factor: Vec2 {
                x: self.sword.spec_fudge(frame) * self.facing.spec_to_int(),
                y: self.fudge_factor.y,
            },
            attack_timer: if left == 0 {
                TimerModel::Idle
            } else {
                TimerModel::Cooldown(left)
            },
            ..self
        }.with_sprite(self.sword.spec_to_sprite_id(frame), self.entity.sprite.hflip)
    }

    /// In the air with no attack under way: show the jump's frame, turn and
    /// steer toward the held direction, and start an air attack when its
    /// button went down and the weapon allows one.
    pub open spec fn air_idle(self, input: Input) -> PlayerModel {
        let facing = turned(self.facing, input.x);
        let frame = air_frame(self.sprite_offset, self.entity.velocity.y);
        PlayerModel {
            facing,
            attack_timer: if input.attack && self.sword != SwordState::LongSword {
                TimerModel::Attack(self.sword.spec_jump_attack_duration())
            } else {
                TimerModel::Idle
            },
            ..self
        }.with_sprite((frame + self.sword.spec_jump_offset()) * 4, facing == Tri::Negative)
            .with_velocity(
            Vec2 {
                x: self.entity.velocity.x + self.sword.spec_air_move_force()
                    * input.x.spec_to_int(),
                y: self.entity.velocity.y,
            },
        )
    }

    /// In the air in a swing with `timer` frames left. Returns the hurtbox in
    /// the actor's own space as well.
    pub open spec fn air_attack(self, timer: int) -> (PlayerModel, Option<RectModel>) {
        let left = timer - 1;
        let frame = self.sword.spec_jump_attack_frame(left);
        (
            PlayerModel {
                attack_timer: if left == 0 {
                    TimerModel::Idle
                } else {
                    TimerModel::Attack(left)
                },
                ..self
            }.with_sprite(self.sword.spec_to_jump_sprite_id(frame), self.entity.sprite.hflip),
            self.sword.spec_air_attack_hurtbox(frame),
        )
    }

    /// First part of an update: damping and what the locomotion state and the
    /// attack timer ask for. Returns the hurtbox of the frame in the actor's
    /// own space as well.
    pub open spec fn acted(self, input: Input) -> (PlayerModel, Option<RectModel>) {
        let cleared = PlayerModel { fudge_factor: Vec2 { x: 0, y: 0 }, ..self };
        match self.state {
            PlayerState::OnGround => {
                let slowed = cleared.with_velocity(
                    Vec2 { x: damped(self.entity.velocity.x, 40), y: 0 },
                );
                match self.attack_timer {
                    TimerModel::Idle => (slowed.ground_idle(input), None),
                    TimerModel::Attack(a) => slowed.ground_attack(a),
                    TimerModel::Cooldown(a) => (slowed.ground_cooldown(a), None),
                }
            },
            PlayerState::InAir => {
                let slowed = cleared.with_velocity(
                    Vec2 { x: damped(self.entity.velocity.x, 63), y: self.entity.velocity.y },
                );
                match self.attack_timer {
                    TimerModel::Idle => (slowed.air_idle(input), None),
                    TimerModel::Attack(a) => slowed.air_attack(a),
                    TimerModel::Cooldown(_) => (
                        PlayerModel { attack_timer: TimerModel::Idle, ..slowed },
                        None,
                    ),
                }
            },
        }
    }

    /// Second part of an update: gravity, and the hurtbox placed in the
    /// world.
    pub open spec fn pulled(self, local: Option<RectModel>) -> PlayerModel {
        PlayerModel {
            hurtbox: match local {
                Some(h) => Some(
                    world_hurtbox(h, self.facing, self.entity.position, self.fudge_factor),
                ),
                None => None,
            },
            ..self
        }.with_velocity(Vec2 { x: self.entity.velocity.x, y: self.entity.velocity.y + 16 })
    }

    /// Whether there is solid ground one unit below the player.
    pub open spec fn grounded(self, level: Level) -> bool {
        sweep(
            level,
            collider_of(self.entity.position, self.entity.collision_mask),
            Vec2 { x: 0, y: 256 },
            256,
        ).1
    }

    /// Last part of an update: the move, the ground probe that decides
    /// between ground and air, the dust of a hard landing, and the counters.
    pub open spec fn settled(self, level: Level) -> (PlayerModel, InstructionModel) {
        let (position, velocity) = moved(
            level,
            self.entity.position,
            self.entity.velocity,
            self.entity.collision_mask,
        );
        let after = PlayerModel {
            entity: EntityModel { position, velocity, ..self.entity },
            ..self
        };
        let grounded = after.grounded(level);
        (
            PlayerModel {
                state: if grounded {
                    PlayerState::OnGround
                } else {
                    PlayerState::InAir
                },
                damage_cooldown: if self.damage_cooldown > 0 {
                    self.damage_cooldown - 1
                } else {
                    self.damage_cooldown
                },
                sprite_offset: self.sprite_offset + 1,
                ..after
            },
            if grounded && self.state == PlayerState::InAir && self.entity.velocity.y > 512 {
                InstructionModel::CreateParticle(
                    ParticleData::Dust(0),
                    position.plus(Vec2 { x: 2 * self.facing.spec_to_int() * 256, y: 0 }),
                )
            } else {
                InstructionModel::Nothing
            },
        )
    }

    /// The player after one frame with the given input, and the instruction
    /// for the orchestrator.
    pub open spec fn step(self, input: Input, level: Level) -> (PlayerModel, InstructionModel) {
        let (acted, local) = self.acted(input);
        acted.pulled(local).settled(level)
    }

    /// The player after a hit, whether the player is still alive, and whether
    /// the hit counted. A hit during the cooldown does not count.
    pub open spec fn damaged(self) -> (PlayerModel, bool, bool) {
        if self.damage_cooldown != 0 {
            (self, true, false)
        } else {
            match self.sword {
                SwordState::LongSword => (
                    PlayerModel {
                        damage_cooldown: 120,
                        sword: SwordState::ShortSword,
                        ..self
                    },
                    true,
                    true,
                ),
                SwordState::ShortSword => (
                    PlayerModel { damage_cooldown: 120, ..self },
                    false,
                    true,
                ),
            }
        }
    }

    /// The player after healing: the strongest weapon, and a fresh cooldown.
    pub open spec fn healed(self) -> PlayerModel {
        PlayerModel { damage_cooldown: 120, sword: SwordState::LongSword, ..self }
    }
}

/// Dividing by 64 after multiplying by at most 63 does not increase the
/// magnitude.
pub proof fn lemma_damped_bound(v: int, numerator: int)
    requires
        0 <= numerator <= 64,
    ensures
        abs_int(damped(v, numerator)) <= abs_int(v),
        v >= 0 ==> damped(v, numerator) >= 0,
        v <= 0 ==> damped(v, numerator) <= 0,
{
    let m = abs_int(v);
    assert(0 <= m * numerator <= m * 64) by (nonlinear_arith)
        requires
            0 <= m,
            0 <= numerator <= 64,
    ;
    assert(v >= 0 ==> v * numerator == m * numerator) by (nonlinear_arith)
        requires
            m == abs_int(v),
    ;
    assert(v < 0 ==> -(v * numerator) == m * numerator && v * numerator <= 0) by (nonlinear_arith)
        requires
            m == abs_int(v),
            0 <= numerator,
    ;
}

/// The product of a small table value and a direction stays small.
proof fn lemma_directed(value: int, direction: Tri, bound: int)
    requires
        0 <= value <= bound,
    ensures
        -bound <= value * direction.spec_to_int() <= bound,
{
    let d = direction.spec_to_int();
    assert(-bound <= value * d <= bound) by (nonlinear_arith)
        requires
            0 <= value <= bound,
            -1 <= d <= 1,
    ;
}

impl Player {
    /// The player at the start of a level: standing, facing right, with the
    /// long sword, at the starting position.
    pub fn new() -> (r: Player)
        ensures
            r@ == starting_player(),
            r@.ready(),
            r@.readable(),
    {
        let mut entity = Entity::new(MaskRect::new(0, 0, 4, 12));
        entity.sprite.tile_id = 0;
        entity.sprite.visible = true;
        entity.position = Vector2D::from_ints(58, 26);
        Player {
            entity,
            facing: Tri::Positive,
            state: PlayerState::OnGround,
            sword: SwordState::LongSword,
            sprite_offset: 0,
            attack_timer: AttackTimer::Idle,
            fudge_factor: IntVector2D::new(0, 0),
            hurtbox: None,
            damage_cooldown: 0,
        }
    }

    /// Whether the player can be updated.
    pub fn can_update(&self) -> (r: bool)
        ensures
            r == self@.ready(),
    {
        let position = self.entity.position;
        let velocity = self.entity.velocity;
        let timer_runs = match self.attack_timer {
            AttackTimer::Idle => true,
            AttackTimer::Attack(a) => a >= 1,
            AttackTimer::Cooldown(a) => self.state != PlayerState::OnGround || a >= 1,
        };
        -NEAR_LIMIT <= position.x.raw && position.x.raw <= NEAR_LIMIT && -NEAR_LIMIT
            <= position.y.raw && position.y.raw <= NEAR_LIMIT && -PLAYER_SPEED_LIMIT
            <= velocity.x.raw && velocity.x.raw <= PLAYER_SPEED_LIMIT && -PLAYER_SPEED_LIMIT
            <= velocity.y.raw && velocity.y.raw <= PLAYER_SPEED_LIMIT && self.sprite_offset
            < u16::MAX && timer_runs
    }

    /// What the ground state asks for in this frame.
    fn act_on_ground(&mut self, input: Input) -> (local: Option<Rect>)
        requires
            old(self)@.ready(),
            old(self).state == PlayerState::OnGround,
        ensures
            (final(self)@, rect_view(local)) == old(self)@.acted(input),
            final(self).entity.position == old(self).entity.position,
            final(self).entity.collision_mask == old(self).entity.collision_mask,
            final(self).entity.velocity@.within(PLAYER_SPEED_LIMIT + 1024),
            final(self).fudge_factor@.within(5),
            final(self).sprite_offset <= old(self).sprite_offset,
            final(self).attack_timer != AttackTimer::Attack(0),
            final(self).attack_timer != AttackTimer::Cooldown(0),
            rect_view(local) matches Some(h) ==> h.position.within(0x1000) && h.size.within(
                0x1000,
            ),
    {
        self.fudge_factor = IntVector2D::new(0, 0);
        self.entity.velocity.y = Number::from_raw(0);
        proof {
            lemma_damped_bound(self.entity.velocity@.x, 40);
        }
        self.entity.velocity.x = self.entity.velocity.x.times_int(40).over_int(64);
        match self.attack_timer {
            AttackTimer::Idle => {
                if input.x != Tri::Zero {
                    self.facing = input.x;
                }
                self.entity.sprite.hflip = self.facing == Tri::Negative;
                proof {
                    lemma_directed(self.sword.spec_ground_walk_force(), input.x, 80);
                }
                let push = self.sword.ground_walk_force().times_int(input.x.to_int());
                self.entity.velocity.x = self.entity.velocity.x.plus(push);
                let mut counter: u16 = self.sprite_offset;
                if self.entity.velocity.x.abs().raw > Number::new(1).over_int(10).raw {
                    self.entity.sprite.tile_id = self.sword.walk_animation(&mut counter);
                } else {
                    self.entity.sprite.tile_id = self.sword.idle_animation(&mut counter);
                }
                self.sprite_offset = counter;
                if input.attack {
                    self.attack_timer = AttackTimer::Attack(self.sword.attack_duration());
                } else if input.jump {
                    let impulse = self.sword.jump_impulse();
                    self.entity.velocity.y = self.entity.velocity.y.minus(impulse);
                    self.state = PlayerState::InAir;
                    self.sprite_offset = 0;
                }
                None
            },
            AttackTimer::Attack(a) => {
                let left: u16 = a - 1;
                let frame = self.sword.attack_frame(left);
                proof {
                    lemma_directed(self.sword.spec_fudge(frame as int), self.facing, 5);
                }
                self.fudge_factor.x = self.sword.fudge(frame) * self.facing.to_int();
                self.entity.sprite.tile_id = self.sword.to_sprite_id(frame);
                let hurtbox = self.sword.ground_attack_hurtbox(frame);
                if left == 0 {
                    self.attack_timer = AttackTimer::Cooldown(self.sword.cooldown_time());
                } else {
                    self.attack_timer = AttackTimer::Attack(left);
                }
                hurtbox
            },
            AttackTimer::Cooldown(a) => {
                let left: u16 = a - 1;
                let frame = self.sword.hold_frame();
                proof {
                    lemma_directed(self.sword.spec_fudge(frame as int), self.facing, 5);
                }
                self.fudge_factor.x = self.sword.fudge(frame) * self.facing.to_int();
                self.entity.sprite.tile_id = self.sword.to_sprite_id(frame);
                if left == 0 {
                    self.attack_timer = AttackTimer::Idle;
                } else {
                    self.attack_timer = AttackTimer::Cooldown(left);
                }
                None
            },
        }
    }

    /// What the air state asks for in this frame.
    fn act_in_air(&mut self, input: Input) -> (local: Option<Rect>)
        requires
            old(self)@.ready(),
            old(self).state == PlayerState::InAir,
        ensures
            (final(self)@, rect_view(local)) == old(self)@.acted(input),
            final(self).entity.position == old(self).entity.position,
            final(self).entity.collision_mask == old(self).entity.collision_mask,
            final(self).entity.velocity@.within(PLAYER_SPEED_LIMIT + 1024),
            final(self).fudge_factor@.within(5),
            final(self).sprite_offset <= old(self).sprite_offset,
            final(self).attack_timer != AttackTimer::Attack(0),
            final(self).attack_timer != AttackTimer::Cooldown(0),
            rect_view(local) matches Some(h) ==> h.position.within(0x1000) && h.size.within(
                0x1000,
            ),
    {
        self.fudge_factor = IntVector2D::new(0, 0);
        proof {
            lemma_damped_bound(self.entity.velocity@.x, 63);
        }
        self.entity.velocity.x = self.entity.velocity.x.times_int(63).over_int(64);
        match self.attack_timer {
            AttackTimer::Idle => {
                let sprite: u16 = if self.sprite_offset < 3 * 4 {
                    self.sprite_offset / 4
                } else if self.entity.velocity.y.abs().raw < Number::new(1).over_int(5).raw {
                    3
                } else if self.entity.velocity.y.raw > Number::new(1).raw {
                    5
                } else if self.entity.velocity.y.raw > Number::new(0).raw {
                    4
                } else {
                    2
                };
                self.entity.sprite.tile_id = (sprite + self.sword.jump_offset()) * 4;
                if input.x != Tri::Zero {
                    self.facing = input.x;
                }
                self.entity.sprite.hflip = self.facing == Tri::Negative;
                proof {
                    lemma_directed(self.sword.spec_air_move_force(), input.x, 5);
                }
                let push = self.sword.air_move_force().times_int(input.x.to_int());
                self.entity.velocity.x = self.entity.velocity.x.plus(push);
                if input.attack && self.sword != SwordState::LongSword {
                    self.attack_timer = AttackTimer::Attack(self.sword.jump_attack_duration());
                }
                None
            },
            AttackTimer::Attack(a) => {
                let left: u16 = a - 1;
                let frame = self.sword.jump_attack_frame(left);
                self.entity.sprite.tile_id = self.sword.to_jump_sprite_id(frame);
                let hurtbox = self.sword.air_attack_hurtbox(frame);
                if left == 0 {
                    self.attack_timer = AttackTimer::Idle;
                } else {
                    self.attack_timer = AttackTimer::Attack(left);
                }
                hurtbox
            },
            AttackTimer::Cooldown(_) => {
                self.attack_timer = AttackTimer::Idle;
                None
            },
        }
    }

    /// Places the hurtbox of this frame in the world.
    fn place_hurtbox(&self, local: Option<Rect>) -> (r: Option<Rect>)
        requires
            self.entity.position@.within(NEAR_LIMIT as int),
            self.fudge_factor@.within(5),
            rect_view(local) matches Some(h) ==> h.position.within(0x1000) && h.size.within(
                0x1000,
            ),
        ensures
            rect_view(r) == (match rect_view(local) {
                Some(h) => Some(
                    world_hurtbox(h, self.facing, self.entity.position@, self.fudge_factor@),
                ),
                None => None,
            }),
            rect_view(r) matches Some(h) ==> h.within(0x0800_0000),
    {
        match local {
            Some(h) => {
                let mut position = h.position.minus(Vector2D::from_ints(8, 8));
                if self.facing == Tri::Negative {
                    position.x = position.x.negate().minus(h.size.x);
                }
                let nudge = Vector2D::from_ints(self.fudge_factor.x, self.fudge_factor.y);
                Some(Rect::new(position.plus(self.entity.position.plus(nudge)), h.size))
            },
            None => None,
        }
    }

    /// First and second part of an update: what the states ask for, gravity,
    /// and the hurtbox.
    fn act(&mut self, input: Input)
        requires
            old(self)@.ready(),
        ensures
            final(self)@ == old(self)@.acted(input).0.pulled(old(self)@.acted(input).1),
            final(self).entity.position == old(self).entity.position,
            final(self).entity.velocity@.within(PLAYER_SPEED_LIMIT + 2048),
            final(self).fudge_factor@.within(5),
            final(self).sprite_offset <= old(self).sprite_offset,
            final(self).attack_timer != AttackTimer::Attack(0),
            final(self).attack_timer != AttackTimer::Cooldown(0),
            rect_view(final(self).hurtbox) matches Some(h) ==> h.within(0x0800_0000),
    {
        let local = match self.state {
            PlayerState::OnGround => self.act_on_ground(input),
            PlayerState::InAir => self.act_in_air(input),
        };
        self.hurtbox = self.place_hurtbox(local);
        self.entity.velocity.y = self.entity.velocity.y.plus(Number::new(1).over_int(16));
    }

    /// Last part of an update: the move, the ground probe, the counters.
    fn settle(&mut self, level: &Level) -> (r: UpdateInstruction)
        requires
            old(self).entity.position@.within(NEAR_LIMIT as int),
            old(self).entity.velocity@.within(PLAYER_SPEED_LIMIT + 2048),
            old(self).sprite_offset < u16::MAX,
        ensures
            (final(self)@, r@) == old(self)@.settled(*level),
            final(self).entity.position@.within(2 * NEAR_LIMIT),
            final(self).hurtbox == old(self).hurtbox,
            final(self).fudge_factor == old(self).fudge_factor,
            final(self).attack_timer == old(self).attack_timer,
            r@.in_reach(),
    {
        let prior_y_velocity = self.entity.velocity.y;
        self.entity.update_position(level);
        let (_, collided_down) = self.entity.collision_in_direction(
            Vector2D::from_ints(0, 1),
            Number::new(1),
            level,
        );
        let mut instruction = UpdateInstruction::Nothing;
        if collided_down {
            if self.state == PlayerState::InAir && prior_y_velocity.raw > Number::new(2).raw {
                instruction = UpdateInstruction::CreateParticle(
                    ParticleData::new_dust(),
                    self.entity.position.plus(Vector2D::from_ints(2 * self.facing.to_int(), 0)),
                );
            }
            self.state = PlayerState::OnGround;
        } else {
            self.state = PlayerState::InAir;
        }
        if self.damage_cooldown > 0 {
            self.damage_cooldown -= 1;
        }
        self.sprite_offset += 1;
        instruction
    }

    /// Advances the player by one frame with the given input.
    ///
    /// Velocity is damped, then the locomotion state and the attack timer
    /// act; gravity pulls; the hurtbox of the frame is placed in the world;
    /// the player moves against the tile map; a probe one unit downward
    /// decides between ground and air. A landing at more than two units per
    /// frame asks for a dust particle.
    pub fn update(&mut self, input: Input, level: &Level) -> (r: UpdateInstruction)
        requires
            old(self)@.ready(),
        ensures
            (final(self)@, r@) == old(self)@.step(input, *level),
            final(self)@.readable(),
            final(self)@.timer_runs(),
            r@.in_reach(),
    {
        self.act(input);
        self.settle(level)
    }

    /// Applies a hit. While the damage cooldown runs, nothing happens.
    /// Otherwise the cooldown starts and the weapon is downgraded by one
    /// step; at the weakest weapon the player dies instead. Returns whether
    /// the player is still alive and whether the hit counted.
    pub fn damage(&mut self) -> (r: (bool, bool))
        ensures
            (final(self)@, r.0, r.1) == old(self)@.damaged(),
            old(self).damage_cooldown != 0 ==> *final(self) == *old(self) && r == (true, false),
            old(self).damage_cooldown == 0 && old(self).sword == SwordState::ShortSword ==> !r.0
                && final(self).sword == SwordState::ShortSword,
            *final(self) == (Player {
                sword: final(self).sword,
                damage_cooldown: final(self).damage_cooldown,
                ..*old(self)
            }),
    {
        if self.damage_cooldown != 0 {
            return (true, false);
        }
        self.damage_cooldown = DAMAGE_COOLDOWN;
        let new_sword = match self.sword {
            SwordState::LongSword => Some(SwordState::ShortSword),
            SwordState::ShortSword => None,
        };
        if let Some(sword) = new_sword {
            self.sword = sword;
            (true, true)
        } else {
            (false, true)
        }
    }

    /// Heals: the weapon is upgraded by one step, at most to the strongest,
    /// and the damage cooldown starts anew.
    pub fn heal(&mut self)
        ensures
            final(self)@ == old(self)@.healed(),
            *final(self) == (Player {
                sword: SwordState::LongSword,
                damage_cooldown: 120,
                ..*old(self)
            }),
    {
        let new_sword = match self.sword {
            SwordState::LongSword => None,
            SwordState::ShortSword => Some(SwordState::LongSword),
        };
        if let Some(sword) = new_sword {
            self.sword = sword;
        }
        self.damage_cooldown = DAMAGE_COOLDOWN;
    }

    /// Fixes what the player's sprite shows, relative to the camera `offset`
    /// and nudged by the attack animation.
    pub fn commit(&mut self, offset: Vector2D)
        requires
            old(self).entity.position@.within(FAR_LIMIT as int),
            offset@.within(FAR_LIMIT as int),
            old(self).fudge_factor@.within(0x1000_0000),
        ensures
            final(self).entity.sprite@ == committed(
                old(self).entity@,
                offset@,
                old(self).fudge_factor@,
            ),
            *final(self) == (Player {
                entity: Entity { sprite: final(self).entity.sprite, ..old(self).entity },
                ..*old(self)
            }),
    {
        self.entity.commit_with_fudge(offset, self.fudge_factor);
    }
}

/// A second hit right after one that counted changes nothing, so two hits
/// within the cooldown downgrade the weapon at most once.
pub proof fn lemma_damage_counts_once(player: PlayerModel)
    ensures
        player.damaged().2 ==> player.damaged().0.damaged() == (player.damaged().0, true, false),
        player.damage_cooldown != 0 ==> player.damaged() == (player, true, false),
        player.damaged().0.damaged().0 == player.damaged().0,
{
}

/// A hit that counts at the weakest weapon kills and leaves the weapon as it
/// is.
pub proof fn lemma_damage_at_weakest(player: PlayerModel)
    requires
        player.damage_cooldown == 0,
        player.sword == SwordState::ShortSword,
    ensures
        !player.damaged().1,
        player.damaged().0.sword == SwordState::ShortSword,
{
}

/// One frame of damping by `numerator` / 64 shrinks the magnitude of a
/// velocity by at least that factor.
pub proof fn lemma_damped_factor(v: int, numerator: int)
    requires
        0 <= numerator <= 64,
    ensures
        abs_int(damped(v, numerator)) * 64 <= abs_int(v) * numerator,
{
    let m = abs_int(v);
    assert(v >= 0 ==> v * numerator == m * numerator) by (nonlinear_arith)
        requires
            m == abs_int(v),
    ;
    assert(v < 0 ==> -(v * numerator) == m * numerator && v * numerator <= 0) by (nonlinear_arith)
        requires
            m == abs_int(v),
            0 <= numerator,
    ;
    assert(0 <= m * numerator) by (nonlinear_arith)
        requires
            0 <= m,
            0 <= numerator,
    ;
}

/// The horizontal velocity of the player after `frames` frames on the
/// ground without horizontal input and without a collision.
pub open spec fn coasting(v: int, frames: nat) -> int
    decreases frames,
{
    if frames == 0 {
        v
    } else {
        damped(coasting(v, (frames - 1) as nat), 40)
    }
}

/// Without horizontal input the player's horizontal speed shrinks in every
/// frame by the damping factor of the player's state or more: to 40 / 64 on
/// the ground, to 63 / 64 in the air. A collision stops the player at once.
pub proof fn lemma_player_slows_down(player: PlayerModel, input: Input, level: Level)
    requires
        input.x == Tri::Zero,
    ensures
        abs_int(player.step(input, level).0.entity.velocity.x) * 64 <= abs_int(
            player.entity.velocity.x,
        ) * 63,
        player.state == PlayerState::OnGround ==> abs_int(
            player.step(input, level).0.entity.velocity.x,
        ) * 64 <= abs_int(player.entity.velocity.x) * 40,
        player.step(input, level).0.entity.velocity.x == 0 || player.step(
            input,
            level,
        ).0.entity.velocity.x == damped(
            player.entity.velocity.x,
            if player.state == PlayerState::OnGround {
                40
            } else {
                63
            },
        ),
{
    lemma_damped_factor(player.entity.velocity.x, 40);
    lemma_damped_factor(player.entity.velocity.x, 63);
    let (acted, local) = player.acted(input);
    assert(acted.entity.velocity.x == damped(
        player.entity.velocity.x,
        if player.state == PlayerState::OnGround {
            40
        } else {
            63
        },
    ));
}

/// Coasting shrinks the speed geometrically: by 5 / 8 in every frame, and so
/// to less than half in every two frames.
pub proof fn lemma_coasting_decays(v: int, frames: nat)
    ensures
        abs_int(coasting(v, frames + 1)) * 8 <= abs_int(coasting(v, frames)) * 5,
        abs_int(coasting(v, frames + 2)) * 2 <= abs_int(coasting(v, frames)),
        abs_int(coasting(v, frames)) <= abs_int(v),
    decreases frames,
{
    lemma_damped_factor(coasting(v, frames), 40);
    lemma_damped_factor(coasting(v, frames + 1), 40);
    assert(coasting(v, frames + 2) == damped(coasting(v, frames + 1), 40));
    if frames > 0 {
        lemma_coasting_decays(v, (frames - 1) as nat);
    }
}

/// A player within the speed limit comes to rest within fifty frames of
/// coasting.
pub proof fn lemma_coasting_ends(v: int)
    requires
        abs_int(v) <= PLAYER_SPEED_LIMIT,
    ensures
        coasting(v, 50) == 0,
{
    lemma_coasting_halves(v, 25);
    vstd::arithmetic::power2::lemma2_to64();
}

/// After 2 `k` frames of coasting, at most the 2^`k`-th part of the speed
/// is left.
pub proof fn lemma_coasting_halves(v: int, k: nat)
    ensures
        abs_int(coasting(v, 2 * k)) * vstd::arithmetic::power2::pow2(k) <= abs_int(v),
    decreases k,
{
    vstd::arithmetic::power2::lemma2_to64();
    if k > 0 {
        lemma_coasting_halves(v, (k - 1) as nat);
        lemma_coasting_decays(v, (2 * (k - 1)) as nat);
        vstd::arithmetic::power2::lemma_pow2_unfold(k);
        let a = abs_int(coasting(v, 2 * k));
        let b = abs_int(coasting(v, (2 * (k - 1)) as nat));
        let p = vstd::arithmetic::power2::pow2((k - 1) as nat) as int;
        assert(coasting(v, 2 * k) == coasting(v, (2 * (k - 1) + 2) as nat));
        assert(a * (2 * p) <= b * p) by (nonlinear_arith)
            requires
                a * 2 <= b,
                0 <= p,
        ;
        assert(vstd::arithmetic::power2::pow2(k) == 2 * p);
        assert(a * vstd::arithmetic::power2::pow2(k) == a * (2 * p));
        assert(b * p <= abs_int(v));
    } else {
        assert(vstd::arithmetic::power2::pow2(0) == 1);
        assert(coasting(v, 0) == v);
    }
}

/// Updates, hits and healing leave a running timer with a frame to count
/// down.
pub proof fn lemma_player_timer_keeps_running(player: PlayerModel, input: Input, level: Level)
    requires
        player.timer_runs(),
    ensures
        player.step(input, level).0.timer_runs(),
        player.damaged().0.timer_runs(),
        player.healed().timer_runs(),
{
    let (acted, local) = player.acted(input);
    assert(acted.attack_timer != TimerModel::Attack(0));
    assert(acted.attack_timer != TimerModel::Cooldown(0));
}

} // verus!
