//! Short-lived visual and gameplay effects: dust and the homing heal orb.

use vstd::prelude::*;
use crate::entity::Entity;
use crate::entity::EntityModel;
use crate::entity::SpriteModel;
use crate::entity::FAR_LIMIT;
use crate::entity::homing_velocity;
use crate::entity::showing;
use crate::entity::steer;
use crate::instruction::InstructionModel;
use crate::instruction::UpdateInstruction;
use crate::level::Level;
use crate::number::Number;
use crate::player::Player;
use crate::player::PlayerModel;
use crate::vector::MaskRect;
use crate::vector::Vec2;

verus! {

/// Bound on the raw velocity components from which a particle can be
/// updated.
pub const PARTICLE_SPEED_LIMIT: i32 = 0x4000_0000;

/// Frames of the dust animation.
pub const DUST_FRAMES: u16 = 8 * 3;

/// Frames during which a heal orb rises before it homes in on the player.
pub const HEALTH_RISE_FRAMES: u16 = 8 * 3 * 3;

/// Frames after which a heal orb that has not reached the player expires.
pub const HEALTH_FRAMES: u16 = 8 * 3 * 6;

/// Raw manhattan distance from the player within which a heal orb heals.
pub const HEAL_DISTANCE: i32 = 5 * 256;

/// Kind of a particle with its frame counter.
#[derive(Clone, Copy, Debug, PartialEq, Eq, Structural)]
pub enum ParticleData {
    Dust(u16),
    Health(u16),
}

/// Model of a [`ParticleData`].
pub enum ParticleDataModel {
    Dust(int),
    Health(int),
}

impl View for ParticleData {
    type V = ParticleDataModel;

    open spec fn view(&self) -> ParticleDataModel {
        match *self {
            ParticleData::Dust(frame) => ParticleDataModel::Dust(frame as int),
            ParticleData::Health(frame) => ParticleDataModel::Health(frame as int),
        }
    }
}

impl ParticleDataModel {
    /// Whether the frame counter is where the particle's own updates leave
    /// it: within the particle's life.
    pub open spec fn wf(self) -> bool {
        match self {
            ParticleDataModel::Dust(frame) => 0 <= frame <= DUST_FRAMES,
            ParticleDataModel::Health(frame) => 0 <= frame <= HEALTH_FRAMES + 1,
        }
    }

    /// Whether a particle in this state, with the body `e`, can be updated.
    pub open spec fn ready(self, e: EntityModel) -> bool {
        &&& e.position.within(FAR_LIMIT as int)
        &&& e.velocity.within(PARTICLE_SPEED_LIMIT as int)
        &&& match self {
            ParticleDataModel::Dust(frame) => 0 <= frame <= DUST_FRAMES,
            ParticleDataModel::Health(frame) => 0 <= frame,
        }
    }

    /// A heal orb at frame `frame` that is still alive, after one frame.
    /// It rises at half a unit per frame at first. Later it heals the
    /// player as soon as it is close enough, and until then flies at two
    /// units per frame straight toward the player.
    pub open spec fn drifted(frame: int, e: EntityModel, player: PlayerModel) -> (
        ParticleDataModel,
        EntityModel,
        InstructionModel,
    ) {
        let shown = showing(e, (88 + (frame / 3) % 8) * 4);
        let target = player.entity.position.minus(e.position);
        if frame >= HEALTH_RISE_FRAMES && target.manhattan() < HEAL_DISTANCE {
            (ParticleDataModel::Health(frame), shown, InstructionModel::HealPlayerAndRemove)
        } else {
            let velocity = if frame < HEALTH_RISE_FRAMES {
                Vec2 { x: e.velocity.x, y: -128 }
            } else {
                homing_velocity(target, e.velocity, 512)
            };
            (
                ParticleDataModel::Health(frame + 1),
                EntityModel { velocity, position: e.position.plus(velocity), ..shown },
                InstructionModel::Nothing,
            )
        }
    }

    /// The particle, its body and its instruction after one frame. Dust
    /// plays its animation in place and then asks to be removed. A heal orb
    /// that has outlived its time asks to be removed.
    pub open spec fn step(self, e: EntityModel, player: PlayerModel) -> (
        ParticleDataModel,
        EntityModel,
        InstructionModel,
    ) {
        match self {
            ParticleDataModel::Dust(frame) => {
                if frame == DUST_FRAMES {
                    (self, e, InstructionModel::Remove)
                } else {
                    (
                        ParticleDataModel::Dust(frame + 1),
                        showing(e, (70 + frame / 3) * 4),
                        InstructionModel::Nothing,
                    )
                }
            },
            ParticleDataModel::Health(frame) => {
                if frame > HEALTH_FRAMES {
                    (self, e, InstructionModel::Remove)
                } else {
                    ParticleDataModel::drifted(frame, e, player)
                }
            },
        }
    }
}

impl ParticleData {
    /// A dust puff at the start of its animation.
    pub fn new_dust() -> (r: ParticleData)
        ensures
            r == ParticleData::Dust(0),
    {
        ParticleData::Dust(0)
    }

    /// A heal orb at the start of its life.
    pub fn new_health() -> (r: ParticleData)
        ensures
            r == ParticleData::Health(0),
    {
        ParticleData::Health(0)
    }

    /// First animation frame of the particle's kind.
    pub open spec fn spec_tile_id(self) -> int {
        match self {
            ParticleData::Dust(_) => 70,
            ParticleData::Health(_) => 88,
        }
    }

    /// First animation frame of the particle's kind.
    pub fn tile_id(&self) -> (r: u16)
        ensures
            r == self.spec_tile_id(),
    {
        match self {
            ParticleData::Dust(_) => 70,
            ParticleData::Health(_) => 88,
        }
    }

    /// Advances a live heal orb at frame `frame`; returns the next frame
    /// count and the instruction.
    fn drift(frame: u16, entity: &mut Entity, player: &Player) -> (r: (u16, UpdateInstruction))
        requires
            frame <= HEALTH_FRAMES,
            old(entity).position@.within(FAR_LIMIT as int),
            old(entity).velocity@.within(PARTICLE_SPEED_LIMIT as int),
            player@.readable(),
        ensures
            (ParticleDataModel::Health(r.0 as int), final(entity)@, r.1@)
                == ParticleDataModel::drifted(frame as int, old(entity)@, player@),
    {
        entity.sprite.tile_id = (88 + (frame / 3) % 8) * 4;
        if frame < HEALTH_RISE_FRAMES {
            entity.velocity.y = Number::new(-1).over_int(2);
        } else {
            let speed = Number::new(2);
            let target_velocity = player.entity.position.minus(entity.position);
            if target_velocity.manhattan_distance().raw < Number::new(5).raw {
                return (frame, UpdateInstruction::HealPlayerAndRemove);
            }
            steer(entity, target_velocity, speed);
        }
        entity.update_position_without_collision();
        (frame + 1, UpdateInstruction::Nothing)
    }

    /// Advances the particle by one frame.
    ///
    /// Dust plays its animation in place and then asks to be removed. A heal
    /// orb rises, then homes in on the player; it asks to heal the player
    /// and be removed once it is close enough, and to be removed when its
    /// time is up.
    pub fn update(&mut self, entity: &mut Entity, player: &Player, _level: &Level) -> (r:
        UpdateInstruction)
        requires
            old(self)@.ready(old(entity)@),
            player@.readable(),
        ensures
            (final(self)@, final(entity)@, r@) == old(self)@.step(old(entity)@, player@),
            !(r@ is CreateParticle),
            !(r@ is DamagePlayer),
    {
        match *self {
            ParticleData::Dust(frame) => {
                if frame == DUST_FRAMES {
                    return UpdateInstruction::Remove;
                }
                entity.sprite.tile_id = (70 + frame / 3) * 4;
                *self = ParticleData::Dust(frame + 1);
                UpdateInstruction::Nothing
            },
            ParticleData::Health(frame) => {
                if frame > HEALTH_FRAMES {
                    return UpdateInstruction::Remove;
                }
                let (next, instruction) = ParticleData::drift(frame, entity, player);
                *self = ParticleData::Health(next);
                instruction
            },
        }
    }
}

/// A particle: a body without a collision box and the state of its kind.
#[derive(Clone, Copy, Debug, PartialEq, Eq, Structural)]
pub struct Particle {
    pub entity: Entity,
    pub particle_data: ParticleData,
}

/// Model of a [`Particle`].
pub struct ParticleModel {
    pub entity: EntityModel,
    pub particle_data: ParticleDataModel,
}

impl View for Particle {
    type V = ParticleModel;

    open spec fn view(&self) -> ParticleModel {
        ParticleModel { entity: self.entity@, particle_data: self.particle_data@ }
    }
}

impl ParticleModel {
    /// Whether the frame counter is where the particle's own updates leave
    /// it.
    pub open spec fn wf(self) -> bool {
        self.particle_data.wf()
    }

    /// Whether the body is within the limits from which it can be moved.
    pub open spec fn in_range(self) -> bool {
        &&& self.entity.position.within(FAR_LIMIT as int)
        &&& self.entity.velocity.within(PARTICLE_SPEED_LIMIT as int)
    }

    /// Whether the particle can be updated.
    pub open spec fn ready(self) -> bool {
        self.particle_data.ready(self.entity)
    }

    /// The particle and its instruction after one frame.
    pub open spec fn step(self, player: PlayerModel) -> (ParticleModel, InstructionModel) {
        let (particle_data, entity, instruction) = self.particle_data.step(self.entity, player);
        (ParticleModel { entity, particle_data }, instruction)
    }
}

impl Particle {
    /// A particle of the given kind at the origin, shown with the first
    /// frame of its kind.
    pub fn new(particle_data: ParticleData) -> (r: Particle)
        ensures
            r.particle_data == particle_data,
            r.entity.collision_mask == (MaskRect { x: 0, y: 0, width: 0, height: 0 }),
            r.entity.position@ == (Vec2 { x: 0, y: 0 }),
            r.entity.velocity@ == (Vec2 { x: 0, y: 0 }),
            r.entity.visible,
            r.entity.sprite@ == (SpriteModel {
                tile_id: particle_data.spec_tile_id(),
                hflip: false,
                position: Vec2 { x: 0, y: 0 },
                visible: true,
            }),
    {
        let mut entity = Entity::new(MaskRect::new(0, 0, 0, 0));
        entity.sprite.tile_id = particle_data.tile_id();
        entity.sprite.visible = true;
        Particle { entity, particle_data }
    }

    /// Whether the particle can be updated.
    pub fn can_update(&self) -> (r: bool)
        ensures
            r == self@.ready(),
    {
        let position = self.entity.position;
        let velocity = self.entity.velocity;
        let counted = match self.particle_data {
            ParticleData::Dust(frame) => frame <= DUST_FRAMES,
            ParticleData::Health(_) => true,
        };
        -FAR_LIMIT <= position.x.raw && position.x.raw <= FAR_LIMIT && -FAR_LIMIT
            <= position.y.raw && position.y.raw <= FAR_LIMIT && -PARTICLE_SPEED_LIMIT
            <= velocity.x.raw && velocity.x.raw <= PARTICLE_SPEED_LIMIT && -PARTICLE_SPEED_LIMIT
            <= velocity.y.raw && velocity.y.raw <= PARTICLE_SPEED_LIMIT && counted
    }

    /// Advances the particle by one frame against the player.
    pub fn update(&mut self, player: &Player, level: &Level) -> (r: UpdateInstruction)
        requires
            old(self)@.ready(),
            player@.readable(),
        ensures
            (final(self)@, r@) == old(self)@.step(player@),
            !(r@ is CreateParticle),
            !(r@ is DamagePlayer),
    {
        self.particle_data.update(&mut self.entity, player, level)
    }
}

/// A live heal orb that has finished rising and is within the heal distance
/// of the player asks to heal the player and be removed, and does not move.
pub proof fn lemma_heal_orb_heals_in_reach(frame: int, e: EntityModel, player: PlayerModel)
    requires
        HEALTH_RISE_FRAMES <= frame <= HEALTH_FRAMES,
        player.entity.position.minus(e.position).manhattan() < HEAL_DISTANCE,
    ensures
        ParticleDataModel::Health(frame).step(e, player).2 is HealPlayerAndRemove,
        ParticleDataModel::Health(frame).step(e, player).1.position == e.position,
        ParticleDataModel::Health(frame).step(e, player).1.velocity == e.velocity,
{
}

/// An update leaves the frame counter of a particle within the particle's
/// life, and a particle with such a counter can be updated whenever its body
/// is within the limits.
pub proof fn lemma_particle_stays_well_formed(particle: ParticleModel, player: PlayerModel)
    requires
        particle.wf(),
    ensures
        particle.step(player).0.wf(),
        particle.in_range() ==> particle.ready(),
{
}

} // verus!
