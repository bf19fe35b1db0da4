//! What a state machine asks the orchestrator to do after its update.

use vstd::prelude::*;
use crate::entity::FAR_LIMIT;
use crate::particle::ParticleData;
use crate::vector::Vec2;
use crate::vector::Vector2D;

verus! {

/// The request an actor's update hands back. Actors never change the player
/// or the collection they live in themselves.
#[derive(Clone, Copy, Debug, PartialEq, Eq, Structural)]
pub enum UpdateInstruction {
    Nothing,
    HealPlayerAndRemove,
    Remove,
    DamagePlayer,
    CreateParticle(ParticleData, Vector2D),
}

/// Model of an [`UpdateInstruction`].
pub enum InstructionModel {
    Nothing,
    HealPlayerAndRemove,
    Remove,
    DamagePlayer,
    CreateParticle(ParticleData, Vec2),
}

/// Whether a particle of kind `data` can start its life at the raw position
/// `at`: the position is within reach, and the particle is new.
pub open spec fn can_spawn(data: ParticleData, at: Vec2) -> bool {
    at.within(FAR_LIMIT as int) && (data == ParticleData::Dust(0) || data == ParticleData::Health(
        0,
    ))
}

impl InstructionModel {
    /// Whether the particle that the instruction asks for, if it asks for
    /// one, can start its life.
    pub open spec fn in_reach(self) -> bool {
        match self {
            InstructionModel::CreateParticle(data, at) => can_spawn(data, at),
            _ => true,
        }
    }
}

impl View for UpdateInstruction {
    type V = InstructionModel;

    open spec fn view(&self) -> InstructionModel {
        match *self {
            UpdateInstruction::Nothing => InstructionModel::Nothing,
            UpdateInstruction::HealPlayerAndRemove => InstructionModel::HealPlayerAndRemove,
            UpdateInstruction::Remove => InstructionModel::Remove,
            UpdateInstruction::DamagePlayer => InstructionModel::DamagePlayer,
            UpdateInstruction::CreateParticle(data, position) => InstructionModel::CreateParticle(
                data,
                position@,
            ),
        }
    }
}

} // verus!
