//! The orchestrator: it owns the player, the level and the collections of
//! enemies and particles, and advances all of them by one frame.

use vstd::prelude::*;
use generational_arena::Arena;
use crate::arena::Handle;
use crate::arena::enemy_entries;
use crate::arena::particle_entries;
use crate::arena::slot_order;
use crate::arena::enemies_get;
use crate::arena::enemies_handles;
use crate::arena::enemies_insert;
use crate::arena::enemies_remove;
use crate::arena::enemies_set;
use crate::arena::enemies_with_capacity;
use crate::arena::particles_get;
use crate::arena::particles_handles;
use crate::arena::particles_insert;
use crate::arena::particles_remove;
use crate::arena::particles_set;
use crate::arena::particles_with_capacity;
use crate::enemy::BatData;
use crate::enemy::BatState;
use crate::enemy::Enemy;
use crate::enemy::EnemyData;
use crate::enemy::EnemyModel;
use crate::enemy::SlimeData;
use crate::enemy::SlimeState;
use crate::enemy::lemma_enemy_stays_well_formed;
use crate::entity::EntityModel;
use crate::entity::SpriteModel;
use crate::entity::committed;
use crate::entity::FAR_LIMIT;
use crate::entity::NEAR_LIMIT;
use crate::instruction::InstructionModel;
use crate::instruction::can_spawn;
use crate::instruction::UpdateInstruction;
use crate::level::Level;
use crate::number::Number;
use crate::number::lemma_trunc_rem_bound;
use crate::number::trunc_div;
use crate::number::trunc_rem;
use crate::particle::Particle;
use crate::particle::ParticleData;
use crate::particle::ParticleModel;
use crate::particle::lemma_particle_stays_well_formed;
use crate::player::Input;
use crate::player::Player;
use crate::player::PlayerModel;
use crate::player::starting_player;
use crate::vector::IntVector2D;
use crate::vector::MaskRect;
use crate::vector::Vec2;
use crate::vector::Vector2D;

verus! {

/// Frames of screen shake that a hit on the player adds.
pub const SHAKE_FRAMES: u16 = 20;

/// How a frame ended.
#[derive(Clone, Copy, Debug, PartialEq, Eq, Structural)]
pub enum GameStatus {
    Continue,
    Lost,
    Won,
}

/// A particle that an update asked for: its kind and its raw position.
pub type Spawn = (ParticleData, Vector2D);

/// Model of a [`Spawn`].
pub type SpawnModel = (ParticleData, Vec2);

/// Whether every spawn in `spawns` can start its life.
pub open spec fn all_in_reach(spawns: Seq<Spawn>) -> bool {
    forall|i: int| 0 <= i < spawns.len() ==> can_spawn((#[trigger] spawns[i]).0, spawns[i].1@)
}

/// Models of the spawns in `spawns`.
pub open spec fn spawn_models(spawns: Seq<Spawn>) -> Seq<SpawnModel> {
    Seq::new(spawns.len(), |i: int| (spawns[i].0, spawns[i].1@))
}

/// Models of the enemies in `entries`.
pub open spec fn enemy_models(entries: Map<Handle, Enemy>) -> Map<Handle, EnemyModel> {
    Map::new(|h: Handle| entries.dom().contains(h), |h: Handle| entries[h]@)
}

/// Models of the particles in `entries`.
pub open spec fn particle_models(entries: Map<Handle, Particle>) -> Map<Handle, ParticleModel> {
    Map::new(|h: Handle| entries.dom().contains(h), |h: Handle| entries[h]@)
}

/// Whether the counters of every enemy in `entries` are where the enemy's
/// own updates leave them.
pub open spec fn enemies_wf(entries: Map<Handle, Enemy>) -> bool {
    forall|h: Handle| #[trigger] entries.dom().contains(h) ==> entries[h]@.wf()
}

/// Whether the frame counter of every particle in `entries` is where the
/// particle's own updates leave it.
pub open spec fn particles_wf(entries: Map<Handle, Particle>) -> bool {
    forall|h: Handle| #[trigger] entries.dom().contains(h) ==> entries[h]@.wf()
}

/// Size of the screen shake while `shake_time` frames of it are left.
pub open spec fn shake_size(shake_time: int) -> int {
    if shake_time < 4 {
        shake_time
    } else {
        4
    }
}

/// One raw component of the camera jitter of size `size`, from the random
/// number `random`: between minus and plus half the size.
pub open spec fn shake_component(random: int, size: int) -> int {
    trunc_rem(random, size * 256) - trunc_div(size * 256, 2)
}

/// The camera offset of a frame: the resting offset, jittered by the two
/// random numbers while the screen shakes.
pub open spec fn camera_offset(offset: Vec2, shake_time: int, jitter: (int, int)) -> Vec2 {
    if shake_time > 0 {
        offset.plus(
            Vec2 {
                x: shake_component(jitter.0, shake_size(shake_time)),
                y: shake_component(jitter.1, shake_size(shake_time)),
            },
        )
    } else {
        offset
    }
}

/// The actor `e` with its sprite committed for the camera at `camera`.
pub open spec fn shown_at(e: EntityModel, camera: Vec2, fudge: Vec2) -> EntityModel {
    EntityModel { sprite: committed(e, camera, fudge), ..e }
}

/// What a pass over a collection of actors has done so far, apart from
/// the actors themselves.
pub struct Pass {
    pub player: PlayerModel,
    pub lost: bool,
    pub shake_time: int,
    pub spawned: Seq<SpawnModel>,
    pub removed: Seq<Handle>,
}

/// The state `s` of a pass after the instruction `instruction` of the actor
/// under `handle` has been applied: a removal is noted for later, healing
/// and hits reach the player at once, a hit that kills loses the game, a hit
/// that counts shakes the screen, and a particle that is asked for is noted
/// for later.
pub open spec fn applied(s: Pass, handle: Handle, instruction: InstructionModel) -> Pass {
    match instruction {
        InstructionModel::Remove => Pass { removed: s.removed.push(handle), ..s },
        InstructionModel::HealPlayerAndRemove => Pass {
            player: s.player.healed(),
            removed: s.removed.push(handle),
            ..s
        },
        InstructionModel::DamagePlayer => Pass {
            player: s.player.damaged().0,
            lost: s.lost || !s.player.damaged().1,
            shake_time: if s.player.damaged().2 {
                s.shake_time + 20
            } else {
                s.shake_time
            },
            ..s
        },
        InstructionModel::CreateParticle(data, at) => Pass {
            spawned: s.spawned.push((data, at)),
            ..s
        },
        InstructionModel::Nothing => s,
    }
}

/// The state of a pass and the enemies after the turn of the enemy under
/// `handle`: the enemy is updated against the player as the pass has left
/// it, its instruction is applied, and its sprite is committed.
#[verifier::opaque]
pub open spec fn enemy_turn(
    s: Pass,
    enemies: Map<Handle, EnemyModel>,
    handle: Handle,
    level: Level,
    camera: Vec2,
) -> (Pass, Map<Handle, EnemyModel>) {
    (
        applied(s, handle, enemies[handle].step(s.player, level).1),
        enemies.insert(handle, enemy_shown(enemies[handle], s.player, level, camera)),
    )
}

/// The state of a pass and the enemies after the turns of the first `n`
/// enemies of `order`.
pub open spec fn enemies_after(
    order: Seq<Handle>,
    n: nat,
    start: Pass,
    enemies: Map<Handle, EnemyModel>,
    level: Level,
    camera: Vec2,
) -> (Pass, Map<Handle, EnemyModel>)
    decreases n,
{
    if n == 0 {
        (start, enemies)
    } else {
        let before = enemies_after(order, (n - 1) as nat, start, enemies, level, camera);
        enemy_turn(before.0, before.1, order[n - 1], level, camera)
    }
}

/// The state of a pass and the particles after the turn of the particle
/// under `handle`. Particles are drawn without regard to the camera.
#[verifier::opaque]
pub open spec fn particle_turn(s: Pass, particles: Map<Handle, ParticleModel>, handle: Handle) -> (
    Pass,
    Map<Handle, ParticleModel>,
) {
    (
        applied(s, handle, particles[handle].step(s.player).1),
        particles.insert(handle, particle_shown(particles[handle], s.player)),
    )
}

/// The state of a pass and the particles after the turns of the first `n`
/// particles of `order`.
pub open spec fn particles_after(
    order: Seq<Handle>,
    n: nat,
    start: Pass,
    particles: Map<Handle, ParticleModel>,
) -> (Pass, Map<Handle, ParticleModel>)
    decreases n,
{
    if n == 0 {
        (start, particles)
    } else {
        let before = particles_after(order, (n - 1) as nat, start, particles);
        particle_turn(before.0, before.1, order[n - 1])
    }
}

/// The pass that the given values stand for.
pub open spec fn pass_of(
    player: Player,
    lost: bool,
    shake_time: u16,
    spawned: Seq<Spawn>,
    removed: Seq<Handle>,
) -> Pass {
    Pass {
        player: player@,
        lost,
        shake_time: shake_time as int,
        spawned: spawn_models(spawned),
        removed,
    }
}

/// Whether a hit that counts can still be noted: the shake counter has room
/// for it, or the player's cooldown runs, so that no hit counts.
pub open spec fn shake_has_room(player: Player, shake_time: u16) -> bool {
    shake_time <= u16::MAX - 20 || player.damage_cooldown != 0
}

/// Applies the instruction of the actor under `handle`.
fn apply_instruction(
    instruction: UpdateInstruction,
    handle: Handle,
    player: &mut Player,
    lost: &mut bool,
    shake_time: &mut u16,
    spawned: &mut Vec<Spawn>,
    removed: &mut Vec<Handle>,
)
    requires
        shake_has_room(*old(player), *old(shake_time)),
    ensures
        pass_of(
            *final(player),
            *final(lost),
            *final(shake_time),
            final(spawned)@,
            final(removed)@,
        ) == applied(
            pass_of(*old(player), *old(lost), *old(shake_time), old(spawned)@, old(removed)@),
            handle,
            instruction@,
        ),
        shake_has_room(*final(player), *final(shake_time)),
        final(player).entity == old(player).entity,
        final(player).hurtbox == old(player).hurtbox,
        final(player).fudge_factor == old(player).fudge_factor,
        final(player).attack_timer == old(player).attack_timer,
        final(player).state == old(player).state,
        *final(shake_time) >= *old(shake_time),
        !(instruction@ is CreateParticle) ==> final(spawned)@ == old(spawned)@,
        instruction@ is CreateParticle ==> final(spawned)@ == old(spawned)@.push(
            (instruction->CreateParticle_0, instruction->CreateParticle_1),
        ),
{
    match instruction {
        UpdateInstruction::Remove => {
            removed.push(handle);
        },
        UpdateInstruction::HealPlayerAndRemove => {
            player.heal();
            removed.push(handle);
        },
        UpdateInstruction::DamagePlayer => {
            let (alive, damaged) = player.damage();
            if !alive {
                *lost = true;
            }
            if damaged {
                *shake_time += SHAKE_FRAMES;
            }
        },
        UpdateInstruction::CreateParticle(data, position) => {
            spawned.push((data, position));
            assert(spawn_models(spawned@) =~= spawn_models(old(spawned)@).push((data, position@)));
        },
        UpdateInstruction::Nothing => {},
    }
}

/// The enemy after its update, with its sprite committed for the camera at
/// `camera`.
pub open spec fn enemy_shown(
    enemy: EnemyModel,
    player: PlayerModel,
    level: Level,
    camera: Vec2,
) -> EnemyModel {
    let after = enemy.step(player, level).0;
    EnemyModel { entity: shown_at(after.entity, camera, Vec2 { x: 0, y: 0 }), ..after }
}

/// Updates an enemy and commits its sprite.
fn update_and_show_enemy(enemy: &mut Enemy, player: &Player, level: &Level, camera: Vector2D) -> (r:
    UpdateInstruction)
    requires
        old(enemy)@.ready(),
        player@.readable(),
        camera@.within(FAR_LIMIT as int),
    ensures
        final(enemy)@ == enemy_shown(old(enemy)@, player@, *level, camera@),
        r@ == old(enemy)@.step(player@, *level).1,
        r@.in_reach(),
        old(enemy)@.wf() ==> final(enemy)@.wf(),
{
    proof {
        if enemy@.wf() {
            lemma_enemy_stays_well_formed(enemy@, player@, *level);
        }
    }
    let instruction = enemy.update(player, level);
    enemy.entity.commit_with_fudge(camera, IntVector2D::new(0, 0));
    instruction
}

/// The particle after its update, with its sprite committed. Particles are
/// drawn without regard to the camera.
pub open spec fn particle_shown(particle: ParticleModel, player: PlayerModel) -> ParticleModel {
    let after = particle.step(player).0;
    ParticleModel {
        entity: shown_at(after.entity, Vec2 { x: 0, y: 0 }, Vec2 { x: 0, y: 0 }),
        ..after
    }
}

/// Updates a particle and commits its sprite.
fn update_and_show_particle(particle: &mut Particle, player: &Player, level: &Level) -> (r:
    UpdateInstruction)
    requires
        old(particle)@.ready(),
        player@.readable(),
    ensures
        final(particle)@ == particle_shown(old(particle)@, player@),
        r@ == old(particle)@.step(player@).1,
        !(r@ is CreateParticle),
        old(particle)@.wf() ==> final(particle)@.wf(),
{
    proof {
        if particle@.wf() {
            lemma_particle_stays_well_formed(particle@, player@);
        }
    }
    let instruction = particle.update(player, level);
    particle.entity.commit_with_fudge(Vector2D::from_ints(0, 0), IntVector2D::new(0, 0));
    instruction
}

/// Gives the enemy under `handle` its turn.
fn take_enemy_turn(
    enemies: &mut Arena<Enemy>,
    handle: Handle,
    player: &mut Player,
    lost: &mut bool,
    shake_time: &mut u16,
    spawned: &mut Vec<Spawn>,
    removed: &mut Vec<Handle>,
    level: &Level,
    camera: Vector2D,
)
    requires
        enemy_entries(*old(enemies)).dom().contains(handle),
        enemy_entries(*old(enemies))[handle]@.ready(),
        old(player)@.readable(),
        shake_has_room(*old(player), *old(shake_time)),
        camera@.within(FAR_LIMIT as int),
    ensures
        (
            pass_of(
                *final(player),
                *final(lost),
                *final(shake_time),
                final(spawned)@,
                final(removed)@,
            ),
            enemy_models(enemy_entries(*final(enemies))),
        ) == enemy_turn(
            pass_of(*old(player), *old(lost), *old(shake_time), old(spawned)@, old(removed)@),
            enemy_models(enemy_entries(*old(enemies))),
            handle,
            *level,
            camera@,
        ),
        enemy_entries(*final(enemies)).dom() == enemy_entries(*old(enemies)).dom(),
        forall|h: Handle|
            h != handle ==> enemy_entries(*final(enemies))[h] == enemy_entries(*old(enemies))[h],
        enemy_entries(*old(enemies))[handle]@.wf() ==> enemy_entries(
            *final(enemies),
        )[handle]@.wf(),
        shake_has_room(*final(player), *final(shake_time)),
        final(player)@.readable(),
        final(player).entity == old(player).entity,
        final(player).fudge_factor == old(player).fudge_factor,
        final(player).attack_timer == old(player).attack_timer,
        final(player).state == old(player).state,
        final(spawned)@.len() >= old(spawned)@.len(),
        forall|i: int|
            0 <= i < old(spawned)@.len() ==> final(spawned)@[i] == old(spawned)@[i],
        forall|i: int|
            old(spawned)@.len() <= i < final(spawned)@.len() ==> can_spawn(
                (#[trigger] final(spawned)@[i]).0,
                final(spawned)@[i].1@,
            ),
{
    reveal(enemy_turn);
    match enemies_get(enemies, handle) {
        Some(mut enemy) => {
            let instruction = update_and_show_enemy(&mut enemy, player, level, camera);
            enemies_set(enemies, handle, enemy);
            assert(enemy_models(enemy_entries(*enemies)) =~= enemy_models(
                enemy_entries(*old(enemies)),
            ).insert(handle, enemy@));
            apply_instruction(instruction, handle, player, lost, shake_time, spawned, removed);
        },
        None => {},
    }
}

/// Gives every enemy its turn, by rising slot. Returns whether the game
/// was lost, the enemies to remove, and the order of the turns.
fn run_enemies(
    enemies: &mut Arena<Enemy>,
    player: &mut Player,
    shake_time: &mut u16,
    spawned: &mut Vec<Spawn>,
    level: &Level,
    camera: Vector2D,
) -> (r: (bool, Vec<Handle>, Ghost<Seq<Handle>>))
    requires
        forall|h: Handle| #[trigger]
            enemy_entries(*old(enemies)).dom().contains(h) ==> enemy_entries(
                *old(enemies),
            )[h]@.ready(),
        old(player)@.readable(),
        shake_has_room(*old(player), *old(shake_time)),
        camera@.within(FAR_LIMIT as int),
        all_in_reach(old(spawned)@),
    ensures
        slot_order(r.2@, enemy_entries(*old(enemies)).dom()),
        (
            pass_of(*final(player), r.0, *final(shake_time), final(spawned)@, r.1@),
            enemy_models(enemy_entries(*final(enemies))),
        ) == enemies_after(
            r.2@,
            r.2@.len(),
            pass_of(*old(player), false, *old(shake_time), old(spawned)@, Seq::empty()),
            enemy_models(enemy_entries(*old(enemies))),
            *level,
            camera@,
        ),
        shake_has_room(*final(player), *final(shake_time)),
        final(player)@.readable(),
        final(player).entity == old(player).entity,
        final(player).fudge_factor == old(player).fudge_factor,
        final(player).attack_timer == old(player).attack_timer,
        final(player).state == old(player).state,
        all_in_reach(final(spawned)@),
        enemies_wf(enemy_entries(*old(enemies))) ==> enemies_wf(enemy_entries(*final(enemies))),
{
    let handles = enemies_handles(enemies);
    let ghost order = handles@;
    let ghost entries = enemy_entries(*enemies);
    let ghost start = pass_of(*player, false, *shake_time, spawned@, Seq::empty());
    let ghost entity = player.entity;
    let ghost fudge = player.fudge_factor;
    let ghost timer = player.attack_timer;
    let ghost state = player.state;
    let mut lost = false;
    let mut removed: Vec<Handle> = Vec::new();
    let mut i: usize = 0;
    while i < handles.len()
        invariant
            0 <= i <= handles.len(),
            handles@ == order,
            slot_order(order, entries.dom()),
            enemy_entries(*enemies).dom() == entries.dom(),
            forall|j: int|
                i <= j < order.len() ==> enemy_entries(*enemies)[#[trigger] order[j]]
                    == entries[order[j]],
            forall|h: Handle| #[trigger] entries.dom().contains(h) ==> entries[h]@.ready(),
            (
                pass_of(*player, lost, *shake_time, spawned@, removed@),
                enemy_models(enemy_entries(*enemies)),
            ) == enemies_after(order, i as nat, start, enemy_models(entries), *level, camera@),
            shake_has_room(*player, *shake_time),
            player@.readable(),
            player.entity == entity,
            player.fudge_factor == fudge,
            player.attack_timer == timer,
            player.state == state,
            camera@.within(FAR_LIMIT as int),
            all_in_reach(spawned@),
            enemies_wf(entries) ==> enemies_wf(enemy_entries(*enemies)),
        decreases handles.len() - i,
    {
        let handle = handles[i];
        assert(order[i as int] == handle);
        assert(order.contains(handle));
        let ghost before = spawned@;
        take_enemy_turn(
            enemies,
            handle,
            player,
            &mut lost,
            shake_time,
            spawned,
            &mut removed,
            level,
            camera,
        );
        assert forall|j: int| i + 1 <= j < order.len() implies enemy_entries(
            *enemies,
        )[#[trigger] order[j]] == entries[order[j]] by {
            assert(order[i as int].slot < order[j].slot);
        }
        assert forall|k: int| 0 <= k < spawned@.len() implies can_spawn(
            (#[trigger] spawned@[k]).0,
            spawned@[k].1@,
        ) by {
            if k < before.len() {
                assert(spawned@[k] == before[k]);
            }
        }
        i = i + 1;
    }
    (lost, removed, Ghost(order))
}

/// Gives the particle under `handle` its turn.
fn take_particle_turn(
    particles: &mut Arena<Particle>,
    handle: Handle,
    player: &mut Player,
    lost: &mut bool,
    shake_time: &mut u16,
    spawned: &mut Vec<Spawn>,
    removed: &mut Vec<Handle>,
    level: &Level,
)
    requires
        particle_entries(*old(particles)).dom().contains(handle),
        particle_entries(*old(particles))[handle]@.ready(),
        old(player)@.readable(),
        shake_has_room(*old(player), *old(shake_time)),
    ensures
        (
            pass_of(
                *final(player),
                *final(lost),
                *final(shake_time),
                final(spawned)@,
                final(removed)@,
            ),
            particle_models(particle_entries(*final(particles))),
        ) == particle_turn(
            pass_of(*old(player), *old(lost), *old(shake_time), old(spawned)@, old(removed)@),
            particle_models(particle_entries(*old(particles))),
            handle,
        ),
        particle_entries(*final(particles)).dom() == particle_entries(*old(particles)).dom(),
        forall|h: Handle|
            h != handle ==> particle_entries(*final(particles))[h] == particle_entries(
                *old(particles),
            )[h],
        particle_entries(*old(particles))[handle]@.wf() ==> particle_entries(
            *final(particles),
        )[handle]@.wf(),
        shake_has_room(*final(player), *final(shake_time)),
        final(player)@.readable(),
        final(player).entity == old(player).entity,
        final(player).fudge_factor == old(player).fudge_factor,
        final(player).attack_timer == old(player).attack_timer,
        final(player).state == old(player).state,
        final(spawned)@ == old(spawned)@,
{
    reveal(particle_turn);
    match particles_get(particles, handle) {
        Some(mut particle) => {
            let instruction = update_and_show_particle(&mut particle, player, level);
            particles_set(particles, handle, particle);
            assert(particle_models(particle_entries(*particles)) =~= particle_models(
                particle_entries(*old(particles)),
            ).insert(handle, particle@));
            apply_instruction(instruction, handle, player, lost, shake_time, spawned, removed);
        },
        None => {},
    }
}

/// Gives every particle its turn, by rising slot. Returns whether the game
/// was lost in this pass, the particles to remove, and the order of the
/// turns.
fn run_particles(
    particles: &mut Arena<Particle>,
    player: &mut Player,
    shake_time: &mut u16,
    level: &Level,
) -> (r: (bool, Vec<Handle>, Ghost<Seq<Handle>>))
    requires
        forall|h: Handle| #[trigger]
            particle_entries(*old(particles)).dom().contains(h) ==> particle_entries(
                *old(particles),
            )[h]@.ready(),
        old(player)@.readable(),
        shake_has_room(*old(player), *old(shake_time)),
    ensures
        slot_order(r.2@, particle_entries(*old(particles)).dom()),
        (
            pass_of(*final(player), r.0, *final(shake_time), Seq::empty(), r.1@),
            particle_models(particle_entries(*final(particles))),
        ) == particles_after(
            r.2@,
            r.2@.len(),
            pass_of(*old(player), false, *old(shake_time), Seq::empty(), Seq::empty()),
            particle_models(particle_entries(*old(particles))),
        ),
        final(player).entity == old(player).entity,
        final(player).fudge_factor == old(player).fudge_factor,
        final(player).attack_timer == old(player).attack_timer,
        final(player).state == old(player).state,
        particles_wf(particle_entries(*old(particles))) ==> particles_wf(
            particle_entries(*final(particles)),
        ),
{
    let handles = particles_handles(particles);
    let ghost order = handles@;
    let ghost entries = particle_entries(*particles);
    let ghost start = pass_of(*player, false, *shake_time, Seq::empty(), Seq::empty());
    let ghost entity = player.entity;
    let ghost fudge = player.fudge_factor;
    let ghost timer = player.attack_timer;
    let ghost state = player.state;
    let mut lost = false;
    let mut removed: Vec<Handle> = Vec::new();
    let mut spawned: Vec<Spawn> = Vec::new();
    let mut i: usize = 0;
    assert(spawn_models(spawned@) =~= Seq::empty());
    while i < handles.len()
        invariant
            0 <= i <= handles.len(),
            handles@ == order,
            slot_order(order, entries.dom()),
            particle_entries(*particles).dom() == entries.dom(),
            forall|j: int|
                i <= j < order.len() ==> particle_entries(*particles)[#[trigger] order[j]]
                    == entries[order[j]],
            forall|h: Handle| #[trigger] entries.dom().contains(h) ==> entries[h]@.ready(),
            spawned@ == Seq::<Spawn>::empty(),
            (
                pass_of(*player, lost, *shake_time, spawned@, removed@),
                particle_models(particle_entries(*particles)),
            ) == particles_after(order, i as nat, start, particle_models(entries)),
            shake_has_room(*player, *shake_time),
            player@.readable(),
            player.entity == entity,
            player.fudge_factor == fudge,
            player.attack_timer == timer,
            player.state == state,
            particles_wf(entries) ==> particles_wf(particle_entries(*particles)),
        decreases handles.len() - i,
    {
        let handle = handles[i];
        assert(order[i as int] == handle);
        assert(order.contains(handle));
        take_particle_turn(
            particles,
            handle,
            player,
            &mut lost,
            shake_time,
            &mut spawned,
            &mut removed,
            level,
        );
        assert forall|j: int| i + 1 <= j < order.len() implies particle_entries(
            *particles,
        )[#[trigger] order[j]] == entries[order[j]] by {
            assert(order[i as int].slot < order[j].slot);
        }
        i = i + 1;
    }
    (lost, removed, Ghost(order))
}

/// The entries left when the first `n` handles of `removed` are taken out.
pub open spec fn without<V>(entries: Map<Handle, V>, removed: Seq<Handle>, n: nat) -> Map<Handle, V>
    decreases n,
{
    if n == 0 {
        entries
    } else {
        without(entries, removed, (n - 1) as nat).remove(removed[n - 1])
    }
}

/// Takes the listed enemies out of the collection.
fn remove_enemies(enemies: &mut Arena<Enemy>, removed: &Vec<Handle>)
    ensures
        enemy_models(enemy_entries(*final(enemies))) == without(
            enemy_models(enemy_entries(*old(enemies))),
            removed@,
            removed@.len(),
        ),
        enemies_wf(enemy_entries(*old(enemies))) ==> enemies_wf(enemy_entries(*final(enemies))),
{
    let mut i: usize = 0;
    while i < removed.len()
        invariant
            0 <= i <= removed.len(),
            enemies_wf(enemy_entries(*old(enemies))) ==> enemies_wf(enemy_entries(*enemies)),
            enemy_models(enemy_entries(*enemies)) == without(
                enemy_models(enemy_entries(*old(enemies))),
                removed@,
                i as nat,
            ),
        decreases removed.len() - i,
    {
        let ghost before = enemy_entries(*enemies);
        enemies_remove(enemies, removed[i]);
        assert(enemy_models(enemy_entries(*enemies)) =~= enemy_models(before).remove(
            removed@[i as int],
        ));
        i = i + 1;
    }
}

/// Takes the listed particles out of the collection.
fn remove_particles(particles: &mut Arena<Particle>, removed: &Vec<Handle>)
    ensures
        particle_models(particle_entries(*final(particles))) == without(
            particle_models(particle_entries(*old(particles))),
            removed@,
            removed@.len(),
        ),
        particles_wf(particle_entries(*old(particles))) ==> particles_wf(
            particle_entries(*final(particles)),
        ),
{
    let mut i: usize = 0;
    while i < removed.len()
        invariant
            0 <= i <= removed.len(),
            particles_wf(particle_entries(*old(particles))) ==> particles_wf(
                particle_entries(*particles),
            ),
            particle_models(particle_entries(*particles)) == without(
                particle_models(particle_entries(*old(particles))),
                removed@,
                i as nat,
            ),
        decreases removed.len() - i,
    {
        let ghost before = particle_entries(*particles);
        particles_remove(particles, removed[i]);
        assert(particle_models(particle_entries(*particles)) =~= particle_models(before).remove(
            removed@[i as int],
        ));
        i = i + 1;
    }
}

/// The particle that a spawn stands for: of the spawn's kind, at rest at the
/// spawn's position, shown with the first frame of its kind.
pub open spec fn spawned_particle(spawn: SpawnModel) -> ParticleModel {
    ParticleModel {
        entity: EntityModel {
            sprite: SpriteModel {
                tile_id: spawn.0.spec_tile_id(),
                hflip: false,
                position: Vec2 { x: 0, y: 0 },
                visible: true,
            },
            position: spawn.1,
            velocity: Vec2 { x: 0, y: 0 },
            collision_mask: MaskRect { x: 0, y: 0, width: 0, height: 0 },
            visible: true,
        },
        particle_data: spawn.0@,
    }
}

/// The particles that the spawns in `spawns` stand for.
pub open spec fn spawned_particles(spawns: Seq<SpawnModel>) -> Seq<ParticleModel> {
    Seq::new(spawns.len(), |i: int| spawned_particle(spawns[i]))
}

/// The entries after the first `n` values of `added` have been added under
/// the handles `fresh`.
pub open spec fn with_added<V>(
    entries: Map<Handle, V>,
    added: Seq<V>,
    fresh: Seq<Handle>,
    n: nat,
) -> Map<Handle, V>
    decreases n,
{
    if n == 0 {
        entries
    } else {
        with_added(entries, added, fresh, (n - 1) as nat).insert(fresh[n - 1], added[n - 1])
    }
}

/// Whether each of the first `n` handles of `fresh` is new when its value is
/// added.
pub open spec fn all_fresh<V>(
    entries: Map<Handle, V>,
    added: Seq<V>,
    fresh: Seq<Handle>,
    n: nat,
) -> bool {
    forall|k: int|
        0 <= k < n ==> !(#[trigger] with_added(entries, added, fresh, k as nat)).dom().contains(
            fresh[k],
        )
}

/// Adds the particles that were asked for. Returns the handles they got.
fn spawn_particles(particles: &mut Arena<Particle>, spawned: &Vec<Spawn>) -> (r: Ghost<
    Seq<Handle>,
>)
    requires
        forall|h: Handle| #[trigger]
            particle_entries(*old(particles)).dom().contains(h) ==> particle_entries(
                *old(particles),
            )[h]@.ready(),
        all_in_reach(spawned@),
    ensures
        r@.len() == spawned@.len(),
        all_fresh(
            particle_models(particle_entries(*old(particles))),
            spawned_particles(spawn_models(spawned@)),
            r@,
            spawned@.len(),
        ),
        particle_models(particle_entries(*final(particles))) == with_added(
            particle_models(particle_entries(*old(particles))),
            spawned_particles(spawn_models(spawned@)),
            r@,
            spawned@.len(),
        ),
        forall|h: Handle| #[trigger]
            particle_entries(*final(particles)).dom().contains(h) ==> particle_entries(
                *final(particles),
            )[h]@.ready(),
        particles_wf(particle_entries(*old(particles))) ==> particles_wf(
            particle_entries(*final(particles)),
        ),
{
    let ghost start = particle_models(particle_entries(*particles));
    let ghost spawns = spawned_particles(spawn_models(spawned@));
    let ghost mut fresh: Seq<Handle> = Seq::empty();
    let mut i: usize = 0;
    while i < spawned.len()
        invariant
            0 <= i <= spawned.len(),
            spawns == spawned_particles(spawn_models(spawned@)),
            fresh.len() == i,
            all_fresh(start, spawns, fresh, i as nat),
            particle_models(particle_entries(*particles)) == with_added(
                start,
                spawns,
                fresh,
                i as nat,
            ),
            forall|h: Handle| #[trigger]
                particle_entries(*particles).dom().contains(h) ==> particle_entries(
                    *particles,
                )[h]@.ready(),
            all_in_reach(spawned@),
            particles_wf(particle_entries(*old(particles))) ==> particles_wf(
                particle_entries(*particles),
            ),
        decreases spawned.len() - i,
    {
        let (data, position) = spawned[i];
        let mut particle = Particle::new(data);
        particle.entity.position = position;
        let ghost before = particle_entries(*particles);
        let ghost earlier = fresh;
        let handle = particles_insert(particles, particle);
        proof {
            fresh = fresh.push(handle);
            assert(particle@ == spawns[i as int]);
            assert(can_spawn(spawned@[i as int].0, spawned@[i as int].1@));
            assert(particle@.ready());
            assert(particle@.wf());
            assert forall|h: Handle| #[trigger]
                particle_entries(*particles).dom().contains(h) implies particle_entries(
                *particles,
            )[h]@.ready() by {
                if h != handle {
                    assert(before.dom().contains(h));
                }
            }
            assert(particle_models(particle_entries(*particles)) =~= particle_models(
                before,
            ).insert(handle, particle@));
            lemma_with_added_prefix(start, spawns, earlier, spawns, fresh, i as nat);
            assert forall|k: int| 0 <= k < i + 1 implies !(#[trigger] with_added(
                start,
                spawns,
                fresh,
                k as nat,
            )).dom().contains(fresh[k]) by {
                lemma_with_added_prefix(start, spawns, earlier, spawns, fresh, k as nat);
                if k < i {
                    assert(!with_added(start, spawns, earlier, k as nat).dom().contains(
                        earlier[k],
                    ));
                }
            }
        }
        i = i + 1;
    }
    Ghost(fresh)
}

/// The entries after `n` additions depend on the first `n` values and
/// handles only.
pub proof fn lemma_with_added_prefix<V>(
    entries: Map<Handle, V>,
    added: Seq<V>,
    first: Seq<Handle>,
    others: Seq<V>,
    second: Seq<Handle>,
    n: nat,
)
    requires
        n <= first.len(),
        n <= second.len(),
        n <= added.len(),
        n <= others.len(),
        forall|k: int| 0 <= k < n ==> first[k] == second[k],
        forall|k: int| 0 <= k < n ==> added[k] == others[k],
    ensures
        with_added(entries, added, first, n) == with_added(entries, others, second, n),
    decreases n,
{
    if n > 0 {
        lemma_with_added_prefix(entries, added, first, others, second, (n - 1) as nat);
    }
}

/// The whole game: the player, the level, the camera and the live enemies
/// and particles.
pub struct Game {
    pub player: Player,
    pub frame_count: u32,
    pub level: Level,
    pub offset: Vector2D,
    pub shake_time: u16,
    pub scroll: IntVector2D,
    pub enemies: Arena<Enemy>,
    pub particles: Arena<Particle>,
}

/// Model of a [`Game`], apart from its level, which never changes.
pub struct GameModel {
    pub player: PlayerModel,
    pub frame_count: int,
    pub offset: Vec2,
    pub shake_time: int,
    pub scroll: Vec2,
    pub enemies: Map<Handle, EnemyModel>,
    pub particles: Map<Handle, ParticleModel>,
}

impl View for Game {
    type V = GameModel;

    open spec fn view(&self) -> GameModel {
        GameModel {
            player: self.player@,
            frame_count: self.frame_count as int,
            offset: self.offset@,
            shake_time: self.shake_time as int,
            scroll: self.scroll@,
            enemies: enemy_models(enemy_entries(self.enemies)),
            particles: particle_models(particle_entries(self.particles)),
        }
    }
}

/// What a frame leaves to the collections: the order in which the enemies
/// and the particles take their turns, and the handles that new particles
/// get.
pub struct FrameOrder {
    pub enemy_order: Seq<Handle>,
    pub fresh: Seq<Handle>,
    pub particle_order: Seq<Handle>,
}

/// The spawn that the player's instruction asks for, if any.
pub open spec fn first_spawns(instruction: InstructionModel) -> Seq<SpawnModel> {
    match instruction {
        InstructionModel::CreateParticle(data, at) => seq![(data, at)],
        _ => Seq::empty(),
    }
}

impl GameModel {
    /// Whether all counters are where the game's own frames leave them: a
    /// running attack timer of the player has a frame to count down, and
    /// the counters of every enemy and particle are within their cycles.
    pub open spec fn wf(self) -> bool {
        &&& self.player.timer_runs()
        &&& forall|h: Handle| #[trigger] self.enemies.dom().contains(h) ==> self.enemies[h].wf()
        &&& forall|h: Handle| #[trigger]
            self.particles.dom().contains(h) ==> self.particles[h].wf()
    }

    /// Whether the game can be advanced: the player, every enemy and every
    /// particle can be updated, and the camera and the counters are within
    /// the limits of the arithmetic.
    pub open spec fn ready(self) -> bool {
        &&& self.player.ready()
        &&& self.offset.within(NEAR_LIMIT as int)
        &&& self.shake_time <= u16::MAX - 20
        &&& self.frame_count < u32::MAX
        &&& forall|h: Handle| #[trigger] self.enemies.dom().contains(h) ==> self.enemies[h].ready()
        &&& forall|h: Handle| #[trigger]
            self.particles.dom().contains(h) ==> self.particles[h].ready()
    }

    /// The pass state and the enemies after the player and all enemies have
    /// had their turn, the enemies in the order `order`.
    pub open spec fn after_enemies(
        self,
        level: Level,
        input: Input,
        jitter: (int, int),
        order: Seq<Handle>,
    ) -> (Pass, Map<Handle, EnemyModel>) {
        let (player, instruction) = self.player.step(input, level);
        enemies_after(
            order,
            order.len(),
            Pass {
                player,
                lost: false,
                shake_time: if self.shake_time > 0 {
                    self.shake_time - 1
                } else {
                    self.shake_time
                },
                spawned: first_spawns(instruction),
                removed: Seq::empty(),
            },
            self.enemies,
            level,
            camera_offset(self.offset, self.shake_time, jitter),
        )
    }

    /// The particles after those that the player and the enemies asked for
    /// have been added under the handles `fresh`.
    pub open spec fn particles_joined(
        self,
        level: Level,
        input: Input,
        jitter: (int, int),
        w: FrameOrder,
    ) -> Map<Handle, ParticleModel> {
        let spawned = self.after_enemies(level, input, jitter, w.enemy_order).0.spawned;
        with_added(self.particles, spawned_particles(spawned), w.fresh, spawned.len())
    }

    /// The pass state and the particles after all particles have had their
    /// turn, in the order `w.particle_order`. The player's sprite has been
    /// committed before.
    pub open spec fn after_particles(
        self,
        level: Level,
        input: Input,
        jitter: (int, int),
        w: FrameOrder,
    ) -> (Pass, Map<Handle, ParticleModel>) {
        let e = self.after_enemies(level, input, jitter, w.enemy_order).0;
        particles_after(
            w.particle_order,
            w.particle_order.len(),
            Pass {
                player: PlayerModel {
                    entity: shown_at(
                        e.player.entity,
                        camera_offset(self.offset, self.shake_time, jitter),
                        e.player.fudge_factor,
                    ),
                    ..e.player
                },
                lost: false,
                shake_time: e.shake_time,
                spawned: Seq::empty(),
                removed: Seq::empty(),
            },
            self.particles_joined(level, input, jitter, w),
        )
    }

    /// Whether `w` is what the collections can have done in this frame: the
    /// turns went by rising slot, and every new particle got a handle that
    /// was not in use.
    pub open spec fn orders_fit(
        self,
        level: Level,
        input: Input,
        jitter: (int, int),
        w: FrameOrder,
    ) -> bool {
        let spawned = self.after_enemies(level, input, jitter, w.enemy_order).0.spawned;
        &&& slot_order(w.enemy_order, self.enemies.dom())
        &&& w.fresh.len() == spawned.len()
        &&& all_fresh(self.particles, spawned_particles(spawned), w.fresh, spawned.len())
        &&& slot_order(w.particle_order, self.particles_joined(level, input, jitter, w).dom())
    }

    /// The game after one frame and how the frame ended.
    ///
    /// The camera is jittered while the screen shakes. The player is updated
    /// first, then every enemy against the player, then the enemies that
    /// asked for it are removed. The particles that were asked for are
    /// added, every particle is updated, and those that asked for it are
    /// removed. The frame is lost if a hit killed the player.
    pub open spec fn advanced(
        self,
        level: Level,
        input: Input,
        jitter: (int, int),
        w: FrameOrder,
    ) -> (GameModel, GameStatus) {
        let (e, enemies) = self.after_enemies(level, input, jitter, w.enemy_order);
        let (p, particles) = self.after_particles(level, input, jitter, w);
        (
            GameModel {
                player: p.player,
                frame_count: self.frame_count + 1,
                offset: self.offset,
                shake_time: p.shake_time,
                scroll: camera_offset(self.offset, self.shake_time, jitter).floor(),
                enemies: without(enemies, e.removed, e.removed.len()),
                particles: without(particles, p.removed, p.removed.len()),
            },
            if e.lost || p.lost {
                GameStatus::Lost
            } else {
                GameStatus::Continue
            },
        )
    }
}

impl Game {
    /// The camera offset of this frame; counts the screen shake down.
    fn shake(&mut self, jitter: (i32, i32)) -> (r: Vector2D)
        requires
            old(self).offset@.within(NEAR_LIMIT as int),
        ensures
            r@ == camera_offset(
                old(self).offset@,
                old(self).shake_time as int,
                (jitter.0 as int, jitter.1 as int),
            ),
            r@.within(NEAR_LIMIT + 2048),
            final(self).shake_time == (if old(self).shake_time > 0 {
                old(self).shake_time - 1
            } else {
                old(self).shake_time as int
            }),
            final(self).player == old(self).player,
            final(self).frame_count == old(self).frame_count,
            final(self).level == old(self).level,
            final(self).offset == old(self).offset,
            final(self).scroll == old(self).scroll,
            final(self).enemies == old(self).enemies,
            final(self).particles == old(self).particles,
    {
        let mut this_frame_offset = self.offset;
        if self.shake_time > 0 {
            let size: i32 = if self.shake_time < 4 {
                self.shake_time as i32
            } else {
                4
            };
            proof {
                lemma_trunc_rem_bound(jitter.0 as int, size * 256);
                lemma_trunc_rem_bound(jitter.1 as int, size * 256);
            }
            let half = Number::new(size).over_int(2);
            let offset = Vector2D::new(
                Number::from_raw(jitter.0).modulo_int(size).minus(half),
                Number::from_raw(jitter.1).modulo_int(size).minus(half),
            );
            this_frame_offset = this_frame_offset.plus(offset);
            self.shake_time -= 1;
        }
        this_frame_offset
    }

    /// First part of a frame: the camera, the player, the enemies. Returns
    /// whether the game was lost, the particles that were asked for, the
    /// camera offset and the order of the enemies' turns.
    fn run_player_and_enemies(&mut self, input: Input, jitter: (i32, i32)) -> (r: (
        bool,
        Vec<Spawn>,
        Vector2D,
        Ghost<Seq<Handle>>,
    ))
        requires
            old(self)@.ready(),
        ensures
            slot_order(r.3@, old(self)@.enemies.dom()),
            r.2@ == camera_offset(
                old(self)@.offset,
                old(self)@.shake_time,
                (jitter.0 as int, jitter.1 as int),
            ),
            r.2@.within(FAR_LIMIT as int),
            ({
                let (e, enemies) = old(self)@.after_enemies(
                    old(self).level,
                    input,
                    (jitter.0 as int, jitter.1 as int),
                    r.3@,
                );
                &&& final(self).player@ == e.player
                &&& r.0 == e.lost
                &&& final(self).shake_time == e.shake_time
                &&& spawn_models(r.1@) == e.spawned
                &&& final(self)@.enemies == without(enemies, e.removed, e.removed.len())
            }),
            all_in_reach(r.1@),
            final(self).player@.readable(),
            final(self).player@.timer_runs(),
            enemies_wf(enemy_entries(old(self).enemies)) ==> enemies_wf(
                enemy_entries(final(self).enemies),
            ),
            shake_has_room(final(self).player, final(self).shake_time),
            final(self).frame_count == old(self).frame_count,
            final(self).level == old(self).level,
            final(self).offset == old(self).offset,
            final(self).scroll == old(self).scroll,
            final(self).particles == old(self).particles,
    {
        let camera = self.shake(jitter);
        let instruction = self.player.update(input, &self.level);
        let mut spawned: Vec<Spawn> = Vec::new();
        match instruction {
            UpdateInstruction::CreateParticle(data, position) => {
                spawned.push((data, position));
            },
            _ => {},
        }
        assert(spawn_models(spawned@) =~= first_spawns(instruction@));
        assert forall|h: Handle| #[trigger]
            enemy_entries(self.enemies).dom().contains(h) implies enemy_entries(
            self.enemies,
        )[h]@.ready() by {
            assert(old(self)@.enemies.dom().contains(h));
        }
        let (lost, removed, order) = run_enemies(
            &mut self.enemies,
            &mut self.player,
            &mut self.shake_time,
            &mut spawned,
            &self.level,
            camera,
        );
        remove_enemies(&mut self.enemies, &removed);
        (lost, spawned, camera, order)
    }

    /// Second part of a frame: the sprites of the player and the background,
    /// the new particles, the particles' turns. Returns whether the game was
    /// lost in this part, the particles to remove, the handles of the new
    /// particles and the order of the particles' turns.
    fn run_particles_and_camera(&mut self, spawned: &Vec<Spawn>, camera: Vector2D) -> (r: (
        bool,
        Vec<Handle>,
        Ghost<Seq<Handle>>,
        Ghost<Seq<Handle>>,
    ))
        requires
            old(self).player@.readable(),
            shake_has_room(old(self).player, old(self).shake_time),
            camera@.within(FAR_LIMIT as int),
            all_in_reach(spawned@),
            forall|h: Handle| #[trigger]
                old(self)@.particles.dom().contains(h) ==> old(self)@.particles[h].ready(),
        ensures
            r.2@.len() == spawned@.len(),
            all_fresh(
                old(self)@.particles,
                spawned_particles(spawn_models(spawned@)),
                r.2@,
                spawned@.len(),
            ),
            slot_order(
                r.3@,
                with_added(
                    old(self)@.particles,
                    spawned_particles(spawn_models(spawned@)),
                    r.2@,
                    spawned@.len(),
                ).dom(),
            ),
            (
                pass_of(final(self).player, r.0, final(self).shake_time, Seq::empty(), r.1@),
                final(self)@.particles,
            ) == particles_after(
                r.3@,
                r.3@.len(),
                Pass {
                    player: PlayerModel {
                        entity: shown_at(
                            old(self).player@.entity,
                            camera@,
                            old(self).player@.fudge_factor,
                        ),
                        ..old(self).player@
                    },
                    lost: false,
                    shake_time: old(self).shake_time as int,
                    spawned: Seq::empty(),
                    removed: Seq::empty(),
                },
                with_added(
                    old(self)@.particles,
                    spawned_particles(spawn_models(spawned@)),
                    r.2@,
                    spawned@.len(),
                ),
            ),
            final(self).scroll@ == camera@.floor(),
            final(self).frame_count == old(self).frame_count,
            final(self).level == old(self).level,
            final(self).offset == old(self).offset,
            final(self).enemies == old(self).enemies,
            final(self).player.attack_timer == old(self).player.attack_timer,
            final(self).player.state == old(self).player.state,
            particles_wf(particle_entries(old(self).particles)) ==> particles_wf(
                particle_entries(final(self).particles),
            ),
    {
        self.player.commit(camera);
        self.scroll = camera.floor();
        assert forall|h: Handle| #[trigger]
            particle_entries(self.particles).dom().contains(h) implies particle_entries(
            self.particles,
        )[h]@.ready() by {
            assert(old(self)@.particles.dom().contains(h));
        }
        let fresh = spawn_particles(&mut self.particles, spawned);
        assert(spawn_models(Seq::<Spawn>::empty()) =~= Seq::<SpawnModel>::empty());
        let (lost, removed, order) = run_particles(
            &mut self.particles,
            &mut self.player,
            &mut self.shake_time,
            &self.level,
        );
        (lost, removed, fresh, order)
    }

    /// Advances the game by one frame with the given input. `jitter` holds
    /// the two random numbers that shake the camera.
    ///
    /// The collections decide the order of the turns and the handles of new
    /// particles; for what they decided, the game after the frame and the
    /// status are those of [`GameModel::advanced`].
    pub fn advance_frame(&mut self, input: Input, jitter: (i32, i32)) -> (r: GameStatus)
        requires
            old(self)@.ready(),
        ensures
            exists|w: FrameOrder|
                {
                    &&& #[trigger] old(self)@.orders_fit(
                        old(self).level,
                        input,
                        (jitter.0 as int, jitter.1 as int),
                        w,
                    )
                    &&& (final(self)@, r) == old(self)@.advanced(
                        old(self).level,
                        input,
                        (jitter.0 as int, jitter.1 as int),
                        w,
                    )
                },
            final(self).level == old(self).level,
            r != GameStatus::Won,
            old(self)@.wf() ==> final(self)@.wf(),
    {
        let ghost start = self@;
        let ghost level = self.level;
        let ghost noise = (jitter.0 as int, jitter.1 as int);
        let (lost, spawned, camera, Ghost(enemy_order)) = self.run_player_and_enemies(
            input,
            jitter,
        );
        assert(self@.particles == start.particles);
        assert forall|h: Handle| #[trigger]
            self@.particles.dom().contains(h) implies self@.particles[h].ready() by {
            assert(start.particles.dom().contains(h));
        }
        let (lost_late, removed, Ghost(fresh), Ghost(particle_order)) =
            self.run_particles_and_camera(&spawned, camera);
        remove_particles(&mut self.particles, &removed);
        self.frame_count += 1;
        proof {
            if start.wf() {
                assert forall|h: Handle| #[trigger]
                    enemy_entries(old(self).enemies).dom().contains(h) implies enemy_entries(
                    old(self).enemies,
                )[h]@.wf() by {
                    assert(start.enemies.dom().contains(h));
                }
                assert forall|h: Handle| #[trigger]
                    particle_entries(old(self).particles).dom().contains(h) implies particle_entries(
                    old(self).particles,
                )[h]@.wf() by {
                    assert(start.particles.dom().contains(h));
                }
                assert forall|h: Handle| #[trigger]
                    self@.enemies.dom().contains(h) implies self@.enemies[h].wf() by {
                    assert(enemy_entries(self.enemies).dom().contains(h));
                }
                assert forall|h: Handle| #[trigger]
                    self@.particles.dom().contains(h) implies self@.particles[h].wf() by {
                    assert(particle_entries(self.particles).dom().contains(h));
                }
            }
        }
        let status = if lost || lost_late {
            GameStatus::Lost
        } else {
            GameStatus::Continue
        };
        proof {
            let w = FrameOrder { enemy_order, fresh, particle_order };
            assert(start.orders_fit(level, input, noise, w));
            assert((self@, status) == start.advanced(level, input, noise, w));
        }
        status
    }
}

/// The enemy of kind `data` that starts at the spawn point `spawn`, given
/// in whole units, raised by `lift` units.
pub open spec fn enemy_at(data: EnemyData, spawn: (u16, u16), lift: int) -> EnemyModel {
    EnemyModel {
        entity: EntityModel {
            sprite: SpriteModel {
                tile_id: data.spec_tile_id(),
                hflip: false,
                position: Vec2 { x: 0, y: 0 },
                visible: true,
            },
            position: Vec2 { x: spawn.0 * 256, y: (spawn.1 - lift) * 256 },
            velocity: Vec2 { x: 0, y: 0 },
            collision_mask: data.spec_collision_mask(),
            visible: true,
        },
        enemy_data: data@,
    }
}

/// The kind of enemy that is placed: a resting slime or a resting bat.
pub open spec fn placed_kind(slime: bool) -> EnemyData {
    if slime {
        EnemyData::Slime(SlimeData { sprite_offset: 0, slime_state: SlimeState::Idle })
    } else {
        EnemyData::Bat(BatData { sprite_offset: 0, bat_state: BatState::Idle })
    }
}

/// How far above its spawn point an enemy starts: a slime seven units, so
/// that it stands on the ground; a bat not at all.
pub open spec fn placed_lift(slime: bool) -> int {
    if slime {
        7
    } else {
        0
    }
}

/// The enemies that start at the spawn points `spawns`.
pub open spec fn placements(spawns: Seq<(u16, u16)>, slime: bool) -> Seq<EnemyModel> {
    Seq::new(spawns.len(), |i: int| enemy_at(placed_kind(slime), spawns[i], placed_lift(slime)))
}

/// The enemies a level starts with: its slimes, then its bats.
pub open spec fn initial_enemies(level: Level) -> Seq<EnemyModel> {
    placements(level.spec_slime_spawns(), true) + placements(level.spec_bat_spawns(), false)
}

/// Adds an enemy for every spawn point in `spawns`. `target` lists all
/// enemies that are to be placed, and `handles` holds the handles of those
/// placed before. Returns the handles of all that are placed afterwards.
fn place_enemies(
    enemies: &mut Arena<Enemy>,
    spawns: &Vec<(u16, u16)>,
    slime: bool,
    Ghost(target): Ghost<Seq<EnemyModel>>,
    Ghost(handles): Ghost<Seq<Handle>>,
) -> (r: Ghost<Seq<Handle>>)
    requires
        handles.len() + spawns@.len() <= target.len(),
        forall|i: int|
            0 <= i < spawns@.len() ==> target[handles.len() + i] == #[trigger] placements(
                spawns@,
                slime,
            )[i],
        enemy_models(enemy_entries(*old(enemies))) == with_added(
            Map::empty(),
            target,
            handles,
            handles.len(),
        ),
        all_fresh(Map::<Handle, EnemyModel>::empty(), target, handles, handles.len()),
        forall|h: Handle| #[trigger]
            enemy_entries(*old(enemies)).dom().contains(h) ==> enemy_entries(
                *old(enemies),
            )[h]@.ready(),
    ensures
        r@.len() == handles.len() + spawns@.len(),
        enemy_models(enemy_entries(*final(enemies))) == with_added(
            Map::empty(),
            target,
            r@,
            r@.len(),
        ),
        all_fresh(Map::<Handle, EnemyModel>::empty(), target, r@, r@.len()),
        forall|h: Handle| #[trigger]
            enemy_entries(*final(enemies)).dom().contains(h) ==> enemy_entries(
                *final(enemies),
            )[h]@.ready(),
        enemies_wf(enemy_entries(*old(enemies))) ==> enemies_wf(enemy_entries(*final(enemies))),
{
    let ghost empty = Map::<Handle, EnemyModel>::empty();
    let ghost mut all = handles;
    let mut i: usize = 0;
    while i < spawns.len()
        invariant
            0 <= i <= spawns.len(),
            empty == Map::<Handle, EnemyModel>::empty(),
            handles.len() + spawns@.len() <= target.len(),
            forall|k: int|
                0 <= k < spawns@.len() ==> target[handles.len() + k] == #[trigger] placements(
                    spawns@,
                    slime,
                )[k],
            all.len() == handles.len() + i,
            enemy_models(enemy_entries(*enemies)) == with_added(empty, target, all, all.len()),
            all_fresh(empty, target, all, all.len()),
            forall|h: Handle| #[trigger]
                enemy_entries(*enemies).dom().contains(h) ==> enemy_entries(*enemies)[h]@.ready(),
            enemies_wf(enemy_entries(*old(enemies))) ==> enemies_wf(enemy_entries(*enemies)),
        decreases spawns.len() - i,
    {
        let spawn = spawns[i];
        let mut enemy = if slime {
            let mut slime = Enemy::new(EnemyData::Slime(SlimeData::new()));
            slime.entity.position = Vector2D::from_ints(spawn.0 as i32, spawn.1 as i32 - 7);
            slime
        } else {
            let mut bat = Enemy::new(EnemyData::Bat(BatData::new()));
            bat.entity.position = Vector2D::from_ints(spawn.0 as i32, spawn.1 as i32);
            bat
        };
        let ghost before = enemy_entries(*enemies);
        let ghost earlier = all;
        let handle = enemies_insert(enemies, enemy);
        proof {
            all = all.push(handle);
            assert(enemy@ == placements(spawns@, slime)[i as int]);
            assert(enemy@ == target[earlier.len() as int]);
            assert(enemy@.ready());
            assert(enemy@.wf());
            assert(enemy_models(enemy_entries(*enemies)) =~= enemy_models(before).insert(
                handle,
                enemy@,
            ));
            assert forall|h: Handle| #[trigger]
                enemy_entries(*enemies).dom().contains(h) implies enemy_entries(
                *enemies,
            )[h]@.ready() by {
                if h != handle {
                    assert(before.dom().contains(h));
                }
            }
            lemma_with_added_prefix(empty, target, earlier, target, all, earlier.len());
            assert forall|k: int| 0 <= k < all.len() implies !(#[trigger] with_added(
                empty,
                target,
                all,
                k as nat,
            )).dom().contains(all[k]) by {
                lemma_with_added_prefix(empty, target, earlier, target, all, k as nat);
                if k < earlier.len() {
                    assert(!with_added(empty, target, earlier, k as nat).dom().contains(
                        earlier[k],
                    ));
                }
            }
        }
        i = i + 1;
    }
    Ghost(all)
}

/// Whether every enemy in the collection can be updated.
fn enemies_ready(enemies: &Arena<Enemy>) -> (r: bool)
    ensures
        r == (forall|h: Handle| #[trigger]
            enemy_entries(*enemies).dom().contains(h) ==> enemy_entries(*enemies)[h]@.ready()),
{
    let handles = enemies_handles(enemies);
    let mut i: usize = 0;
    while i < handles.len()
        invariant
            0 <= i <= handles.len(),
            slot_order(handles@, enemy_entries(*enemies).dom()),
            forall|j: int|
                0 <= j < i ==> enemy_entries(*enemies)[#[trigger] handles@[j]]@.ready(),
        decreases handles.len() - i,
    {
        assert(handles@.contains(handles@[i as int]));
        match enemies_get(enemies, handles[i]) {
            Some(enemy) => {
                if !enemy.can_update() {
                    return false;
                }
            },
            None => {},
        }
        i = i + 1;
    }
    assert forall|h: Handle| #[trigger]
        enemy_entries(*enemies).dom().contains(h) implies enemy_entries(*enemies)[h]@.ready() by {
        assert(handles@.contains(h));
        let j = choose|j: int| 0 <= j < handles@.len() && handles@[j] == h;
        assert(enemy_entries(*enemies)[handles@[j]]@.ready());
    }
    true
}

/// Whether every particle in the collection can be updated.
fn particles_ready(particles: &Arena<Particle>) -> (r: bool)
    ensures
        r == (forall|h: Handle| #[trigger]
            particle_entries(*particles).dom().contains(h) ==> particle_entries(
                *particles,
            )[h]@.ready()),
{
    let handles = particles_handles(particles);
    let mut i: usize = 0;
    while i < handles.len()
        invariant
            0 <= i <= handles.len(),
            slot_order(handles@, particle_entries(*particles).dom()),
            forall|j: int|
                0 <= j < i ==> particle_entries(*particles)[#[trigger] handles@[j]]@.ready(),
        decreases handles.len() - i,
    {
        assert(handles@.contains(handles@[i as int]));
        match particles_get(particles, handles[i]) {
            Some(particle) => {
                if !particle.can_update() {
                    return false;
                }
            },
            None => {},
        }
        i = i + 1;
    }
    assert forall|h: Handle| #[trigger]
        particle_entries(*particles).dom().contains(h) implies particle_entries(
        *particles,
    )[h]@.ready() by {
        assert(handles@.contains(h));
        let j = choose|j: int| 0 <= j < handles@.len() && handles@[j] == h;
        assert(particle_entries(*particles)[handles@[j]]@.ready());
    }
    true
}

impl Game {
    /// The game at the start of a level: the player at the starting
    /// position, an enemy at every spawn point, no particles, the camera at
    /// rest.
    pub fn new(level: Level) -> (r: Game)
        ensures
            r.level == level,
            r.player@ == starting_player(),
            r.frame_count == 0,
            r.offset@ == (Vec2 { x: 0, y: 0 }),
            r.shake_time == 0,
            r.scroll@ == (Vec2 { x: 0, y: 0 }),
            r@.particles == Map::<Handle, ParticleModel>::empty(),
            exists|handles: Seq<Handle>|
                {
                    &&& handles.len() == initial_enemies(level).len()
                    &&& #[trigger] all_fresh(
                        Map::<Handle, EnemyModel>::empty(),
                        initial_enemies(level),
                        handles,
                        handles.len(),
                    )
                    &&& r@.enemies == with_added(
                        Map::empty(),
                        initial_enemies(level),
                        handles,
                        handles.len(),
                    )
                },
            r@.ready(),
            r@.wf(),
    {
        let mut enemies = enemies_with_capacity(100);
        let ghost target = initial_enemies(level);
        assert(enemy_models(enemy_entries(enemies)) =~= Map::<Handle, EnemyModel>::empty());
        let Ghost(slimes) = place_enemies(
            &mut enemies,
            level.slime_spawns(),
            true,
            Ghost(target),
            Ghost(Seq::empty()),
        );
        let Ghost(handles) = place_enemies(
            &mut enemies,
            level.bat_spawns(),
            false,
            Ghost(target),
            Ghost(slimes),
        );
        let particles = particles_with_capacity(30);
        assert(particle_models(particle_entries(particles)) =~= Map::<
            Handle,
            ParticleModel,
        >::empty());
        let game = Game {
            player: Player::new(),
            frame_count: 0,
            level,
            offset: Vector2D::from_ints(0, 0),
            shake_time: 0,
            scroll: IntVector2D::new(0, 0),
            enemies,
            particles,
        };
        assert(all_fresh(Map::<Handle, EnemyModel>::empty(), target, handles, handles.len()));
        game
    }

    /// Whether the game can be advanced.
    pub fn can_advance(&self) -> (r: bool)
        ensures
            r == self@.ready(),
    {
        let offset = self.offset;
        let ready = self.player.can_update() && -NEAR_LIMIT <= offset.x.raw && offset.x.raw
            <= NEAR_LIMIT && -NEAR_LIMIT <= offset.y.raw && offset.y.raw <= NEAR_LIMIT
            && self.shake_time <= u16::MAX - SHAKE_FRAMES && self.frame_count < u32::MAX
            && enemies_ready(&self.enemies) && particles_ready(&self.particles);
        proof {
            if ready {
                assert forall|h: Handle| #[trigger]
                    self@.enemies.dom().contains(h) implies self@.enemies[h].ready() by {
                    assert(enemy_entries(self.enemies).dom().contains(h));
                }
                assert forall|h: Handle| #[trigger]
                    self@.particles.dom().contains(h) implies self@.particles[h].ready() by {
                    assert(particle_entries(self.particles).dom().contains(h));
                }
            }
            if self@.ready() {
                assert forall|h: Handle| #[trigger]
                    enemy_entries(self.enemies).dom().contains(h) implies enemy_entries(
                    self.enemies,
                )[h]@.ready() by {
                    assert(self@.enemies.dom().contains(h));
                }
                assert forall|h: Handle| #[trigger]
                    particle_entries(self.particles).dom().contains(h) implies particle_entries(
                    self.particles,
                )[h]@.ready() by {
                    assert(self@.particles.dom().contains(h));
                }
            }
        }
        ready
    }
}

} // verus!
