//! The physical actor shared by the player, enemies and particles: position,
//! velocity, collision box and sprite state, with the swept collision against
//! the tile map.

use vstd::prelude::*;
use crate::level::Level;
use crate::level::tile_rect;
use crate::number::Number;
use crate::number::abs_int;
use crate::number::fits;
use crate::number::fixed_mul;
use crate::number::signum_int;
use crate::vector::IntVector2D;
use crate::vector::MaskRect;
use crate::vector::Rect;
use crate::vector::RectModel;
use crate::vector::Vec2;
use crate::vector::Vector2D;
use crate::vector::normalised;

verus! {

/// Bound on the raw position and velocity components from which an actor can
/// be moved.
pub const NEAR_LIMIT: i32 = 0x0400_0000;

/// Bound on the raw position components that can be read from another actor,
/// or swept from.
pub const FAR_LIMIT: i32 = 0x1000_0000;

/// Bound on the raw coordinates of the probe points of an actor within
/// [`FAR_LIMIT`].
pub const PROBE_LIMIT: i32 = 0x1400_0000;

/// Width of the visible viewport in whole units.
pub const SCREEN_WIDTH: i32 = 240;

/// Height of the visible viewport in whole units.
pub const SCREEN_HEIGHT: i32 = 160;

/// What the presentation layer is to show for one actor.
#[derive(Clone, Copy, Debug, PartialEq, Eq, Structural)]
pub struct Sprite {
    pub tile_id: u16,
    pub hflip: bool,
    pub position: IntVector2D,
    pub visible: bool,
}

/// Model of a [`Sprite`].
pub struct SpriteModel {
    pub tile_id: int,
    pub hflip: bool,
    pub position: Vec2,
    pub visible: bool,
}

impl View for Sprite {
    type V = SpriteModel;

    open spec fn view(&self) -> SpriteModel {
        SpriteModel {
            tile_id: self.tile_id as int,
            hflip: self.hflip,
            position: self.position@,
            visible: self.visible,
        }
    }
}

/// A physical actor.
#[derive(Clone, Copy, Debug, PartialEq, Eq, Structural)]
pub struct Entity {
    pub sprite: Sprite,
    pub position: Vector2D,
    pub velocity: Vector2D,
    pub collision_mask: MaskRect,
    pub visible: bool,
}

/// Model of an [`Entity`], with raw coordinates as unbounded integers.
pub struct EntityModel {
    pub sprite: SpriteModel,
    pub position: Vec2,
    pub velocity: Vec2,
    pub collision_mask: MaskRect,
    pub visible: bool,
}

impl View for Entity {
    type V = EntityModel;

    open spec fn view(&self) -> EntityModel {
        EntityModel {
            sprite: self.sprite@,
            position: self.position@,
            velocity: self.velocity@,
            collision_mask: self.collision_mask,
            visible: self.visible,
        }
    }
}

/// Whether `direction` is a unit step along one axis, in raw units.
pub open spec fn is_unit_axis(direction: Vec2) -> bool {
    ||| direction.x == 0 && (direction.y == 256 || direction.y == -256)
    ||| direction.y == 0 && (direction.x == 256 || direction.x == -256)
}

/// `a` with the sign of `d` applied: `a`, `-a` or 0.
pub open spec fn oriented(a: int, d: int) -> int {
    if d > 0 {
        a
    } else if d < 0 {
        -a
    } else {
        0
    }
}

/// The signed length of `v` along the unit axis `direction`.
pub open spec fn along(v: Vec2, direction: Vec2) -> int {
    if direction.x != 0 {
        oriented(v.x, direction.x)
    } else {
        oriented(v.y, direction.y)
    }
}

/// The collision rectangle of an actor at `position` with the box `mask`: the
/// box is centred on the position plus the box's offset.
pub open spec fn collider_of(position: Vec2, mask: MaskRect) -> RectModel {
    let size = Vec2 { x: mask.width * 256, y: mask.height * 256 };
    let offset = Vec2 { x: mask.x * 256, y: mask.y * 256 };
    RectModel { position: position.plus(offset).minus(size.over_int(2)), size }
}

/// Centre of the edge of `collider` that leads in `direction`.
pub open spec fn leading_point(collider: RectModel, direction: Vec2) -> Vec2 {
    collider.position.plus(collider.size.over_int(2)).plus(
        collider.size.hadamard(direction).over_int(2),
    )
}

/// How far each probe is moved in from its corner, as a vector along the
/// leading edge.
pub open spec fn probe_inset(direction: Vec2) -> Vec2 {
    direction.swap().times(1024).over_int(64)
}

/// The first probe point on the leading edge of `collider`.
pub open spec fn first_probe(collider: RectModel, direction: Vec2) -> Vec2 {
    leading_point(collider, direction).plus(
        collider.size.hadamard(direction.swap()).over_int(2),
    ).minus(probe_inset(direction))
}

/// The second probe point on the leading edge of `collider`.
pub open spec fn second_probe(collider: RectModel, direction: Vec2) -> Vec2 {
    leading_point(collider, direction).minus(
        collider.size.hadamard(direction.swap()).over_int(2),
    ).plus(probe_inset(direction))
}

/// Magnitude of each component of `direction`.
pub open spec fn axis_mask(direction: Vec2) -> Vec2 {
    Vec2 { x: abs_int(direction.x), y: abs_int(direction.y) }
}

/// The travel that brings the leading point `lead` exactly onto the face of
/// `tile` that is met first when moving in `direction`.
pub open spec fn stop_distance(tile: RectModel, lead: Vec2, direction: Vec2) -> Vec2 {
    let centre = tile.position.plus(tile.size.over_int(2));
    let face = centre.minus(tile.size.hadamard(direction).over_int(2));
    face.minus(lead).hadamard(axis_mask(direction))
}

/// The shorter of two travels; `current` where they are equally long.
pub open spec fn shorter(current: Vec2, candidate: Vec2) -> Vec2 {
    if current.manhattan() > candidate.manhattan() {
        candidate
    } else {
        current
    }
}

/// The travel after taking into account what the probe at `probe` finds.
pub open spec fn after_probe(
    level: Level,
    probe: Vec2,
    lead: Vec2,
    direction: Vec2,
    requested: Vec2,
    current: Vec2,
) -> Vec2 {
    match level.spec_collides(probe.plus(requested)) {
        Some(tile) => shorter(current, stop_distance(tile, lead, direction)),
        None => current,
    }
}

/// Result of a sweep of `collider` through `level` by `distance` along
/// `direction`: the travel that is allowed, and whether a probe met a solid
/// tile.
pub open spec fn sweep(level: Level, collider: RectModel, direction: Vec2, distance: int) -> (
    Vec2,
    bool,
) {
    let lead = leading_point(collider, direction);
    let requested = direction.times(distance);
    let first = first_probe(collider, direction);
    let second = second_probe(collider, direction);
    let after_first = after_probe(level, first, lead, direction, requested, requested);
    let after_second = after_probe(level, second, lead, direction, requested, after_first);
    (
        after_second,
        level.spec_collides(first.plus(requested)) is Some || level.spec_collides(
            second.plus(requested),
        ) is Some,
    )
}

/// Position and velocity along one axis after moving along that axis.
/// `vertical` selects the axis. With no velocity on the axis nothing changes;
/// a collision clears the velocity on the axis.
pub open spec fn axis_moved(
    level: Level,
    position: Vec2,
    velocity: Vec2,
    mask: MaskRect,
    vertical: bool,
) -> (Vec2, Vec2) {
    let speed = if vertical {
        velocity.y
    } else {
        velocity.x
    };
    if speed == 0 {
        (position, velocity)
    } else {
        let direction = if vertical {
            Vec2 { x: 0, y: 256 * signum_int(speed) }
        } else {
            Vec2 { x: 256 * signum_int(speed), y: 0 }
        };
        let (travel, collided) = sweep(
            level,
            collider_of(position, mask),
            direction,
            abs_int(speed),
        );
        let stopped = if vertical {
            Vec2 { x: velocity.x, y: 0 }
        } else {
            Vec2 { x: 0, y: velocity.y }
        };
        (
            position.plus(travel),
            if collided {
                stopped
            } else {
                velocity
            },
        )
    }
}

/// Position and velocity after one frame of movement with collision: the
/// vertical axis is resolved first, then the horizontal axis from where the
/// vertical move ended.
pub open spec fn moved(level: Level, position: Vec2, velocity: Vec2, mask: MaskRect) -> (
    Vec2,
    Vec2,
) {
    let (after_y, velocity_y) = axis_moved(level, position, velocity, mask, true);
    axis_moved(level, after_y, velocity_y, mask, false)
}

/// Where a sprite is drawn: the position relative to the camera, rounded
/// down, plus the visual nudge.
pub open spec fn screen_position(position: Vec2, offset: Vec2, fudge: Vec2) -> Vec2 {
    position.minus(offset).floor().plus(fudge)
}

/// Whether a screen position lies in the viewport widened by one tile.
pub open spec fn on_screen(at: Vec2) -> bool {
    -8 <= at.x <= 240 + 8 && -8 <= at.y <= 160 + 8
}

/// The sprite state after committing an actor's position.
pub open spec fn committed(e: EntityModel, offset: Vec2, fudge: Vec2) -> SpriteModel {
    if !e.visible {
        SpriteModel { visible: false, ..e.sprite }
    } else {
        let at = screen_position(e.position, offset, fudge);
        SpriteModel {
            position: at.minus(Vec2 { x: 8, y: 8 }),
            visible: on_screen(at),
            ..e.sprite
        }
    }
}

/// A unit-axis factor keeps, negates or clears a raw value.
pub proof fn lemma_unit_product(a: int, d: int)
    requires
        d == 0 || d == 256 || d == -256,
    ensures
        fixed_mul(a, d) == oriented(a, d),
        fixed_mul(d, a) == oriented(a, d),
{
    if d == 0 {
        assert(a * 0 == 0 && 0 * a == 0);
    } else if d == 256 {
        assert((a * 256) / 256 == a);
        assert((256 * a) / 256 == a);
    } else {
        assert((a * -256) / 256 == -a);
        assert((-256 * a) / 256 == -a);
    }
}

/// The travel that brings `lead` onto the near face of `tile`.
fn stop_at(tile: Rect, lead: Vector2D, direction: Vector2D) -> (r: Vector2D)
    requires
        is_unit_axis(direction@),
        lead@.within(PROBE_LIMIT as int),
        tile@.position.within(0x3000_0000),
        tile@.size == (Vec2 { x: 2048, y: 2048 }),
    ensures
        r@ == stop_distance(tile@, lead@, direction@),
        fits(r@.manhattan()),
{
    proof {
        lemma_unit_product(2048, direction@.x);
        lemma_unit_product(2048, direction@.y);
    }
    let centre = tile.position.plus(tile.size.over_int(2));
    let face = centre.minus(tile.size.hadamard(direction).over_int(2));
    let gap = face.minus(lead);
    let magnitudes = Vector2D { x: direction.x.abs(), y: direction.y.abs() };
    proof {
        lemma_unit_product(gap@.x, magnitudes@.x);
        lemma_unit_product(gap@.y, magnitudes@.y);
    }
    gap.hadamard(magnitudes)
}

/// Applies what the probe at `probe` finds to the travel `current`.
fn limit_travel(
    level: &Level,
    probe: Vector2D,
    lead: Vector2D,
    direction: Vector2D,
    requested: Vector2D,
    current: Vector2D,
) -> (r: (Vector2D, bool))
    requires
        is_unit_axis(direction@),
        probe@.within(PROBE_LIMIT as int),
        lead@.within(PROBE_LIMIT as int),
        requested@.within(FAR_LIMIT as int),
        fits(current@.manhattan()),
    ensures
        r.0@ == after_probe(*level, probe@, lead@, direction@, requested@, current@),
        r.1 == (level.spec_collides(probe@.plus(requested@)) is Some),
        fits(r.0@.manhattan()),
{
    match level.collides(probe.plus(requested)) {
        Some(tile) => {
            let stop = stop_at(tile, lead, direction);
            if current.manhattan_distance().raw > stop.manhattan_distance().raw {
                (stop, true)
            } else {
                (current, true)
            }
        },
        None => (current, false),
    }
}

impl Entity {
    /// A visible actor at the origin, at rest, with the given collision box.
    /// Its sprite is hidden until it is shown.
    pub fn new(collision_mask: MaskRect) -> (r: Entity)
        ensures
            r.collision_mask == collision_mask,
            r.position@ == (Vec2 { x: 0, y: 0 }),
            r.velocity@ == (Vec2 { x: 0, y: 0 }),
            r.visible,
            r.sprite == (Sprite {
                tile_id: 0,
                hflip: false,
                position: IntVector2D { x: 0, y: 0 },
                visible: false,
            }),
    {
        Entity {
            sprite: Sprite {
                tile_id: 0,
                hflip: false,
                position: IntVector2D { x: 0, y: 0 },
                visible: false,
            },
            collision_mask,
            position: Vector2D { x: Number { raw: 0 }, y: Number { raw: 0 } },
            velocity: Vector2D { x: Number { raw: 0 }, y: Number { raw: 0 } },
            visible: true,
        }
    }

    /// The collision rectangle in world space.
    pub fn collider(&self) -> (r: Rect)
        requires
            self.position@.within(0x4000_0000),
        ensures
            r@ == collider_of(self.position@, self.collision_mask),
    {
        let offset = Vector2D::from_ints(
            self.collision_mask.x as i32,
            self.collision_mask.y as i32,
        );
        let size = Vector2D::from_ints(
            self.collision_mask.width as i32,
            self.collision_mask.height as i32,
        );
        Rect { position: self.position.plus(offset).minus(size.over_int(2)), size }
    }

    /// The centre of the leading edge and the two probe points on it.
    fn probe_points(&self, direction: Vector2D) -> (r: (Vector2D, Vector2D, Vector2D))
        requires
            is_unit_axis(direction@),
            self.position@.within(FAR_LIMIT as int),
        ensures
            r.0@ == leading_point(collider_of(self.position@, self.collision_mask), direction@),
            r.1@ == first_probe(collider_of(self.position@, self.collision_mask), direction@),
            r.2@ == second_probe(collider_of(self.position@, self.collision_mask), direction@),
            r.0@.within(PROBE_LIMIT as int),
            r.1@.within(PROBE_LIMIT as int),
            r.2@.within(PROBE_LIMIT as int),
    {
        let collider = self.collider();
        proof {
            lemma_unit_product(collider@.size.x, direction@.x);
            lemma_unit_product(collider@.size.y, direction@.y);
            lemma_unit_product(collider@.size.x, direction@.y);
            lemma_unit_product(collider@.size.y, direction@.x);
            lemma_unit_product(1024, direction@.x);
            lemma_unit_product(1024, direction@.y);
        }
        let half = collider.size.over_int(2);
        let lead = collider.position.plus(half).plus(collider.size.hadamard(direction).over_int(2));
        let across = direction.swap();
        let small = across.times(Number::new(4)).over_int(64);
        let reach = collider.size.hadamard(across).over_int(2);
        let first = lead.plus(reach).minus(small);
        let second = lead.minus(reach).plus(small);
        (lead, first, second)
    }

    /// Sweeps the collision box through the tile map by `distance` along the
    /// unit axis `direction`. Two probe points near the ends of the leading
    /// edge are projected by the full distance; each one that lands in a
    /// solid tile limits the travel to what brings the leading edge onto that
    /// tile's near face. Returns the allowed travel and whether any probe hit.
    pub fn collision_in_direction(
        &self,
        direction: Vector2D,
        distance: Number,
        level: &Level,
    ) -> (r: (Vector2D, bool))
        requires
            is_unit_axis(direction@),
            self.position@.within(FAR_LIMIT as int),
            -FAR_LIMIT <= distance.raw <= FAR_LIMIT,
        ensures
            (r.0@, r.1) == sweep(
                *level,
                collider_of(self.position@, self.collision_mask),
                direction@,
                distance.raw as int,
            ),
            !r.1 ==> r.0@ == direction@.times(distance.raw as int),
            r.0@.manhattan() <= abs_int(distance.raw as int),
    {
        let (lead, first, second) = self.probe_points(direction);
        proof {
            lemma_unit_product(distance.raw as int, direction@.x);
            lemma_unit_product(distance.raw as int, direction@.y);
        }
        let requested = direction.times(distance);
        let (after_first, hit_first) = limit_travel(
            level,
            first,
            lead,
            direction,
            requested,
            requested,
        );
        let (after_second, hit_second) = limit_travel(
            level,
            second,
            lead,
            direction,
            requested,
            after_first,
        );
        (after_second, hit_first || hit_second)
    }

    /// Moves the actor by its velocity, resolving the vertical axis and then
    /// the horizontal axis against the tile map. A collision on an axis
    /// clears the velocity on that axis. Returns the displacement.
    pub fn update_position(&mut self, level: &Level) -> (r: Vector2D)
        requires
            old(self).position@.within(NEAR_LIMIT as int),
            old(self).velocity@.within(NEAR_LIMIT as int),
        ensures
            (final(self).position@, final(self).velocity@) == moved(
                *level,
                old(self).position@,
                old(self).velocity@,
                old(self).collision_mask,
            ),
            r@ == final(self).position@.minus(old(self).position@),
            final(self).sprite == old(self).sprite,
            final(self).collision_mask == old(self).collision_mask,
            final(self).visible == old(self).visible,
            abs_int(r@.x) <= abs_int(old(self).velocity@.x),
            abs_int(r@.y) <= abs_int(old(self).velocity@.y),
            final(self).velocity@.x == old(self).velocity@.x || final(self).velocity@.x == 0,
            final(self).velocity@.y == old(self).velocity@.y || final(self).velocity@.y == 0,
    {
        let initial_position = self.position;
        let y: i32 = self.velocity.y.signum();
        if y != 0 {
            let direction = Vector2D::from_ints(0, y);
            let (delta, collided) = self.collision_in_direction(
                direction,
                self.velocity.y.abs(),
                level,
            );
            proof {
                lemma_unit_product(abs_int(self.velocity@.y), direction@.x);
                lemma_unit_product(abs_int(self.velocity@.y), direction@.y);
                lemma_travel_on_axis(
                    *level,
                    collider_of(self.position@, self.collision_mask),
                    direction@,
                    abs_int(self.velocity@.y),
                );
            }
            self.position = self.position.plus(delta);
            if collided {
                self.velocity.y = Number { raw: 0 };
            }
        }
        let x: i32 = self.velocity.x.signum();
        if x != 0 {
            let direction = Vector2D::from_ints(x, 0);
            let (delta, collided) = self.collision_in_direction(
                direction,
                self.velocity.x.abs(),
                level,
            );
            proof {
                lemma_unit_product(abs_int(self.velocity@.x), direction@.x);
                lemma_unit_product(abs_int(self.velocity@.x), direction@.y);
                lemma_travel_on_axis(
                    *level,
                    collider_of(self.position@, self.collision_mask),
                    direction@,
                    abs_int(self.velocity@.x),
                );
            }
            self.position = self.position.plus(delta);
            if collided {
                self.velocity.x = Number { raw: 0 };
            }
        }
        self.position.minus(initial_position)
    }

    /// Moves the actor by its velocity, ignoring the tile map. Returns the
    /// displacement, which is the velocity.
    pub fn update_position_without_collision(&mut self) -> (r: Vector2D)
        requires
            old(self).position@.plus(old(self).velocity@).fits(),
        ensures
            final(self).position@ == old(self).position@.plus(old(self).velocity@),
            r == old(self).velocity,
            *final(self) == (Entity { position: final(self).position, ..*old(self) }),
    {
        self.position = self.position.plus(self.velocity);
        self.velocity
    }

    /// Fixes what the sprite shows for this frame. The sprite is placed at
    /// the actor's position relative to the camera `offset`, plus the visual
    /// nudge `fudge`, and is hidden when that lies outside the viewport
    /// widened by one tile. An invisible actor's sprite is hidden where it
    /// is.
    pub fn commit_with_fudge(&mut self, offset: Vector2D, fudge: IntVector2D)
        requires
            old(self).position@.minus(offset@).fits(),
            screen_position(old(self).position@, offset@, fudge@).minus(Vec2 { x: 8, y: 8 }).fits(),
            screen_position(old(self).position@, offset@, fudge@).fits(),
        ensures
            final(self).sprite@ == committed(old(self)@, offset@, fudge@),
            *final(self) == (Entity { sprite: final(self).sprite, ..*old(self) }),
    {
        if !self.visible {
            self.sprite.visible = false;
        } else {
            let position = self.position.minus(offset).floor().plus(fudge);
            self.sprite.position = position.minus(IntVector2D { x: 8, y: 8 });
            if position.x < -8 || position.x > SCREEN_WIDTH + 8 || position.y < -8 || position.y
                > SCREEN_HEIGHT + 8 {
                self.sprite.visible = false;
            } else {
                self.sprite.visible = true;
            }
        }
    }
}

/// A sweep moves along its axis only, and by no more than was asked.
pub proof fn lemma_travel_on_axis(level: Level, collider: RectModel, direction: Vec2, distance: int)
    requires
        is_unit_axis(direction),
    ensures
        direction.x == 0 ==> sweep(level, collider, direction, distance).0.x == 0,
        direction.y == 0 ==> sweep(level, collider, direction, distance).0.y == 0,
        sweep(level, collider, direction, distance).0.manhattan() <= abs_int(distance),
{
    let lead = leading_point(collider, direction);
    let requested = direction.times(distance);
    lemma_unit_product(distance, direction.x);
    lemma_unit_product(distance, direction.y);
    let first = first_probe(collider, direction);
    let second = second_probe(collider, direction);
    assert forall|tile: RectModel|
        (direction.x == 0 ==> (#[trigger] stop_distance(tile, lead, direction)).x == 0) && (
        direction.y == 0 ==> stop_distance(tile, lead, direction).y == 0) by {
        let centre = tile.position.plus(tile.size.over_int(2));
        let face = centre.minus(tile.size.hadamard(direction).over_int(2));
        let gap = face.minus(lead);
        lemma_unit_product(gap.x, abs_int(direction.x));
        lemma_unit_product(gap.y, abs_int(direction.y));
    }
}

/// The leading point of an actor's box in plain terms: the middle of the
/// bottom edge when moving down, of the top edge when moving up, of the
/// right edge when moving right and of the left edge when moving left.
pub proof fn lemma_leading_point_is_edge_centre(position: Vec2, mask: MaskRect, direction: Vec2)
    requires
        is_unit_axis(direction),
    ensures
        ({
            let collider = collider_of(position, mask);
            let lead = leading_point(collider, direction);
            let centre = Vec2 {
                x: collider.position.x + mask.width * 128,
                y: collider.position.y + mask.height * 128,
            };
            &&& direction.y > 0 ==> lead == (Vec2 {
                x: centre.x,
                y: collider.position.y + collider.size.y,
            })
            &&& direction.y < 0 ==> lead == (Vec2 { x: centre.x, y: collider.position.y })
            &&& direction.x > 0 ==> lead == (Vec2 {
                x: collider.position.x + collider.size.x,
                y: centre.y,
            })
            &&& direction.x < 0 ==> lead == (Vec2 { x: collider.position.x, y: centre.y })
        }),
{
    let collider = collider_of(position, mask);
    lemma_unit_product(collider.size.x, direction.x);
    lemma_unit_product(collider.size.y, direction.y);
}

/// The stop distance in plain terms: along the axis of travel it is the gap
/// between the leading point and the face of the tile that is met first,
/// which is the top face when moving down, the bottom face when moving up,
/// the left face when moving right and the right face when moving left.
/// Across the axis it is zero.
pub proof fn lemma_stop_distance_is_gap_to_near_face(tile: Vec2, lead: Vec2, direction: Vec2)
    requires
        is_unit_axis(direction),
    ensures
        ({
            let rect = tile_rect(tile);
            let stop = stop_distance(rect, lead, direction);
            &&& direction.y > 0 ==> stop == (Vec2 { x: 0, y: rect.position.y - lead.y })
            &&& direction.y < 0 ==> stop == (Vec2 {
                x: 0,
                y: rect.position.y + rect.size.y - lead.y,
            })
            &&& direction.x > 0 ==> stop == (Vec2 { x: rect.position.x - lead.x, y: 0 })
            &&& direction.x < 0 ==> stop == (Vec2 {
                x: rect.position.x + rect.size.x - lead.x,
                y: 0,
            })
        }),
{
    let rect = tile_rect(tile);
    lemma_unit_product(2048, direction.x);
    lemma_unit_product(2048, direction.y);
    let centre = rect.position.plus(rect.size.over_int(2));
    let face = centre.minus(rect.size.hadamard(direction).over_int(2));
    let gap = face.minus(lead);
    lemma_unit_product(gap.x, abs_int(direction.x));
    lemma_unit_product(gap.y, abs_int(direction.y));
}

/// Whether one of the two probes of a sweep lands in the solid tile `tile`.
pub open spec fn probe_lands_in(
    level: Level,
    collider: RectModel,
    direction: Vec2,
    distance: int,
    tile: RectModel,
) -> bool {
    let requested = direction.times(distance);
    ||| level.spec_collides(first_probe(collider, direction).plus(requested)) == Some(tile)
    ||| level.spec_collides(second_probe(collider, direction).plus(requested)) == Some(tile)
}

/// A sweep never allows a travel longer than the one that brings the leading
/// edge onto the near face of a solid tile in which one of its probes lands.
/// So, unless the edge lay beyond that face before the move, it does not lie
/// beyond it afterwards. Where no probe lands in a solid tile, the requested
/// travel is allowed unchanged.
pub proof fn lemma_sweep_stops_at_solid_tiles(
    level: Level,
    collider: RectModel,
    direction: Vec2,
    distance: int,
    tile: RectModel,
)
    requires
        is_unit_axis(direction),
    ensures
        !sweep(level, collider, direction, distance).1 ==> sweep(
            level,
            collider,
            direction,
            distance,
        ).0 == direction.times(distance),
        probe_lands_in(level, collider, direction, distance, tile) ==> sweep(
            level,
            collider,
            direction,
            distance,
        ).1,
        probe_lands_in(level, collider, direction, distance, tile) ==> sweep(
            level,
            collider,
            direction,
            distance,
        ).0.manhattan() <= stop_distance(
            tile,
            leading_point(collider, direction),
            direction,
        ).manhattan(),
        probe_lands_in(level, collider, direction, distance, tile) && along(
            stop_distance(tile, leading_point(collider, direction), direction),
            direction,
        ) >= 0 ==> along(sweep(level, collider, direction, distance).0, direction) <= along(
            stop_distance(tile, leading_point(collider, direction), direction),
            direction,
        ),
{
    let lead = leading_point(collider, direction);
    let stop = stop_distance(tile, lead, direction);
    let centre = tile.position.plus(tile.size.over_int(2));
    let face = centre.minus(tile.size.hadamard(direction).over_int(2));
    let gap = face.minus(lead);
    lemma_unit_product(gap.x, abs_int(direction.x));
    lemma_unit_product(gap.y, abs_int(direction.y));
    lemma_travel_on_axis(level, collider, direction, distance);
}

/// The velocity of an actor that homes in on a point `target` away at the
/// raw speed `speed`: along the unit vector toward the point, or the old
/// velocity where that unit vector does not exist.
pub open spec fn homing_velocity(target: Vec2, velocity: Vec2, speed: int) -> Vec2 {
    match normalised(target) {
        Some(unit) => unit.times(speed),
        None => velocity,
    }
}

/// The actor `e` showing the sprite `tile_id`.
pub open spec fn showing(e: EntityModel, tile_id: int) -> EntityModel {
    EntityModel { sprite: SpriteModel { tile_id, ..e.sprite }, ..e }
}

/// The actor `e` after moving with collision through `level`.
pub open spec fn after_move(e: EntityModel, level: Level) -> EntityModel {
    let (position, velocity) = moved(level, e.position, e.velocity, e.collision_mask);
    EntityModel { position, velocity, ..e }
}

/// Points the velocity of `entity` at the point `target` away, at the given
/// speed; leaves it as it is where there is no direction to the point.
pub fn steer(entity: &mut Entity, target: Vector2D, speed: Number)
    requires
        0 <= speed.raw <= 512,
    ensures
        final(entity).velocity@ == homing_velocity(
            target@,
            old(entity).velocity@,
            speed.raw as int,
        ),
        *final(entity) == (Entity { velocity: final(entity).velocity, ..*old(entity) }),
        normalised(target@) is Some ==> final(entity).velocity@.within(
            speed.raw * 0x10_0000 - speed.raw,
        ),
{
    match target.normalise() {
        Some(unit) => {
            proof {
                lemma_scaled_bound(unit@.x, speed.raw as int);
                lemma_scaled_bound(unit@.y, speed.raw as int);
            }
            entity.velocity = unit.times(speed);
        },
        None => {},
    }
}

/// Scaling a bounded raw value by a fixed-point speed keeps it bounded.
pub proof fn lemma_scaled_bound(u: int, speed: int)
    requires
        -(0x1000_0000 - 256) <= u <= 0x1000_0000 - 256,
        0 <= speed <= 512,
    ensures
        -(speed * 0x10_0000 - speed) <= (u * speed) / 256 <= speed * 0x10_0000 - speed,
{
    assert(-(speed * 0x10_0000 - speed) <= (u * speed) / 256 <= speed * 0x10_0000 - speed)
        by (nonlinear_arith)
        requires
            -(0x1000_0000 - 256) <= u <= 0x1000_0000 - 256,
            0 <= speed <= 512,
    ;
}

} // verus!
