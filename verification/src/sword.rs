//! The two weapon variants and their parameter tables: forces, durations,
//! sprite ids, per-frame visual nudges and per-frame hurtboxes.

use vstd::prelude::*;
use crate::number::Number;
use crate::vector::Rect;
use crate::vector::RectModel;
use crate::vector::Vec2;

verus! {

/// The weapon the player carries. The long sword is the stronger variant; a
/// hit downgrades it to the short sword.
#[derive(Clone, Copy, Debug, PartialEq, Eq, Structural)]
pub enum SwordState {
    LongSword,
    ShortSword,
}

/// The rectangle with the given position and size in whole units.
pub open spec fn whole_rect(x: int, y: int, width: int, height: int) -> RectModel {
    RectModel {
        position: Vec2 { x: x * 256, y: y * 256 },
        size: Vec2 { x: width * 256, y: height * 256 },
    }
}

/// Hurtbox of the long sword on the ground at animation frame `frame`, in
/// the actor's own space with the origin at the sprite's top left corner.
pub open spec fn spec_long_sword_hurtbox(frame: int) -> Option<RectModel> {
    if frame == 0 {
        Some(whole_rect(1, 10, 6, 3))
    } else if frame == 1 {
        Some(whole_rect(0, 9, 7, 2))
    } else if frame == 2 {
        Some(whole_rect(0, 1, 6, 8))
    } else if frame == 3 {
        Some(whole_rect(3, 0, 6, 8))
    } else if frame == 4 {
        Some(whole_rect(6, 3, 10, 8))
    } else if 5 <= frame <= 7 {
        Some(whole_rect(6, 5, 10, 9))
    } else {
        None
    }
}

/// Hurtbox of the short sword on the ground at animation frame `frame`.
pub open spec fn spec_short_sword_hurtbox(frame: int) -> Option<RectModel> {
    if frame == 1 {
        Some(whole_rect(10, 5, 3, 5))
    } else if frame == 2 {
        Some(whole_rect(8, 5, 6, 6))
    } else if frame == 3 {
        Some(whole_rect(8, 6, 8, 8))
    } else if frame == 4 {
        Some(whole_rect(8, 7, 5, 7))
    } else if frame == 5 {
        Some(whole_rect(8, 7, 7, 7))
    } else if frame == 6 {
        Some(whole_rect(8, 5, 7, 8))
    } else if frame == 7 {
        Some(whole_rect(8, 4, 4, 7))
    } else {
        None
    }
}

/// Horizontal visual nudge of the short sword at animation frame `frame`.
pub open spec fn spec_short_sword_fudge(frame: int) -> int {
    if frame == 1 {
        1
    } else if frame == 2 {
        2
    } else if 3 <= frame <= 7 {
        3
    } else {
        0
    }
}

/// Horizontal visual nudge of the long sword at animation frame `frame`.
pub open spec fn spec_long_sword_fudge(frame: int) -> int {
    if frame == 2 {
        1
    } else if frame == 3 || frame == 7 {
        4
    } else if 4 <= frame <= 6 {
        5
    } else {
        0
    }
}

/// Hurtbox of the long sword on the ground at animation frame `frame`.
pub fn long_sword_hurtbox(frame: u16) -> (r: Option<Rect>)
    ensures
        match r {
            Some(rect) => spec_long_sword_hurtbox(frame as int) == Some(rect@),
            None => spec_long_sword_hurtbox(frame as int) is None,
        },
{
    match frame {
        0 => Some(Rect::from_ints(1, 10, 6, 3)),
        1 => Some(Rect::from_ints(0, 9, 7, 2)),
        2 => Some(Rect::from_ints(0, 1, 6, 8)),
        3 => Some(Rect::from_ints(3, 0, 6, 8)),
        4 => Some(Rect::from_ints(6, 3, 10, 8)),
        5 => Some(Rect::from_ints(6, 5, 10, 9)),
        6 => Some(Rect::from_ints(6, 5, 10, 9)),
        7 => Some(Rect::from_ints(6, 5, 10, 9)),
        _ => None,
    }
}

/// Hurtbox of the short sword on the ground at animation frame `frame`.
pub fn short_sword_hurtbox(frame: u16) -> (r: Option<Rect>)
    ensures
        match r {
            Some(rect) => spec_short_sword_hurtbox(frame as int) == Some(rect@),
            None => spec_short_sword_hurtbox(frame as int) is None,
        },
{
    match frame {
        0 => None,
        1 => Some(Rect::from_ints(10, 5, 3, 5)),
        2 => Some(Rect::from_ints(8, 5, 6, 6)),
        3 => Some(Rect::from_ints(8, 6, 8, 8)),
        4 => Some(Rect::from_ints(8, 7, 5, 7)),
        5 => Some(Rect::from_ints(8, 7, 7, 7)),
        6 => Some(Rect::from_ints(8, 5, 7, 8)),
        7 => Some(Rect::from_ints(8, 4, 4, 7)),
        _ => None,
    }
}

/// Horizontal visual nudge of the short sword at animation frame `frame`.
pub fn short_sword_fudge(frame: u16) -> (r: i32)
    ensures
        r == spec_short_sword_fudge(frame as int),
{
    match frame {
        0 => 0,
        1 => 1,
        2 => 2,
        3 => 3,
        4 => 3,
        5 => 3,
        6 => 3,
        7 => 3,
        _ => 0,
    }
}

/// Horizontal visual nudge of the long sword at animation frame `frame`.
pub fn long_sword_fudge(frame: u16) -> (r: i32)
    ensures
        r == spec_long_sword_fudge(frame as int),
{
    match frame {
        0 => 0,
        1 => 0,
        2 => 1,
        3 => 4,
        4 => 5,
        5 => 5,
        6 => 5,
        7 => 4,
        _ => 0,
    }
}

impl SwordState {
    /// Raw acceleration per frame while walking.
    pub open spec fn spec_ground_walk_force(self) -> int {
        match self {
            SwordState::LongSword => 64,
            SwordState::ShortSword => 80,
        }
    }

    /// Raw upward speed gained by a jump.
    pub open spec fn spec_jump_impulse(self) -> int {
        match self {
            SwordState::LongSword => 512,
            SwordState::ShortSword => 560,
        }
    }

    /// Raw acceleration per frame while steering in the air.
    pub open spec fn spec_air_move_force(self) -> int {
        match self {
            SwordState::LongSword => 4,
            SwordState::ShortSword => 5,
        }
    }

    /// First animation frame of the standing and walking cycles.
    pub open spec fn animation_base(self) -> int {
        match self {
            SwordState::LongSword => 0,
            SwordState::ShortSword => 41,
        }
    }

    /// The animation counter as a cycle of `length` frames leaves it: a
    /// counter at or past the end starts over.
    pub open spec fn cycled(counter: int, length: int) -> int {
        if counter >= length {
            0
        } else {
            counter
        }
    }

    /// Sprite id of the standing cycle at `counter`: four frames of eight
    /// ticks each.
    pub open spec fn spec_idle_animation(self, counter: int) -> int {
        (self.animation_base() + SwordState::cycled(counter, 32) / 8) * 4
    }

    /// Sprite id of the walking cycle at `counter`: six frames of four ticks
    /// each.
    pub open spec fn spec_walk_animation(self, counter: int) -> int {
        (self.animation_base() + 4 + SwordState::cycled(counter, 24) / 4) * 4
    }

    /// First animation frame of the jump.
    pub open spec fn spec_jump_offset(self) -> int {
        match self {
            SwordState::LongSword => 10,
            SwordState::ShortSword => 51,
        }
    }

    /// Length of a ground attack in frames.
    pub open spec fn spec_attack_duration(self) -> int {
        match self {
            SwordState::LongSword => 60,
            SwordState::ShortSword => 40,
        }
    }

    /// Length of an air attack in frames.
    pub open spec fn spec_jump_attack_duration(self) -> int {
        match self {
            SwordState::LongSword => 34,
            SwordState::ShortSword => 28,
        }
    }

    /// Frames of an attack of `duration` frames that have passed when
    /// `timer` frames are left. A timer that is longer than the attack, as it
    /// is when the sword or the ground was lost in the middle of a swing,
    /// counts as a time that has wrapped around in sixteen bits.
    pub open spec fn elapsed(duration: int, timer: int) -> int {
        if timer <= duration {
            duration - timer
        } else {
            duration - timer + 0x1_0000
        }
    }

    /// Animation frame of a ground attack with `timer` frames left: one
    /// frame for every eight frames that have passed.
    pub open spec fn spec_attack_frame(self, timer: int) -> int {
        SwordState::elapsed(self.spec_attack_duration(), timer) / 8
    }

    /// Animation frame of an air attack with `timer` frames left: one frame
    /// for every eight frames that have passed.
    pub open spec fn spec_jump_attack_frame(self, timer: int) -> int {
        SwordState::elapsed(self.spec_jump_attack_duration(), timer) / 8
    }

    /// The frame held while resting after a swing.
    pub open spec fn spec_hold_frame(self) -> int {
        7
    }

    /// The air attack frame that is shown by its own sprite.
    pub open spec fn spec_jump_attack_hold_frame(self) -> int {
        match self {
            SwordState::LongSword => 13,
            SwordState::ShortSword => 54,
        }
    }

    /// Length of the rest after a ground attack in frames.
    pub open spec fn spec_cooldown_time(self) -> int {
        match self {
            SwordState::LongSword => 20,
            SwordState::ShortSword => 10,
        }
    }

    /// Sprite id of ground attack frame `frame`.
    pub open spec fn spec_to_sprite_id(self, frame: int) -> int {
        (self.animation_base() + 16 + frame) * 4
    }

    /// Sprite id of air attack frame `frame`.
    pub open spec fn spec_to_jump_sprite_id(self, frame: int) -> int {
        if frame == self.spec_jump_attack_hold_frame() {
            frame * 4
        } else {
            (self.animation_base() + 24 + frame) * 4
        }
    }

    /// Horizontal visual nudge at ground attack frame `frame`.
    pub open spec fn spec_fudge(self, frame: int) -> int {
        match self {
            SwordState::LongSword => spec_long_sword_fudge(frame),
            SwordState::ShortSword => spec_short_sword_fudge(frame),
        }
    }

    /// Hurtbox at ground attack frame `frame`, in the actor's own space.
    pub open spec fn spec_ground_attack_hurtbox(self, frame: int) -> Option<RectModel> {
        match self {
            SwordState::LongSword => spec_long_sword_hurtbox(frame),
            SwordState::ShortSword => spec_short_sword_hurtbox(frame),
        }
    }

    /// Hurtbox of an air attack: the whole sprite, at every frame.
    pub open spec fn spec_air_attack_hurtbox(self, frame: int) -> Option<RectModel> {
        Some(whole_rect(0, 0, 16, 16))
    }

    /// Acceleration per frame while walking.
    pub fn ground_walk_force(self) -> (r: Number)
        ensures
            r.raw == self.spec_ground_walk_force(),
    {
        match self {
            SwordState::LongSword => Number::new(4).over_int(16),
            SwordState::ShortSword => Number::new(5).over_int(16),
        }
    }

    /// Upward speed gained by a jump.
    pub fn jump_impulse(self) -> (r: Number)
        ensures
            r.raw == self.spec_jump_impulse(),
    {
        match self {
            SwordState::LongSword => Number::new(32).over_int(16),
            SwordState::ShortSword => Number::new(35).over_int(16),
        }
    }

    /// Acceleration per frame while steering in the air.
    pub fn air_move_force(self) -> (r: Number)
        ensures
            r.raw == self.spec_air_move_force(),
    {
        match self {
            SwordState::LongSword => Number::new(4).over_int(256),
            SwordState::ShortSword => Number::new(5).over_int(256),
        }
    }

    /// Sprite id of the standing cycle; a counter past the end of the cycle
    /// is reset.
    pub fn idle_animation(self, counter: &mut u16) -> (r: u16)
        ensures
            *final(counter) == SwordState::cycled(*old(counter) as int, 32),
            r == self.spec_idle_animation(*old(counter) as int),
    {
        match self {
            SwordState::LongSword => {
                if *counter >= 4 * 8 {
                    *counter = 0;
                }
                (0 + *counter / 8) * 4
            },
            SwordState::ShortSword => {
                if *counter >= 4 * 8 {
                    *counter = 0;
                }
                (41 + *counter / 8) * 4
            },
        }
    }

    /// First animation frame of the jump.
    pub fn jump_offset(self) -> (r: u16)
        ensures
            r == self.spec_jump_offset(),
    {
        match self {
            SwordState::LongSword => 10,
            SwordState::ShortSword => 51,
        }
    }

    /// Sprite id of the walking cycle; a counter past the end of the cycle
    /// is reset.
    pub fn walk_animation(self, counter: &mut u16) -> (r: u16)
        ensures
            *final(counter) == SwordState::cycled(*old(counter) as int, 24),
            r == self.spec_walk_animation(*old(counter) as int),
    {
        match self {
            SwordState::LongSword => {
                if *counter >= 6 * 4 {
                    *counter = 0;
                }
                (4 + *counter / 4) * 4
            },
            SwordState::ShortSword => {
                if *counter >= 6 * 4 {
                    *counter = 0;
                }
                (45 + *counter / 4) * 4
            },
        }
    }

    /// Length of a ground attack in frames.
    pub fn attack_duration(self) -> (r: u16)
        ensures
            r == self.spec_attack_duration(),
    {
        match self {
            SwordState::LongSword => 60,
            SwordState::ShortSword => 40,
        }
    }

    /// Length of an air attack in frames.
    pub fn jump_attack_duration(self) -> (r: u16)
        ensures
            r == self.spec_jump_attack_duration(),
    {
        match self {
            SwordState::LongSword => 34,
            SwordState::ShortSword => 28,
        }
    }

    /// Animation frame of a ground attack with `timer` frames left.
    pub fn attack_frame(self, timer: u16) -> (r: u16)
        ensures
            r == self.spec_attack_frame(timer as int),
            r <= 8191,
    {
        match self {
            SwordState::LongSword => self.attack_duration().wrapping_sub(timer) / 8,
            SwordState::ShortSword => self.attack_duration().wrapping_sub(timer) / 8,
        }
    }

    /// Animation frame of an air attack with `timer` frames left.
    pub fn jump_attack_frame(self, timer: u16) -> (r: u16)
        ensures
            r == self.spec_jump_attack_frame(timer as int),
            r <= 8191,
    {
        match self {
            SwordState::LongSword => self.jump_attack_duration().wrapping_sub(timer) / 8,
            SwordState::ShortSword => self.jump_attack_duration().wrapping_sub(timer) / 8,
        }
    }

    /// The frame held while resting after a swing.
    pub fn hold_frame(self) -> (r: u16)
        ensures
            r == self.spec_hold_frame(),
    {
        match self {
            SwordState::LongSword => 7,
            SwordState::ShortSword => 7,
        }
    }

    /// The air attack frame that is shown by its own sprite.
    pub fn jump_attack_hold_frame(self) -> (r: u16)
        ensures
            r == self.spec_jump_attack_hold_frame(),
    {
        match self {
            SwordState::LongSword => 13,
            SwordState::ShortSword => 54,
        }
    }

    /// Length of the rest after a ground attack in frames.
    pub fn cooldown_time(self) -> (r: u16)
        ensures
            r == self.spec_cooldown_time(),
    {
        match self {
            SwordState::LongSword => 20,
            SwordState::ShortSword => 10,
        }
    }

    /// Sprite id of ground attack frame `frame`.
    pub fn to_sprite_id(self, frame: u16) -> (r: u16)
        requires
            self.spec_to_sprite_id(frame as int) <= u16::MAX,
        ensures
            r == self.spec_to_sprite_id(frame as int),
    {
        match self {
            SwordState::LongSword => (16 + frame) * 4,
            SwordState::ShortSword => (57 + frame) * 4,
        }
    }

    /// Sprite id of air attack frame `frame`. The held frame is shown by the
    /// sprite of its own number.
    pub fn to_jump_sprite_id(self, frame: u16) -> (r: u16)
        requires
            self.spec_to_jump_sprite_id(frame as int) <= u16::MAX,
        ensures
            r == self.spec_to_jump_sprite_id(frame as int),
    {
        match self {
            SwordState::LongSword => {
                if frame == self.jump_attack_hold_frame() {
                    frame * 4
                } else {
                    (24 + frame) * 4
                }
            },
            SwordState::ShortSword => {
                if frame == self.jump_attack_hold_frame() {
                    frame * 4
                } else {
                    (65 + frame) * 4
                }
            },
        }
    }

    /// Horizontal visual nudge at ground attack frame `frame`.
    pub fn fudge(self, frame: u16) -> (r: i32)
        ensures
            r == self.spec_fudge(frame as int),
    {
        match self {
            SwordState::LongSword => long_sword_fudge(frame),
            SwordState::ShortSword => short_sword_fudge(frame),
        }
    }

    /// Hurtbox at ground attack frame `frame`, in the actor's own space
    /// before mirroring, with the origin at the sprite's top left corner.
    pub fn ground_attack_hurtbox(self, frame: u16) -> (r: Option<Rect>)
        ensures
            match r {
                Some(rect) => self.spec_ground_attack_hurtbox(frame as int) == Some(rect@),
                None => self.spec_ground_attack_hurtbox(frame as int) is None,
            },
    {
        match self {
            SwordState::LongSword => long_sword_hurtbox(frame),
            SwordState::ShortSword => short_sword_hurtbox(frame),
        }
    }

    /// Hurtbox of an air attack: the whole sprite, at every frame.
    pub fn air_attack_hurtbox(self, frame: u16) -> (r: Option<Rect>)
        ensures
            match r {
                Some(rect) => self.spec_air_attack_hurtbox(frame as int) == Some(rect@),
                None => false,
            },
    {
        Some(Rect::from_ints(0, 0, 16, 16))
    }
}

} // verus!
