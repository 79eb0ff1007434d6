//! What agents of every species share: tags, speed, the arena and its walls,
//! and the test for two boxes that overlap.

use crate::fixed::{abs, div, div_trunc, saturate};
use crate::random::draw_between;
use crate::vector::Vec2;
use rand::rngs::StdRng;
use vstd::prelude::*;

verus! {

/// The number of simulation steps in a second.
pub const STEPS_PER_SECOND: i32 = 60;

/// What an agent that flees sees of an agent that can be fled from.
#[derive(Clone, Copy, Debug, PartialEq, Eq, Structural)]
pub struct Threat {
    pub position: Vec2,
}

/// What a hunter sees of an agent that can be hunted.
#[derive(Clone, Copy, Debug, PartialEq, Eq, Structural)]
pub struct Prey {
    pub position: Vec2,
    pub velocity: Vec2,
}

/// The speed of an agent, in steps per second.
#[derive(Clone, Copy, Debug, PartialEq, Eq, Structural)]
pub struct MovementSpeed {
    pub value: i32,
}

impl MovementSpeed {
    pub fn new(speed: i32) -> (r: Self)
        ensures
            r.value == speed,
    {
        Self { value: speed }
    }

    /// The distance covered in one simulation step at this speed.
    pub open spec fn per_step_spec(self) -> int {
        div_trunc(self.value as int, STEPS_PER_SECOND as int)
    }

    /// The distance covered in one simulation step at this speed.
    pub fn per_step(&self) -> (r: i32)
        ensures
            r == self.per_step_spec(),
    {
        saturate(div(self.value as i128, 60))
    }
}

/// The extent of the arena, which is centred on the origin.
#[derive(Clone, Copy, Debug, PartialEq, Eq, Structural)]
pub struct FieldSize {
    pub width: i32,
    pub height: i32,
}

/// One edge of the arena.
#[derive(Clone, Copy, Debug, PartialEq, Eq, Structural)]
pub struct WallData {
    pub point_a: Vec2,
    pub point_b: Vec2,
}

/// The edges of the arena.
pub struct Walls {
    pub value: Vec<WallData>,
}

impl FieldSize {
    /// Half the width, rounded toward zero.
    pub open spec fn half_width(self) -> int {
        div_trunc(self.width as int, 2)
    }

    /// Half the height, rounded toward zero.
    pub open spec fn half_height(self) -> int {
        div_trunc(self.height as int, 2)
    }

    /// How far from the centre, along the first axis, an agent may be placed that
    /// keeps `margin` away from the walls.
    pub open spec fn span_x(self, margin: int) -> int {
        self.half_width() - margin
    }

    /// How far from the centre, along the second axis, an agent may be placed that
    /// keeps `margin` away from the walls.
    pub open spec fn span_y(self, margin: int) -> int {
        self.half_height() - margin
    }

    /// Whether the arena is larger than a strip of `margin` along each wall.
    pub open spec fn has_room(self, margin: int) -> bool {
        self.span_x(margin) > 0 && self.span_y(margin) > 0
    }

    /// Whether `point` lies in the arena at least `margin` away from the walls.
    pub open spec fn holds(self, margin: int, point: Vec2) -> bool {
        &&& -self.span_x(margin) <= point.x < self.span_x(margin)
        &&& -self.span_y(margin) <= point.y < self.span_y(margin)
    }

    /// Tests whether the arena is larger than a strip of `margin` along each wall.
    pub fn roomy(&self, margin: i32) -> (r: bool)
        ensures
            r == self.has_room(margin as int),
    {
        div(self.width as i128, 2) - margin as i128 > 0 && div(self.height as i128, 2)
            - margin as i128 > 0
    }

    /// Picks a point of the arena at least `margin` away from the walls.
    pub fn random_point(&self, margin: i32, rng: &mut StdRng) -> (point: Vec2)
        requires
            self.has_room(margin as int),
        ensures
            self.holds(margin as int, point),
    {
        let w_span: i64 = (div(self.width as i128, 2) - margin as i128) as i64;
        let h_span: i64 = (div(self.height as i128, 2) - margin as i128) as i64;
        let x: i64 = draw_between(rng, -w_span, w_span);
        let y: i64 = draw_between(rng, -h_span, h_span);
        Vec2 { x: saturate(x as i128), y: saturate(y as i128) }
    }

    /// The four edges of the arena: right, bottom, left, top.
    pub open spec fn walls_spec(self) -> Seq<WallData> {
        let w = self.half_width();
        let h = self.half_height();
        seq![
            WallData { point_a: Vec2::of(w, h), point_b: Vec2::of(w, -h) },
            WallData { point_a: Vec2::of(-w, -h), point_b: Vec2::of(w, -h) },
            WallData { point_a: Vec2::of(-w, h), point_b: Vec2::of(-w, -h) },
            WallData { point_a: Vec2::of(-w, h), point_b: Vec2::of(w, h) },
        ]
    }

    /// Builds the four edges of the arena.
    pub fn walls(&self) -> (r: Walls)
        ensures
            r.value@ == self.walls_spec(),
    {
        let w: i32 = saturate(div(self.width as i128, 2));
        let h: i32 = saturate(div(self.height as i128, 2));
        assert(abs(2) == 2);
        assert(0 <= abs(self.width as int) / 2 <= 0x4000_0000);
        assert(0 <= abs(self.height as int) / 2 <= 0x4000_0000);
        assert(-0x4000_0000 <= w <= 0x4000_0000 && -0x4000_0000 <= h <= 0x4000_0000);
        let mut value: Vec<WallData> = Vec::new();
        value.push(WallData { point_a: Vec2 { x: w, y: h }, point_b: Vec2 { x: w, y: -h } });
        value.push(WallData { point_a: Vec2 { x: -w, y: -h }, point_b: Vec2 { x: w, y: -h } });
        value.push(WallData { point_a: Vec2 { x: -w, y: h }, point_b: Vec2 { x: -w, y: -h } });
        value.push(WallData { point_a: Vec2 { x: -w, y: h }, point_b: Vec2 { x: w, y: h } });
        assert(value@ =~= self.walls_spec());
        Walls { value }
    }
}

/// Whether two boxes, given by centre and size, overlap: on each axis the centres
/// are closer than half the sum of the sizes.
pub open spec fn overlaps(a_pos: Vec2, a_size: Vec2, b_pos: Vec2, b_size: Vec2) -> bool {
    &&& 2 * (a_pos.x - b_pos.x) < a_size.x + b_size.x
    &&& 2 * (b_pos.x - a_pos.x) < a_size.x + b_size.x
    &&& 2 * (a_pos.y - b_pos.y) < a_size.y + b_size.y
    &&& 2 * (b_pos.y - a_pos.y) < a_size.y + b_size.y
}

/// Tests whether two boxes, given by centre and size, overlap. Boxes that only
/// touch do not.
pub fn collide(a_pos: Vec2, a_size: Vec2, b_pos: Vec2, b_size: Vec2) -> (hit: bool)
    ensures
        hit == overlaps(a_pos, a_size, b_pos, b_size),
{
    let dx: i64 = 2 * (a_pos.x as i64 - b_pos.x as i64);
    let dy: i64 = 2 * (a_pos.y as i64 - b_pos.y as i64);
    let sx: i64 = a_size.x as i64 + b_size.x as i64;
    let sy: i64 = a_size.y as i64 + b_size.y as i64;
    dx < sx && -dx < sx && dy < sy && -dy < sy
}

} // verus!
