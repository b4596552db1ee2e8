use vstd::prelude::*;

use crate::geometry::{point_within, Point};

verus! {

/// The kind of a path command.
#[derive(Clone, Copy, Debug, PartialEq, Eq, Structural)]
pub enum DrawInstructionTag {
    MoveTo,
    LineTo,
    QuadTo,
    CurveTo,
    Close,
}

/// One path command, carrying exactly the points its kind needs.
#[derive(Clone, Copy, Debug, PartialEq, Eq, Structural)]
pub enum DrawInstruction {
    MoveTo(Point),
    LineTo(Point),
    /// Control point, end point.
    QuadTo(Point, Point),
    /// First control point, second control point, end point.
    CurveTo(Point, Point, Point),
    Close,
}

pub open spec fn translated_point(p: Point, d: Point) -> Point {
    Point { x: (p.x + d.x) as i64, y: (p.y + d.y) as i64 }
}

pub open spec fn inverted_point(p: Point, top_y: i64) -> Point {
    Point { x: p.x, y: (top_y - p.y) as i64 }
}

pub open spec fn scaled_y_point(p: Point, k: i64) -> Point {
    Point { x: p.x, y: (p.y * k) as i64 }
}

pub open spec fn scaled_point(p: Point, k: i64) -> Point {
    Point { x: (p.x * k) as i64, y: (p.y * k) as i64 }
}

impl DrawInstruction {
    pub open spec fn tag_of(self) -> DrawInstructionTag {
        match self {
            DrawInstruction::MoveTo(_) => DrawInstructionTag::MoveTo,
            DrawInstruction::LineTo(_) => DrawInstructionTag::LineTo,
            DrawInstruction::QuadTo(_, _) => DrawInstructionTag::QuadTo,
            DrawInstruction::CurveTo(_, _, _) => DrawInstructionTag::CurveTo,
            DrawInstruction::Close => DrawInstructionTag::Close,
        }
    }

    /// The points of the command, in the order they are stored.
    pub open spec fn points(self) -> Seq<Point> {
        match self {
            DrawInstruction::MoveTo(p) => seq![p],
            DrawInstruction::LineTo(p) => seq![p],
            DrawInstruction::QuadTo(c, p) => seq![c, p],
            DrawInstruction::CurveTo(c1, c2, p) => seq![c1, c2, p],
            DrawInstruction::Close => seq![],
        }
    }

    /// The same command with `f` applied to each of its points.
    pub open spec fn map_points(self, f: spec_fn(Point) -> Point) -> DrawInstruction {
        match self {
            DrawInstruction::MoveTo(p) => DrawInstruction::MoveTo(f(p)),
            DrawInstruction::LineTo(p) => DrawInstruction::LineTo(f(p)),
            DrawInstruction::QuadTo(c, p) => DrawInstruction::QuadTo(f(c), f(p)),
            DrawInstruction::CurveTo(c1, c2, p) => DrawInstruction::CurveTo(f(c1), f(c2), f(p)),
            DrawInstruction::Close => DrawInstruction::Close,
        }
    }

    /// Every point of the command satisfies `pred`.
    pub open spec fn all_points(self, pred: spec_fn(Point) -> bool) -> bool {
        forall|i: int| 0 <= i < self.points().len() ==> pred(#[trigger] self.points()[i])
    }

    pub fn tag(&self) -> (r: DrawInstructionTag)
        ensures
            r == self.tag_of(),
    {
        match self {
            DrawInstruction::MoveTo(_) => DrawInstructionTag::MoveTo,
            DrawInstruction::LineTo(_) => DrawInstructionTag::LineTo,
            DrawInstruction::QuadTo(_, _) => DrawInstructionTag::QuadTo,
            DrawInstruction::CurveTo(_, _, _) => DrawInstructionTag::CurveTo,
            DrawInstruction::Close => DrawInstructionTag::Close,
        }
    }

    /// Moves every point by `delta`.
    pub fn translate(&mut self, delta: &Point)
        requires
            old(self).all_points(
                |p: Point|
                    i64::MIN <= p.x + delta.x <= i64::MAX && i64::MIN <= p.y + delta.y <= i64::MAX,
            ),
        ensures
            *final(self) == old(self).map_points(|p: Point| translated_point(p, *delta)),
    {
        let d = *delta;
        *self = match *self {
            DrawInstruction::MoveTo(p) => {
                assert(self.points()[0] == p);
                DrawInstruction::MoveTo(p.add(d))
            },
            DrawInstruction::LineTo(p) => {
                assert(self.points()[0] == p);
                DrawInstruction::LineTo(p.add(d))
            },
            DrawInstruction::QuadTo(c, p) => {
                assert(self.points()[0] == c);
                assert(self.points()[1] == p);
                DrawInstruction::QuadTo(c.add(d), p.add(d))
            },
            DrawInstruction::CurveTo(c1, c2, p) => {
                assert(self.points()[0] == c1);
                assert(self.points()[1] == c2);
                assert(self.points()[2] == p);
                DrawInstruction::CurveTo(c1.add(d), c2.add(d), p.add(d))
            },
            DrawInstruction::Close => DrawInstruction::Close,
        };
    }

    /// Mirrors every point vertically: `y` becomes `top_y - y`.
    pub fn invert_y(&mut self, top_y: i64)
        requires
            old(self).all_points(|p: Point| i64::MIN <= top_y - p.y <= i64::MAX),
        ensures
            *final(self) == old(self).map_points(|p: Point| inverted_point(p, top_y)),
    {
        *self = match *self {
            DrawInstruction::MoveTo(p) => {
                assert(self.points()[0] == p);
                DrawInstruction::MoveTo(Point::new(p.x, top_y - p.y))
            },
            DrawInstruction::LineTo(p) => {
                assert(self.points()[0] == p);
                DrawInstruction::LineTo(Point::new(p.x, top_y - p.y))
            },
            DrawInstruction::QuadTo(c, p) => {
                assert(self.points()[0] == c);
                assert(self.points()[1] == p);
                DrawInstruction::QuadTo(Point::new(c.x, top_y - c.y), Point::new(p.x, top_y - p.y))
            },
            DrawInstruction::CurveTo(c1, c2, p) => {
                assert(self.points()[0] == c1);
                assert(self.points()[1] == c2);
                assert(self.points()[2] == p);
                DrawInstruction::CurveTo(
                    Point::new(c1.x, top_y - c1.y),
                    Point::new(c2.x, top_y - c2.y),
                    Point::new(p.x, top_y - p.y),
                )
            },
            DrawInstruction::Close => DrawInstruction::Close,
        };
    }

    /// Multiplies the `y` coordinate of every point by `k`.
    pub fn scale_y(&mut self, k: i64)
        requires
            old(self).all_points(|p: Point| i64::MIN <= p.y * k <= i64::MAX),
        ensures
            *final(self) == old(self).map_points(|p: Point| scaled_y_point(p, k)),
    {
        *self = match *self {
            DrawInstruction::MoveTo(p) => {
                assert(self.points()[0] == p);
                DrawInstruction::MoveTo(Point::new(p.x, p.y * k))
            },
            DrawInstruction::LineTo(p) => {
                assert(self.points()[0] == p);
                DrawInstruction::LineTo(Point::new(p.x, p.y * k))
            },
            DrawInstruction::QuadTo(c, p) => {
                assert(self.points()[0] == c);
                assert(self.points()[1] == p);
                DrawInstruction::QuadTo(Point::new(c.x, c.y * k), Point::new(p.x, p.y * k))
            },
            DrawInstruction::CurveTo(c1, c2, p) => {
                assert(self.points()[0] == c1);
                assert(self.points()[1] == c2);
                assert(self.points()[2] == p);
                DrawInstruction::CurveTo(
                    Point::new(c1.x, c1.y * k),
                    Point::new(c2.x, c2.y * k),
                    Point::new(p.x, p.y * k),
                )
            },
            DrawInstruction::Close => DrawInstruction::Close,
        };
    }

    /// Multiplies both coordinates of every point by `k`.
    pub fn scale(&mut self, k: i64)
        requires
            old(self).all_points(
                |p: Point| i64::MIN <= p.x * k <= i64::MAX && i64::MIN <= p.y * k <= i64::MAX,
            ),
        ensures
            *final(self) == old(self).map_points(|p: Point| scaled_point(p, k)),
    {
        *self = match *self {
            DrawInstruction::MoveTo(p) => {
                assert(self.points()[0] == p);
                DrawInstruction::MoveTo(p.mul(k))
            },
            DrawInstruction::LineTo(p) => {
                assert(self.points()[0] == p);
                DrawInstruction::LineTo(p.mul(k))
            },
            DrawInstruction::QuadTo(c, p) => {
                assert(self.points()[0] == c);
                assert(self.points()[1] == p);
                DrawInstruction::QuadTo(c.mul(k), p.mul(k))
            },
            DrawInstruction::CurveTo(c1, c2, p) => {
                assert(self.points()[0] == c1);
                assert(self.points()[1] == c2);
                assert(self.points()[2] == p);
                DrawInstruction::CurveTo(c1.mul(k), c2.mul(k), p.mul(k))
            },
            DrawInstruction::Close => DrawInstruction::Close,
        };
    }
}

/// Largest magnitude of a raw outline coordinate: the builder takes `i32` values.
pub open spec fn raw_bound() -> int {
    0x8000_0000
}

/// Every point of every command is a raw coordinate pair.
pub open spec fn raw_commands(s: Seq<DrawInstruction>) -> bool {
    forall|i: int|
        0 <= i < s.len() ==> (#[trigger] s[i]).all_points(|p: Point| point_within(p, raw_bound()))
}

/// Records the path events of one glyph outline, in the order they arrive.
/// Coordinates are raw font units.
pub struct InstructionOutlineBuilder {
    instructions: Vec<DrawInstruction>,
}

impl View for InstructionOutlineBuilder {
    type V = Seq<DrawInstruction>;

    closed spec fn view(&self) -> Seq<DrawInstruction> {
        self.instructions@
    }
}

pub open spec fn raw_point(x: i32, y: i32) -> Point {
    Point { x: x as i64, y: y as i64 }
}

impl InstructionOutlineBuilder {
    pub open spec fn wf(&self) -> bool {
        raw_commands(self@)
    }

    pub fn new() -> (r: InstructionOutlineBuilder)
        ensures
            r@ == Seq::<DrawInstruction>::empty(),
            r.wf(),
    {
        InstructionOutlineBuilder { instructions: Vec::new() }
    }

    fn record(&mut self, d: DrawInstruction)
        requires
            old(self).wf(),
            d.all_points(|p: Point| point_within(p, raw_bound())),
        ensures
            final(self)@ == old(self)@.push(d),
            final(self).wf(),
    {
        self.instructions.push(d);
        proof {
            assert forall|i: int| 0 <= i < self@.len() implies (#[trigger] self@[i]).all_points(
                |p: Point| point_within(p, raw_bound()),
            ) by {
                if i < old(self)@.len() {
                    assert(self@[i] == old(self)@[i]);
                }
            }
        }
    }

    pub fn move_to(&mut self, x: i32, y: i32)
        requires
            old(self).wf(),
        ensures
            final(self)@ == old(self)@.push(DrawInstruction::MoveTo(raw_point(x, y))),
            final(self).wf(),
    {
        let d = DrawInstruction::MoveTo(Point::new(x as i64, y as i64));
        assert(d.points()[0] == raw_point(x, y));
        self.record(d);
    }

    pub fn line_to(&mut self, x: i32, y: i32)
        requires
            old(self).wf(),
        ensures
            final(self)@ == old(self)@.push(DrawInstruction::LineTo(raw_point(x, y))),
            final(self).wf(),
    {
        let d = DrawInstruction::LineTo(Point::new(x as i64, y as i64));
        assert(d.points()[0] == raw_point(x, y));
        self.record(d);
    }

    /// A quadratic curve through control point `(x1, y1)` to `(x, y)`.
    pub fn quad_to(&mut self, x1: i32, y1: i32, x: i32, y: i32)
        requires
            old(self).wf(),
        ensures
            final(self)@ == old(self)@.push(
                DrawInstruction::QuadTo(raw_point(x1, y1), raw_point(x, y)),
            ),
            final(self).wf(),
    {
        let d = DrawInstruction::QuadTo(
            Point::new(x1 as i64, y1 as i64),
            Point::new(x as i64, y as i64),
        );
        assert(d.points()[0] == raw_point(x1, y1));
        assert(d.points()[1] == raw_point(x, y));
        self.record(d);
    }

    /// A cubic curve through control points `(x1, y1)` and `(x2, y2)` to `(x, y)`.
    pub fn curve_to(&mut self, x1: i32, y1: i32, x2: i32, y2: i32, x: i32, y: i32)
        requires
            old(self).wf(),
        ensures
            final(self)@ == old(self)@.push(
                DrawInstruction::CurveTo(raw_point(x1, y1), raw_point(x2, y2), raw_point(x, y)),
            ),
            final(self).wf(),
    {
        let d = DrawInstruction::CurveTo(
            Point::new(x1 as i64, y1 as i64),
            Point::new(x2 as i64, y2 as i64),
            Point::new(x as i64, y as i64),
        );
        assert(d.points()[0] == raw_point(x1, y1));
        assert(d.points()[1] == raw_point(x2, y2));
        assert(d.points()[2] == raw_point(x, y));
        self.record(d);
    }

    pub fn close(&mut self)
        requires
            old(self).wf(),
        ensures
            final(self)@ == old(self)@.push(DrawInstruction::Close),
            final(self).wf(),
    {
        self.record(DrawInstruction::Close);
    }

    /// The recorded commands, in recording order.
    pub fn instructions(&self) -> (r: &Vec<DrawInstruction>)
        ensures
            r@ == self@,
    {
        &self.instructions
    }
}

} // verus!
