//! A frame buffer of packed pixels with a guarded per-pixel write, a full
//! clear, and drawable shapes.

use vstd::prelude::*;

verus! {

/// Width of the drawing surface in pixels.
pub const WIDTH: usize = 1200;

/// Height of the drawing surface in pixels.
pub const HEIGHT: usize = 600;

/// A colour given as an `rgb` hex string, for hosts that parse colours.
#[allow(non_camel_case_types)]
#[derive(Debug, Clone)]
pub enum Color {
    rgb(String),
}

/// The palette the renderer draws with.
#[allow(non_camel_case_types)]
#[derive(Clone, Copy, Debug, PartialEq, Eq, Structural)]
pub enum SimpleColor {
    WHITE,
    BLACK,
    RED,
    GREEN,
    BLUE,
}

impl SimpleColor {
    /// The packed `0x00rrggbb` value a pixel of this colour holds.
    pub open spec fn spec_value(self) -> u32 {
        match self {
            SimpleColor::WHITE => 0xffffff,
            SimpleColor::BLACK => 0x000000,
            SimpleColor::RED => 0xff0000,
            SimpleColor::GREEN => 0x00ff00,
            SimpleColor::BLUE => 0x0000ff,
        }
    }

    #[verifier::when_used_as_spec(spec_value)]
    pub fn value(self) -> (v: u32)
        ensures
            v == self.spec_value(),
    {
        match self {
            SimpleColor::WHITE => 0xffffff,
            SimpleColor::BLACK => 0x000000,
            SimpleColor::RED => 0xff0000,
            SimpleColor::GREEN => 0x00ff00,
            SimpleColor::BLUE => 0x0000ff,
        }
    }
}

/// A canvas of `WIDTH * HEIGHT` packed pixels, stored row by row.
pub struct Renderer {
    pub buffer: Vec<u32>,
}

impl Renderer {
    /// The buffer holds exactly one pixel per canvas position.
    pub open spec fn well_formed(self) -> bool {
        self.buffer@.len() == WIDTH * HEIGHT
    }

    /// Positions the renderer paints: strictly inside the right and bottom
    /// edges, and strictly off the left and top ones.
    pub open spec fn in_canvas(position: (u32, u32)) -> bool {
        0 < position.0 < WIDTH && 0 < position.1 < HEIGHT
    }

    /// Index of a canvas position in the row-major buffer.
    pub open spec fn pixel_index(position: (u32, u32)) -> int {
        position.1 * WIDTH + position.0
    }

    /// Paints one pixel, leaving positions off the canvas alone.
    pub fn draw_pixel(&mut self, position: (u32, u32), color: SimpleColor)
        requires
            old(self).well_formed(),
        ensures
            final(self).well_formed(),
            Self::in_canvas(position) ==> final(self).buffer@ == old(self).buffer@.update(
                Self::pixel_index(position),
                color.spec_value(),
            ),
            !Self::in_canvas(position) ==> final(self).buffer@ == old(self).buffer@,
    {
        if position.0 < WIDTH as u32 && position.0 > 0 && position.1 < HEIGHT as u32
            && position.1 > 0 {
            let idx: usize = (position.0 + position.1 * WIDTH as u32) as usize;
            self.buffer[idx] = color.value();
        }
    }

    /// Fills every pixel with one colour.
    pub fn clear(&mut self, color: SimpleColor)
        requires
            old(self).well_formed(),
        ensures
            final(self).well_formed(),
            forall|i: int|
                0 <= i < WIDTH * HEIGHT ==> final(self).buffer@[i] == color.spec_value(),
    {
        for iter in 0..HEIGHT * WIDTH
            invariant
                self.buffer@.len() == WIDTH * HEIGHT,
                forall|i: int| 0 <= i < iter ==> self.buffer@[i] == color.spec_value(),
        {
            self.buffer[iter] = color.value();
        }
    }
}

/// Something the renderer can paint onto the canvas.
pub trait Draw {
    /// The shape lies where its `draw` stays on the canvas.
    spec fn fits(&self) -> bool;

    /// Whether the shape paints the buffer position `i`.
    spec fn covers(&self, i: int) -> bool;

    /// Paints the shape: every position it covers takes `color`, every other
    /// pixel keeps its value.
    fn draw(&self, renderer: &mut Renderer, color: SimpleColor)
        requires
            old(renderer).well_formed(),
            self.fits(),
        ensures
            final(renderer).well_formed(),
            forall|i: int|
                0 <= i < final(renderer).buffer@.len() ==> final(renderer).buffer@[i] == (
                if self.covers(i) {
                    color.spec_value()
                } else {
                    old(renderer).buffer@[i]
                }),
    ;
}

/// An axis-aligned filled rectangle, anchored at its top-left corner.
pub struct Rectangle {
    pub length: u32,
    pub height: u32,
    pub position: (u32, u32),
}

impl Rectangle {
    pub fn new(length: u32, height: u32, position: (u32, u32)) -> (r: Rectangle)
        ensures
            r.length == length,
            r.height == height,
            r.position == position,
    {
        Rectangle { length, height, position }
    }
}

impl Draw for Rectangle {
    open spec fn fits(&self) -> bool {
        self.position.0 + self.length <= WIDTH && self.position.1 + self.height <= HEIGHT
    }

    open spec fn covers(&self, i: int) -> bool {
        &&& 0 <= i < WIDTH * HEIGHT
        &&& self.position.0 <= i % (WIDTH as int) < self.position.0 + self.length
        &&& self.position.1 <= i / (WIDTH as int) < self.position.1 + self.height
    }

    fn draw(&self, renderer: &mut Renderer, color: SimpleColor) {
        let pos_x: u32 = self.position.0;
        let pos_y: u32 = self.position.1;
        let x_end: u32 = pos_x + self.length;
        let y_end: u32 = pos_y + self.height;
        let mut y: u32 = pos_y;
        while y < y_end
            invariant
                renderer.well_formed(),
                pos_x == self.position.0,
                pos_y == self.position.1,
                x_end == pos_x + self.length,
                y_end == pos_y + self.height,
                x_end <= WIDTH,
                y_end <= HEIGHT,
                pos_y <= y <= y_end,
                forall|i: int|
                    0 <= i < WIDTH * HEIGHT ==> #[trigger] renderer.buffer@[i] == (if self.covers(i) && i / (
                    WIDTH as int) < y {
                        color.spec_value()
                    } else {
                        old(renderer).buffer@[i]
                    }),
            decreases y_end - y,
        {
            let mut x: u32 = pos_x;
            while x < x_end
                invariant
                    renderer.well_formed(),
                    pos_x == self.position.0,
                    pos_y == self.position.1,
                    x_end == pos_x + self.length,
                    y_end == pos_y + self.height,
                    x_end <= WIDTH,
                    y_end <= HEIGHT,
                    pos_y <= y < y_end,
                    pos_x <= x <= x_end,
                    forall|i: int|
                        0 <= i < WIDTH * HEIGHT ==> #[trigger] renderer.buffer@[i] == (if (self.covers(i)
                            && i / (WIDTH as int) < y) || (i / (WIDTH as int) == y && pos_x <= i % (
                        WIDTH as int) < x) {
                            color.spec_value()
                        } else {
                            old(renderer).buffer@[i]
                        }),
                decreases x_end - x,
            {
                proof {
                    assert(y * WIDTH < HEIGHT * WIDTH) by (nonlinear_arith)
                        requires
                            0 <= y < HEIGHT,
                    ;
                }
                let idx: usize = (y * WIDTH as u32 + x) as usize;
                renderer.buffer[idx] = color.value();
                proof {
                    vstd::arithmetic::div_mod::lemma_fundamental_div_mod_converse(
                        idx as int,
                        WIDTH as int,
                        y as int,
                        x as int,
                    );
                    assert forall|i: int|
                        0 <= i < WIDTH * HEIGHT implies #[trigger] renderer.buffer@[i] == (if (
                    self.covers(i) && i / (WIDTH as int) < y) || (i / (WIDTH as int) == y && pos_x
                        <= i % (WIDTH as int) < x + 1) {
                        color.spec_value()
                    } else {
                        old(renderer).buffer@[i]
                    }) by {
                        vstd::arithmetic::div_mod::lemma_fundamental_div_mod(i, WIDTH as int);
                    }
                }
                x += 1;
            }
            proof {
                assert forall|i: int|
                    0 <= i < WIDTH * HEIGHT implies #[trigger] renderer.buffer@[i] == (if self.covers(
                    i) && i / (WIDTH as int) < y + 1 {
                    color.spec_value()
                } else {
                    old(renderer).buffer@[i]
                }) by {}
            }
            y += 1;
        }
    }
}

/// Greatest coordinate a line endpoint may hold: it keeps every difference
/// and error term of the segment walker within `i32`.
pub const MAX_LINE_COORD: u32 = 0x1000_0000;

/// The points of the segment from `(x0, y0)` to `(x1, y1)`, in the order
/// they are walked.
pub uninterp spec fn bresenham_of(x0: int, y0: int, x1: int, y1: int) -> Seq<(i32, i32)>;

/// Relies on line_drawing's `Bresenham` walker: the points of a segment are
/// a function of its two endpoints alone. The bound on the endpoints keeps
/// the walker's internal differences and error terms within `i32`.
#[verifier::external_body]
fn bresenham_points(start: (i32, i32), end: (i32, i32)) -> (r: Vec<(i32, i32)>)
    requires
        -0x1000_0000 <= start.0 <= 0x1000_0000,
        -0x1000_0000 <= start.1 <= 0x1000_0000,
        -0x1000_0000 <= end.0 <= 0x1000_0000,
        -0x1000_0000 <= end.1 <= 0x1000_0000,
    ensures
        r@ == bresenham_of(start.0 as int, start.1 as int, end.0 as int, end.1 as int),
{
    line_drawing::Bresenham::new(start, end).collect()
}

/// Whether painting the segment point `p` writes the buffer position `i`:
/// the point is cast to canvas coordinates exactly as `draw` casts it.
pub open spec fn point_paints(p: (i32, i32), i: int) -> bool {
    &&& Renderer::in_canvas(((p.0 as u32), (p.1 as u32)))
    &&& i == Renderer::pixel_index(((p.0 as u32), (p.1 as u32)))
}

/// A straight segment between two canvas positions.
pub struct Line {
    pub pos_1: (u32, u32),
    pub pos_2: (u32, u32),
}

impl Line {
    pub fn new(pos_1: (u32, u32), pos_2: (u32, u32)) -> (r: Line)
        ensures
            r.pos_1 == pos_1,
            r.pos_2 == pos_2,
    {
        Line { pos_1, pos_2 }
    }

    /// The points of this segment, endpoint to endpoint.
    pub open spec fn points(self) -> Seq<(i32, i32)> {
        bresenham_of(
            self.pos_1.0 as int,
            self.pos_1.1 as int,
            self.pos_2.0 as int,
            self.pos_2.1 as int,
        )
    }
}

impl Draw for Line {
    open spec fn fits(&self) -> bool {
        &&& self.pos_1.0 <= MAX_LINE_COORD
        &&& self.pos_1.1 <= MAX_LINE_COORD
        &&& self.pos_2.0 <= MAX_LINE_COORD
        &&& self.pos_2.1 <= MAX_LINE_COORD
    }

    open spec fn covers(&self, i: int) -> bool {
        exists|k: int| 0 <= k < self.points().len() && point_paints(self.points()[k], i)
    }

    fn draw(&self, renderer: &mut Renderer, color: SimpleColor) {
        let points = bresenham_points(
            (self.pos_1.0 as i32, self.pos_1.1 as i32),
            (self.pos_2.0 as i32, self.pos_2.1 as i32),
        );
        let mut j: usize = 0;
        while j < points.len()
            invariant
                renderer.well_formed(),
                points@ == self.points(),
                j <= points@.len(),
                forall|i: int|
                    0 <= i < WIDTH * HEIGHT ==> renderer.buffer@[i] == (if (exists|k: int|
                        0 <= k < j && point_paints(points@[k], i)) {
                        color.spec_value()
                    } else {
                        old(renderer).buffer@[i]
                    }),
            decreases points@.len() - j,
        {
            let p = points[j];
            let px: u32 = #[verifier::truncate] (p.0 as u32);
            let py: u32 = #[verifier::truncate] (p.1 as u32);
            renderer.draw_pixel((px, py), color);
            proof {
                if Renderer::in_canvas((px, py)) {
                    assert(point_paints(points@[j as int], Renderer::pixel_index((px, py))));
                }
            }
            j += 1;
        }
    }
}

} // verus!
