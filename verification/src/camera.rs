//! The camera: the part of the map that the window shows.
//!
//! It keeps its place on the map, its size, and the borders that follow from the two. The
//! borders are worked out when the camera is made and when it is resized, or on demand;
//! a change of the place or of the size alone leaves them as they were.

use vstd::prelude::*;

verus! {

/// The side of a tile, in points.
pub const TILE_SIDE: i32 = 16;

/// The camera.
#[derive(Debug)]
pub struct Camera {
    pos_x: i32,
    pos_y: i32,
    width: i32,
    height: i32,
    x_max: i32,
    y_max: i32,
}

/// The mathematical value of a [`Camera`].
pub ghost struct CameraView {
    pub pos_x: int,
    pub pos_y: int,
    pub width: int,
    pub height: int,
    pub x_max: int,
    pub y_max: int,
}

/// A way to scroll.
#[derive(Debug, Clone, Copy, PartialEq, Eq, Structural)]
pub enum Direction {
    Left,
    Right,
    Up,
    Down,
}

/// An integer that an `i32` holds.
pub open spec fn fits(n: int) -> bool {
    i32::MIN <= n <= i32::MAX
}

/// The quotient of `n` by the side of a tile, rounded towards zero.
pub open spec fn tiles_in(n: int) -> int {
    if n >= 0 {
        n / (TILE_SIDE as int)
    } else {
        -((-n) / (TILE_SIDE as int))
    }
}

impl CameraView {
    /// The camera that was scrolled one tile. To the left and upwards it stops at the
    /// origin of the map, to the right and downwards at its border.
    pub open spec fn scroll(self, direction: Direction) -> CameraView {
        match direction {
            Direction::Left => CameraView {
                pos_x: if self.pos_x - TILE_SIDE > 0 {
                    self.pos_x - TILE_SIDE
                } else {
                    0
                },
                ..self
            },
            Direction::Right => CameraView {
                pos_x: if self.pos_x + TILE_SIDE < self.x_max {
                    self.pos_x + TILE_SIDE
                } else {
                    self.x_max
                },
                ..self
            },
            Direction::Up => CameraView {
                pos_y: if self.pos_y - TILE_SIDE > 0 {
                    self.pos_y - TILE_SIDE
                } else {
                    0
                },
                ..self
            },
            Direction::Down => CameraView {
                pos_y: if self.pos_y + TILE_SIDE <= self.y_max {
                    self.pos_y + TILE_SIDE
                } else {
                    self.y_max
                },
                ..self
            },
        }
    }

    /// Whether scrolling stays within the integers that the camera holds.
    pub open spec fn can_scroll(self, direction: Direction) -> bool {
        match direction {
            Direction::Left => fits(self.pos_x - TILE_SIDE),
            Direction::Right => fits(self.pos_x + TILE_SIDE),
            Direction::Up => fits(self.pos_y - TILE_SIDE),
            Direction::Down => fits(self.pos_y + TILE_SIDE),
        }
    }
}

impl View for Camera {
    type V = CameraView;

    closed spec fn view(&self) -> CameraView {
        CameraView {
            pos_x: self.pos_x as int,
            pos_y: self.pos_y as int,
            width: self.width as int,
            height: self.height as int,
            x_max: self.x_max as int,
            y_max: self.y_max as int,
        }
    }
}

impl Camera {
    /// The place on the map, across.
    pub fn get_x(&self) -> (x: i32)
        ensures
            x == self@.pos_x,
    {
        self.pos_x
    }

    /// The place on the map, down.
    pub fn get_y(&self) -> (y: i32)
        ensures
            y == self@.pos_y,
    {
        self.pos_y
    }

    /// The width.
    pub fn get_width(&self) -> (width: i32)
        ensures
            width == self@.width,
    {
        self.width
    }

    /// The height.
    pub fn get_height(&self) -> (height: i32)
        ensures
            height == self@.height,
    {
        self.height
    }

    /// The border across, as it was last worked out.
    pub fn get_x_max(&self) -> (x_max: i32)
        ensures
            x_max == self@.x_max,
    {
        self.x_max
    }

    /// The border down, as it was last worked out.
    pub fn get_y_max(&self) -> (y_max: i32)
        ensures
            y_max == self@.y_max,
    {
        self.y_max
    }

    /// The place and the size: across, down, width, height.
    pub fn get_rect(&self) -> (rect: (i32, i32, i32, i32))
        ensures
            rect.0 == self@.pos_x,
            rect.1 == self@.pos_y,
            rect.2 == self@.width,
            rect.3 == self@.height,
    {
        (self.pos_x, self.pos_y, self.width, self.height)
    }

    /// A camera of no size at the origin.
    pub fn new() -> (camera: Camera)
        ensures
            camera@ == (CameraView { pos_x: 0, pos_y: 0, width: 0, height: 0, x_max: 0, y_max: 0 }),
    {
        Camera { pos_x: 0, pos_y: 0, width: 0, height: 0, x_max: 0, y_max: 0 }
    }

    /// A camera of the given place and size, with the borders that follow from them.
    pub fn load(pos_x: i32, pos_y: i32, width: i32, height: i32) -> (camera: Camera)
        requires
            fits(pos_x + width),
            fits(pos_y + height),
        ensures
            camera@ == (CameraView {
                pos_x: pos_x as int,
                pos_y: pos_y as int,
                width: width as int,
                height: height as int,
                x_max: pos_x + width,
                y_max: pos_y + height,
            }),
    {
        let x_max = pos_x + width;
        let y_max = pos_y + height;

        Camera { pos_x, pos_y, width, height, x_max, y_max }
    }

    /// Sets the place across.
    pub fn pos_x(&mut self, x: i32)
        ensures
            final(self)@ == (CameraView { pos_x: x as int, ..old(self)@ }),
    {
        self.pos_x = x;
    }

    /// Sets the place down.
    pub fn pos_y(&mut self, y: i32)
        ensures
            final(self)@ == (CameraView { pos_y: y as int, ..old(self)@ }),
    {
        self.pos_y = y;
    }

    /// Sets the width.
    pub fn width(&mut self, w: i32)
        ensures
            final(self)@ == (CameraView { width: w as int, ..old(self)@ }),
    {
        self.width = w;
    }

    /// Sets the height.
    pub fn height(&mut self, h: i32)
        ensures
            final(self)@ == (CameraView { height: h as int, ..old(self)@ }),
    {
        self.height = h;
    }

    /// Works out the border across: the place and the width together.
    pub fn x_max(&mut self)
        requires
            fits(old(self)@.pos_x + old(self)@.width),
        ensures
            final(self)@ == (CameraView { x_max: old(self)@.pos_x + old(self)@.width, ..old(self)@ }),
    {
        self.x_max = self.pos_x + self.width;
    }

    /// Works out the border down: the place and the height together.
    pub fn y_max(&mut self)
        requires
            fits(old(self)@.pos_y + old(self)@.height),
        ensures
            final(self)@ == (CameraView { y_max: old(self)@.pos_y + old(self)@.height, ..old(self)@ }),
    {
        self.y_max = self.pos_y + self.height;
    }

    /// Moves the camera down to the border.
    pub fn y_to_max(&mut self)
        ensures
            final(self)@ == (CameraView { pos_y: old(self)@.y_max, ..old(self)@ }),
    {
        self.pos_y = self.y_max;
    }

    /// Moves the camera across to the border.
    pub fn x_to_max(&mut self)
        ensures
            final(self)@ == (CameraView { pos_x: old(self)@.x_max, ..old(self)@ }),
    {
        self.pos_x = self.x_max;
    }

    /// Gives the camera another size, and works out the borders.
    pub fn resize(&mut self, w: i32, h: i32)
        requires
            fits(old(self)@.pos_x + w),
            fits(old(self)@.pos_y + h),
        ensures
            final(self)@ == (CameraView {
                width: w as int,
                height: h as int,
                x_max: old(self)@.pos_x + w,
                y_max: old(self)@.pos_y + h,
                ..old(self)@
            }),
    {
        self.width(w);
        self.height(h);
        self.x_max();
        self.y_max();
    }

    /// How many tiles to make room for: the tiles that the width takes by the tiles that
    /// the height takes.
    pub fn tile_buffer_auto_size(&self) -> (size: usize)
        requires
            0 <= tiles_in(self@.width) * tiles_in(self@.height) <= i32::MAX,
        ensures
            size == tiles_in(self@.width) * tiles_in(self@.height),
    {
        ((self.width / TILE_SIDE) * (self.height / TILE_SIDE)) as usize
    }

    /// Scrolls one tile: see [`CameraView::scroll`].
    pub fn scroll(&mut self, direction: Direction)
        requires
            old(self)@.can_scroll(direction),
        ensures
            final(self)@ == old(self)@.scroll(direction),
    {
        match direction {
            Direction::Left => {
                let temp_pos = self.get_x() - TILE_SIDE;
                if temp_pos > 0 {
                    self.pos_x(temp_pos);
                } else {
                    self.pos_x(0);
                }
            },
            Direction::Right => {
                let temp_pos = self.get_x() + TILE_SIDE;
                if temp_pos < self.get_x_max() {
                    self.pos_x(temp_pos);
                } else {
                    self.x_to_max()
                }
            },
            Direction::Up => {
                let temp_pos = self.get_y() - TILE_SIDE;
                if temp_pos > 0 {
                    self.pos_y(temp_pos);
                } else {
                    self.pos_y(0);
                }
            },
            Direction::Down => {
                let temp_pos = self.get_y() + TILE_SIDE;
                if temp_pos <= self.get_y_max() {
                    self.pos_y(temp_pos);
                } else {
                    self.y_to_max();
                }
            },
        }
    }

    /// Whether the column `x` of the map is drawn: its left edge lies between the camera's
    /// place across and the camera's width.
    pub fn shows_column(&self, x: i32) -> (shown: bool)
        requires
            fits(x * TILE_SIDE),
        ensures
            shown == (self@.pos_x <= x * TILE_SIDE <= self@.width),
    {
        self.pos_x <= x * TILE_SIDE && x * TILE_SIDE <= self.width
    }

    /// Whether the row `y` of the map is drawn: its upper edge lies between the camera's
    /// place down and the camera's height.
    pub fn shows_row(&self, y: i32) -> (shown: bool)
        requires
            fits(y * TILE_SIDE),
        ensures
            shown == (self@.pos_y <= y * TILE_SIDE <= self@.height),
    {
        self.pos_y <= y * TILE_SIDE && y * TILE_SIDE <= self.height
    }
}

} // verus!
