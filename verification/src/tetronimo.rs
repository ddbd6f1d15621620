//! The tetromino piece model: seven canonical shapes, four orientations,
//! and the derived bounding size and display color of each shape.

use vstd::prelude::*;
use crate::BLOCK_WIDTH;
use crate::config::Rgb;

verus! {

/// One of the seven canonical tetromino shapes.
#[derive(Copy, Clone, Debug, PartialEq, Eq, Structural)]
pub enum Shape {
    I,
    O,
    T,
    J,
    L,
    S,
    Z,
}

/// One of the four rotational states a piece may occupy.
#[derive(Copy, Clone, Debug, PartialEq, Eq, Structural)]
pub enum Orient {
    North,
    East,
    South,
    West,
}

/// A falling piece: its shape and its current orientation.
#[derive(Copy, Clone, Debug, PartialEq, Eq, Structural)]
pub struct Tetronimo {
    pub shape: Shape,
    pub orient: Orient,
}

/// The shape spawned for each index of the catalog, in catalog order.
pub open spec fn shape_of_index(i: int) -> Shape {
    if i == 0 {
        Shape::I
    } else if i == 1 {
        Shape::O
    } else if i == 2 {
        Shape::T
    } else if i == 3 {
        Shape::J
    } else if i == 4 {
        Shape::L
    } else if i == 5 {
        Shape::S
    } else {
        Shape::Z
    }
}

impl Tetronimo {
    /// The piece spawned from the given catalog index: that shape, facing north.
    pub fn from_index(i: u32) -> (t: Tetronimo)
        requires
            i < 7,
        ensures
            t.shape == shape_of_index(i as int),
            t.orient == Orient::North,
    {
        let shape = if i == 0 {
            Shape::I
        } else if i == 1 {
            Shape::O
        } else if i == 2 {
            Shape::T
        } else if i == 3 {
            Shape::J
        } else if i == 4 {
            Shape::L
        } else if i == 5 {
            Shape::S
        } else {
            Shape::Z
        };
        Tetronimo { shape, orient: Orient::North }
    }

    /// A piece with a randomly chosen shape, facing north.
    pub fn random() -> (t: Tetronimo)
        ensures
            t.orient == Orient::North,
            exists|i: int| 0 <= i < 7 && t.shape == shape_of_index(i),
    {
        let i = random_below(7);
        Tetronimo::from_index(i)
    }
}

/// Bounding size of a shape, as a count of board cells per axis.
pub open spec fn unit_size(s: Shape) -> (int, int) {
    match s {
        Shape::I => (1, 4),
        Shape::O => (2, 2),
        Shape::T => (2, 3),
        Shape::J => (2, 4),
        Shape::L => (2, 4),
        Shape::S => (3, 2),
        Shape::Z => (3, 2),
    }
}

/// Display color of a shape, as channel intensities in hundredths.
pub open spec fn shape_color(s: Shape) -> Rgb {
    match s {
        Shape::I => Rgb { red: 30, green: 44, blue: 65 },
        Shape::O => Rgb { red: 95, green: 55, blue: 16 },
        Shape::T => Rgb { red: 88, green: 34, blue: 35 },
        Shape::J => Rgb { red: 46, green: 71, blue: 69 },
        Shape::L => Rgb { red: 35, green: 63, blue: 31 },
        Shape::S => Rgb { red: 69, green: 47, blue: 63 },
        Shape::Z => Rgb { red: 93, green: 78, blue: 28 },
    }
}

impl Tetronimo {
    /// The piece's bounding size in pixels: its cell counts scaled by the
    /// cell side length.
    pub fn size(&self) -> (s: Size2)
        ensures
            s.width == unit_size(self.shape).0 * BLOCK_WIDTH,
            s.height == unit_size(self.shape).1 * BLOCK_WIDTH,
    {
        let (w, h): (u32, u32) = match self.shape {
            Shape::I => (1, 4),
            Shape::O => (2, 2),
            Shape::T => (2, 3),
            Shape::J => (2, 4),
            Shape::L => (2, 4),
            Shape::S => (3, 2),
            Shape::Z => (3, 2),
        };
        Size2 { width: w * BLOCK_WIDTH, height: h * BLOCK_WIDTH }
    }

    /// The piece's display color, determined by its shape alone.
    pub fn color(&self) -> (c: Rgb)
        ensures
            c == shape_color(self.shape),
            c.wf(),
    {
        match self.shape {
            Shape::I => Rgb { red: 30, green: 44, blue: 65 },
            Shape::O => Rgb { red: 95, green: 55, blue: 16 },
            Shape::T => Rgb { red: 88, green: 34, blue: 35 },
            Shape::J => Rgb { red: 46, green: 71, blue: 69 },
            Shape::L => Rgb { red: 35, green: 63, blue: 31 },
            Shape::S => Rgb { red: 69, green: 47, blue: 63 },
            Shape::Z => Rgb { red: 93, green: 78, blue: 28 },
        }
    }
}

/// A size in pixels, one value per axis.
#[derive(Copy, Clone, Debug, PartialEq, Eq, Structural)]
pub struct Size2 {
    pub width: u32,
    pub height: u32,
}

/// Relies on rand::Rng::gen_range on a thread-local generator: a uniformly
/// random value in the half-open range below `n`.
#[verifier::external_body]
fn random_below(n: u32) -> (r: u32)
    requires
        n > 0,
    ensures
        r < n,
{
    rand::Rng::gen_range(&mut rand::thread_rng(), 0..n)
}

} // verus!
