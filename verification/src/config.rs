//! The static board layout: the window, the four wall rectangles, the UI
//! rectangles, the palette, and the geometry each wall sprite is drawn with.

use vstd::prelude::*;

verus! {

/// Largest pixel coordinate a layout rectangle may use.
pub const MAX_COORD: i32 = 10000;

/// An axis-aligned rectangle in window coordinates, one value per edge.
#[derive(Copy, Clone, Debug, PartialEq, Eq, Structural)]
pub struct Rect {
    pub left: i32,
    pub right: i32,
    pub top: i32,
    pub bottom: i32,
}

impl Rect {
    /// Every edge lies within the window coordinate range.
    pub open spec fn wf(self) -> bool {
        &&& 0 <= self.left <= MAX_COORD
        &&& 0 <= self.right <= MAX_COORD
        &&& 0 <= self.top <= MAX_COORD
        &&& 0 <= self.bottom <= MAX_COORD
    }

    /// A rectangle from its four pixel edges.
    pub fn pixels(left: i32, right: i32, top: i32, bottom: i32) -> (r: Rect)
        requires
            0 <= left <= MAX_COORD,
            0 <= right <= MAX_COORD,
            0 <= top <= MAX_COORD,
            0 <= bottom <= MAX_COORD,
        ensures
            r == (Rect { left, right, top, bottom }),
            r.wf(),
    {
        Rect { left, right, top, bottom }
    }
}

/// The geometry a wall sprite is drawn with: its translation is the
/// rectangle's left/top corner and its extent the rectangle's width and
/// height.
#[derive(Copy, Clone, Debug, PartialEq, Eq, Structural)]
pub struct WallSprite {
    pub x: i32,
    pub y: i32,
    pub width: i32,
    pub height: i32,
}

/// The sprite drawn for a wall rectangle: placed at (left, top), spanning
/// (right - left) by (bottom - top).
pub fn wall_sprite(r: &Rect) -> (s: WallSprite)
    requires
        r.wf(),
    ensures
        s.x == r.left,
        s.y == r.top,
        s.width == r.right - r.left,
        s.height == r.bottom - r.top,
{
    WallSprite { x: r.left, y: r.top, width: r.right - r.left, height: r.bottom - r.top }
}

/// A display color: red, green and blue intensities in hundredths of full
/// brightness, each at most 100.
#[derive(Copy, Clone, Debug, PartialEq, Eq, Structural)]
pub struct Rgb {
    pub red: u8,
    pub green: u8,
    pub blue: u8,
}

impl Rgb {
    /// Each channel is a valid intensity.
    pub open spec fn wf(self) -> bool {
        self.red <= 100 && self.green <= 100 && self.blue <= 100
    }
}

/// The window the game is played in.
#[derive(Clone, Debug, PartialEq, Eq)]
pub struct WindowConfig {
    pub title: String,
    pub width: u32,
    pub height: u32,
    pub resizable: bool,
}

/// The fixed layout and palette of the game.
#[derive(Clone, Debug, PartialEq, Eq)]
pub struct GameConfig {
    pub background: Rgb,
    pub foreground: Rgb,
    pub window: WindowConfig,
    pub bounds_left: Rect,
    pub bounds_right: Rect,
    pub bounds_top: Rect,
    pub bounds_bottom: Rect,
    pub next: Rect,
    pub scoreboard: Rect,
}

impl GameConfig {
    /// Every rectangle of the layout lies within the window coordinate range.
    pub open spec fn wf(self) -> bool {
        &&& self.background.wf()
        &&& self.foreground.wf()
        &&& self.bounds_left.wf()
        &&& self.bounds_right.wf()
        &&& self.bounds_top.wf()
        &&& self.bounds_bottom.wf()
        &&& self.next.wf()
        &&& self.scoreboard.wf()
    }
}

impl Default for GameConfig {
    /// The layout of the standard game: a 300 by 400 window, the playing
    /// field fenced by four walls, and the next-piece and scoreboard panels
    /// on the right.
    fn default() -> (c: GameConfig)
        ensures
            c.background == (Rgb { red: 70, green: 45, blue: 75 }),
            c.foreground == (Rgb { red: 75, green: 82, blue: 92 }),
            c.window.title@ == "Tet.rs"@,
            c.window.width == 300,
            c.window.height == 400,
            !c.window.resizable,
            c.bounds_left == (Rect { left: 0, right: 20, top: 20, bottom: 380 }),
            c.bounds_right == (Rect { left: 200, right: 300, top: 20, bottom: 380 }),
            c.bounds_top == (Rect { left: 0, right: 300, top: 0, bottom: 20 }),
            c.bounds_bottom == (Rect { left: 0, right: 300, top: 380, bottom: 400 }),
            c.next == (Rect { left: 220, right: 60, top: 60, bottom: 40 }),
            c.scoreboard == (Rect { left: 220, right: 150, top: 60, bottom: 20 }),
            c.wf(),
    {
        GameConfig {
            background: Rgb { red: 70, green: 45, blue: 75 },
            foreground: Rgb { red: 75, green: 82, blue: 92 },
            window: WindowConfig {
                title: "Tet.rs".to_string(),
                width: 300,
                height: 400,
                resizable: false,
            },
            bounds_left: Rect { left: 0, right: 20, top: 20, bottom: 380 },
            bounds_right: Rect { left: 200, right: 300, top: 20, bottom: 380 },
            bounds_top: Rect { left: 0, right: 300, top: 0, bottom: 20 },
            bounds_bottom: Rect { left: 0, right: 300, top: 380, bottom: 400 },
            next: Rect::pixels(220, 60, 60, 40),
            scoreboard: Rect::pixels(220, 150, 60, 20),
        }
    }
}

} // verus!
