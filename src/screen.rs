use vstd::prelude::*;

use crate::cpu::DrawInstruction;
use crate::math::Point;

verus! {

/// Pixels per column of the display grid.
pub const PIXEL_BY_HEIGHT: usize = 32;

/// Pixels per row of the display grid.
pub const PIXEL_BY_WIDTH: usize = 64;

/// Number of pixels on the display grid.
pub const PIXEL_COUNT: usize = 2048;

#[derive(Clone, Copy, PartialEq, Eq, Structural)]
enum PixelSate {
    On,
    Off,
}

pub enum Keycode {
    A,
    B,
}

pub enum SimpleEvents {
    Quit,
    KeyPressed(Keycode),
    KeyReleased(Keycode),
}

/// Whether `p` lies on the display grid.
pub open spec fn on_grid(p: Point) -> bool {
    p.x < PIXEL_BY_WIDTH && p.y < PIXEL_BY_HEIGHT
}

/// Position of the pixel at (`x`, `y`) in the grid's view, column by column.
pub open spec fn cell(x: usize, y: usize) -> int {
    x * PIXEL_BY_HEIGHT + y
}

/// The grid `g` with the pixel at `p` flipped; a point off the grid changes
/// nothing.
pub open spec fn toggle(g: Seq<bool>, p: Point) -> Seq<bool> {
    if on_grid(p) {
        g.update(cell(p.x, p.y), !g[cell(p.x, p.y)])
    } else {
        g
    }
}

/// The grid `g` with the pixels of `ps` flipped in order.
pub open spec fn toggle_all(g: Seq<bool>, ps: Seq<Point>) -> Seq<bool>
    decreases ps.len(),
{
    if ps.len() == 0 {
        g
    } else {
        toggle(toggle_all(g, ps.drop_last()), ps.last())
    }
}

/// A grid with every pixel off.
pub open spec fn blank() -> Seq<bool> {
    Seq::new(PIXEL_COUNT as nat, |k: int| false)
}

/// The grid after a display change `d`.
pub open spec fn applied(g: Seq<bool>, d: DrawInstruction) -> Seq<bool> {
    match d {
        DrawInstruction::Unchanged => g,
        DrawInstruction::Clear => blank(),
        DrawInstruction::SinglePixel(p) => toggle(g, p),
        DrawInstruction::Sprite(ps) => toggle_all(g, ps@),
    }
}

/// Flipping the same pixel twice restores the grid.
pub proof fn lemma_toggle_twice(g: Seq<bool>, p: Point)
    requires
        g.len() == PIXEL_COUNT,
    ensures
        toggle(toggle(g, p), p) == g,
{
    if on_grid(p) {
        assert(toggle(toggle(g, p), p) =~= g);
    }
}

/// The on/off state of each pixel of the display grid.
pub struct Screen {
    screen_state: [PixelSate; PIXEL_COUNT],
}

impl View for Screen {
    type V = Seq<bool>;

    closed spec fn view(&self) -> Seq<bool> {
        Seq::new(PIXEL_COUNT as nat, |k: int| self.screen_state@[k] == PixelSate::On)
    }
}

impl Screen {
    /// A grid with every pixel off.
    pub fn new() -> (r: Screen)
        ensures
            r@ == blank(),
    {
        let r = Screen { screen_state: [PixelSate::Off; PIXEL_COUNT] };
        assert(r@ =~= blank());
        r
    }

    /// Nothing to do: the grid changes only through display changes.
    pub fn update() {
    }

    /// Whether the pixel at (`x`, `y`) is on.
    pub fn is_on(&self, x: usize, y: usize) -> (r: bool)
        requires
            x < PIXEL_BY_WIDTH,
            y < PIXEL_BY_HEIGHT,
        ensures
            r == self@[cell(x, y)],
    {
        self.screen_state[x * PIXEL_BY_HEIGHT + y] == PixelSate::On
    }

    /// Flips the pixel at `position`; a position off the grid changes
    /// nothing.
    pub fn update_pixel(&mut self, position: Point)
        ensures
            final(self)@ == toggle(old(self)@, position),
    {
        let Point { x, y } = position;
        if x < PIXEL_BY_WIDTH && y < PIXEL_BY_HEIGHT {
            let k = x * PIXEL_BY_HEIGHT + y;
            self.screen_state[k] = match self.screen_state[k] {
                PixelSate::On => PixelSate::Off,
                PixelSate::Off => PixelSate::On,
            };
            assert(self@ =~= toggle(old(self)@, position));
        }
    }

    /// Turns every pixel off.
    pub fn clear(&mut self)
        ensures
            final(self)@ == blank(),
    {
        let mut k: usize = 0;
        while k < PIXEL_COUNT
            invariant
                k <= PIXEL_COUNT,
                forall|j: int| 0 <= j < k ==> self.screen_state@[j] == PixelSate::Off,
            decreases PIXEL_COUNT - k,
        {
            self.screen_state[k] = PixelSate::Off;
            k = k + 1;
        }
        assert(self@ =~= blank());
    }

    /// Applies a display change: a clear, or the flips of its pixels in
    /// order.
    pub fn apply(&mut self, change: &DrawInstruction)
        ensures
            final(self)@ == applied(old(self)@, *change),
    {
        match change {
            DrawInstruction::Unchanged => {},
            DrawInstruction::Clear => self.clear(),
            DrawInstruction::SinglePixel(p) => self.update_pixel(*p),
            DrawInstruction::Sprite(ps) => {
                let mut k: usize = 0;
                while k < ps.len()
                    invariant
                        k <= ps@.len(),
                        self@ == toggle_all(old(self)@, ps@.subrange(0, k as int)),
                    decreases ps@.len() - k,
                {
                    assert(ps@.subrange(0, (k + 1) as int).drop_last() =~= ps@.subrange(0, k as int));
                    self.update_pixel(ps[k]);
                    k = k + 1;
                }
                assert(ps@.subrange(0, k as int) =~= ps@);
            },
        }
    }
}

} // verus!
