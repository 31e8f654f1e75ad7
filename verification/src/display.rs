use vstd::prelude::*;

verus! {

pub const SCREEN_WIDTH: usize = 800;

pub const SCREEN_HEIGHT: usize = 480;

pub const SCREEN_PIXELS: usize = 384000;

/// The six inks of the colour e-paper panel.
#[derive(Clone, Copy, Debug, PartialEq, Eq, Structural)]
pub enum Color {
    White,
    Black,
    Green,
    Blue,
    Red,
    Yellow,
}

impl Color {
    /// The album's own number for an ink, in declaration order.
    pub open spec fn spec_ink_code(self) -> u8 {
        match self {
            Color::White => 0,
            Color::Black => 1,
            Color::Green => 2,
            Color::Blue => 3,
            Color::Red => 4,
            Color::Yellow => 5,
        }
    }

    pub fn ink_code(self) -> (code: u8)
        ensures
            code == self.spec_ink_code(),
    {
        match self {
            Color::White => 0,
            Color::Black => 1,
            Color::Green => 2,
            Color::Blue => 3,
            Color::Red => 4,
            Color::Yellow => 5,
        }
    }
}

/// The colour of the screen point `(x, y)` in a row-major pixel sequence.
pub open spec fn pixel_at(pixels: Seq<Color>, x: int, y: int) -> Color {
    pixels[y * SCREEN_WIDTH + x]
}

pub open spec fn on_screen(x: int, y: int) -> bool {
    0 <= x < SCREEN_WIDTH && 0 <= y < SCREEN_HEIGHT
}

/// Whether the screen point `(px, py)` lies in the rectangle clipped to the screen.
pub open spec fn in_rect(px: int, py: int, x: int, y: int, width: int, height: int) -> bool {
    x <= px < x + width && y <= py < y + height
}

/// A full-screen frame of inks, row by row.
#[derive(Clone, Debug, PartialEq, Eq)]
pub struct ScreenBuffer {
    pixels: Vec<Color>,
}

impl View for ScreenBuffer {
    type V = Seq<Color>;

    closed spec fn view(&self) -> Seq<Color> {
        self.pixels@
    }
}

impl ScreenBuffer {
    /// A frame holds exactly one ink per screen point.
    pub open spec fn wf(&self) -> bool {
        self@.len() == SCREEN_PIXELS
    }

    /// A frame where every pixel has one ink.
    pub fn filled(color: Color) -> (buffer: Self)
        ensures
            buffer@ == Seq::new(SCREEN_PIXELS as nat, |_i: int| color),
    {
        let pixels = vec![color; SCREEN_PIXELS];
        ScreenBuffer { pixels }
    }

    pub fn width(&self) -> (width: usize)
        ensures
            width == SCREEN_WIDTH,
    {
        SCREEN_WIDTH
    }

    pub fn height(&self) -> (height: usize)
        ensures
            height == SCREEN_HEIGHT,
    {
        SCREEN_HEIGHT
    }

    pub fn pixels(&self) -> (pixels: &[Color])
        requires
            self.wf(),
        ensures
            pixels@ == self@,
            pixels@.len() == SCREEN_PIXELS,
    {
        self.pixels.as_slice()
    }

    /// Every pixel, row by row, to be changed in place: what is written into
    /// the slice is what the frame holds afterwards.
    pub fn pixels_mut(&mut self) -> (pixels: &mut [Color])
        ensures
            pixels@ == old(self)@,
            final(self)@ == final(pixels)@,
    {
        self.pixels.as_mut_slice()
    }

    /// Sets every pixel to one ink.
    pub fn clear(&mut self, color: Color)
        requires
            old(self).wf(),
        ensures
            final(self)@ == Seq::new(SCREEN_PIXELS as nat, |_i: int| color),
    {
        let mut i: usize = 0;
        while i < SCREEN_PIXELS
            invariant
                self.pixels@.len() == SCREEN_PIXELS,
                i <= SCREEN_PIXELS,
                forall|j: int| 0 <= j < i ==> self.pixels@[j] == color,
            decreases SCREEN_PIXELS - i,
        {
            self.set_index(i, color);
            i = i + 1;
        }
        assert(self@ =~= Seq::new(SCREEN_PIXELS as nat, |_i: int| color));
    }

    fn set_index(&mut self, index: usize, color: Color)
        requires
            index < old(self)@.len(),
            old(self)@.len() == SCREEN_PIXELS,
        ensures
            final(self)@ == old(self)@.update(index as int, color),
    {
        self.pixels.set(index, color);
    }

    /// The ink at `(x, y)`, or `None` off the screen.
    pub fn get_pixel(&self, x: usize, y: usize) -> (color: Option<Color>)
        requires
            self.wf(),
        ensures
            color == (if on_screen(x as int, y as int) {
                Some(pixel_at(self@, x as int, y as int))
            } else {
                None
            }),
    {
        match self.pixel_index(x, y) {
            Some(index) => Some(self.pixels[index]),
            None => None,
        }
    }

    /// Sets the ink at `(x, y)`; off the screen nothing changes and the answer is `false`.
    pub fn set_pixel(&mut self, x: usize, y: usize, color: Color) -> (written: bool)
        requires
            old(self).wf(),
        ensures
            final(self).wf(),
            written == on_screen(x as int, y as int),
            final(self)@ == (if written {
                old(self)@.update(y * SCREEN_WIDTH + x, color)
            } else {
                old(self)@
            }),
    {
        match self.pixel_index(x, y) {
            Some(index) => {
                self.set_index(index, color);
                true
            },
            None => false,
        }
    }

    /// Paints the part of a rectangle that lies on the screen.
    pub fn fill_rect(&mut self, x: usize, y: usize, width: usize, height: usize, color: Color)
        requires
            old(self).wf(),
        ensures
            final(self)@.len() == SCREEN_PIXELS,
            forall|px: int, py: int|
                on_screen(px, py) ==> #[trigger] pixel_at(final(self)@, px, py) == if in_rect(
                    px,
                    py,
                    x as int,
                    y as int,
                    width as int,
                    height as int,
                ) {
                    color
                } else {
                    pixel_at(old(self)@, px, py)
                },
    {
        if width == 0 || height == 0 || x >= SCREEN_WIDTH || y >= SCREEN_HEIGHT {
            return;
        }
        let end_x: usize = if width > SCREEN_WIDTH - x { SCREEN_WIDTH } else { x + width };
        let end_y: usize = if height > SCREEN_HEIGHT - y { SCREEN_HEIGHT } else { y + height };
        let ghost before = self@;
        let mut row: usize = y;
        while row < end_y
            invariant
                self@.len() == SCREEN_PIXELS,
                before.len() == SCREEN_PIXELS,
                y <= row <= end_y <= SCREEN_HEIGHT,
                x < end_x <= SCREEN_WIDTH,
                end_x == (if width > SCREEN_WIDTH - x { SCREEN_WIDTH as int } else { x + width }),
                end_y == (if height > SCREEN_HEIGHT - y { SCREEN_HEIGHT as int } else { y + height }),
                forall|px: int, py: int|
                    on_screen(px, py) ==> #[trigger] pixel_at(self@, px, py) == if x <= px < end_x
                        && y <= py < row {
                        color
                    } else {
                        pixel_at(before, px, py)
                    },
            decreases end_y - row,
        {
            let mut column: usize = x;
            while column < end_x
                invariant
                    self@.len() == SCREEN_PIXELS,
                    before.len() == SCREEN_PIXELS,
                    y <= row < end_y <= SCREEN_HEIGHT,
                    x <= column <= end_x <= SCREEN_WIDTH,
                    forall|px: int, py: int|
                        on_screen(px, py) ==> #[trigger] pixel_at(self@, px, py) == if (x <= px
                            < end_x && y <= py < row) || (x <= px < column && py == row) {
                            color
                        } else {
                            pixel_at(before, px, py)
                        },
                decreases end_x - column,
            {
                let index = row * SCREEN_WIDTH + column;
                let ghost prev = self@;
                self.set_index(index, color);
                assert forall|px: int, py: int| on_screen(px, py) implies #[trigger] pixel_at(
                    self@,
                    px,
                    py,
                ) == if (x <= px < end_x && y <= py < row) || (x <= px < column + 1 && py
                    == row) {
                    color
                } else {
                    pixel_at(before, px, py)
                } by {
                    if px == column && py == row {
                    } else {
                        assert(py * SCREEN_WIDTH + px != row * SCREEN_WIDTH + column);
                        assert(pixel_at(self@, px, py) == pixel_at(prev, px, py));
                    }
                }
                column = column + 1;
            }
            row = row + 1;
        }
    }

    fn pixel_index(&self, x: usize, y: usize) -> (index: Option<usize>)
        ensures
            index == (if on_screen(x as int, y as int) {
                Some((y * SCREEN_WIDTH + x) as usize)
            } else {
                None
            }),
    {
        if x < SCREEN_WIDTH && y < SCREEN_HEIGHT {
            Some(y * SCREEN_WIDTH + x)
        } else {
            None
        }
    }
}

impl Default for ScreenBuffer {
    fn default() -> (buffer: Self)
        ensures
            buffer@ == Seq::new(SCREEN_PIXELS as nat, |_i: int| Color::White),
    {
        ScreenBuffer::filled(Color::White)
    }
}

#[derive(Clone, Copy, Debug, PartialEq, Eq, Structural)]
pub enum DisplayRefreshMode {
    Full,
}

#[derive(Clone, Copy, Debug, PartialEq, Eq, Structural)]
pub enum DisplayError {
    Busy,
    Transport,
    NotInitialized,
}

/// A panel that can be woken, shown a frame and put to sleep.
pub trait EpaperDisplay {
    fn init(&mut self) -> Result<(), DisplayError>;

    fn refresh(&mut self, buffer: &ScreenBuffer, mode: DisplayRefreshMode) -> Result<(), DisplayError>
        requires
            buffer.wf(),
    ;

    fn sleep(&mut self) -> Result<(), DisplayError>;
}

/// A panel in memory that remembers what it was last shown.
#[derive(Clone, Debug)]
pub struct MockDisplay {
    initialized: bool,
    sleeping: bool,
    refresh_count: u32,
    last_refresh_mode: Option<DisplayRefreshMode>,
    last_frame: Option<ScreenBuffer>,
}

impl MockDisplay {
    pub closed spec fn spec_initialized(&self) -> bool {
        self.initialized
    }

    pub closed spec fn spec_sleeping(&self) -> bool {
        self.sleeping
    }

    pub closed spec fn spec_refresh_count(&self) -> u32 {
        self.refresh_count
    }

    pub closed spec fn spec_last_refresh_mode(&self) -> Option<DisplayRefreshMode> {
        self.last_refresh_mode
    }

    pub closed spec fn spec_last_frame(&self) -> Option<Seq<Color>> {
        match self.last_frame {
            Some(frame) => Some(frame@),
            None => None,
        }
    }

    pub fn new() -> (display: Self)
        ensures
            !display.spec_initialized(),
            !display.spec_sleeping(),
            display.spec_refresh_count() == 0,
            display.spec_last_refresh_mode() == None::<DisplayRefreshMode>,
            display.spec_last_frame() == None::<Seq<Color>>,
    {
        MockDisplay {
            initialized: false,
            sleeping: false,
            refresh_count: 0,
            last_refresh_mode: None,
            last_frame: None,
        }
    }

    pub fn is_initialized(&self) -> (result: bool)
        ensures
            result == self.spec_initialized(),
    {
        self.initialized
    }

    pub fn is_sleeping(&self) -> (result: bool)
        ensures
            result == self.spec_sleeping(),
    {
        self.sleeping
    }

    pub fn refresh_count(&self) -> (result: u32)
        ensures
            result == self.spec_refresh_count(),
    {
        self.refresh_count
    }

    pub fn last_refresh_mode(&self) -> (result: Option<DisplayRefreshMode>)
        ensures
            result == self.spec_last_refresh_mode(),
    {
        self.last_refresh_mode
    }

    pub fn last_frame(&self) -> (result: Option<&ScreenBuffer>)
        ensures
            match result {
                Some(frame) => self.spec_last_frame() == Some(frame@),
                None => self.spec_last_frame() == None::<Seq<Color>>,
            },
    {
        match &self.last_frame {
            Some(frame) => Some(frame),
            None => None,
        }
    }

    /// Wakes the panel.
    pub fn power_on(&mut self) -> (result: Result<(), DisplayError>)
        ensures
            result == Ok::<(), DisplayError>(()),
            final(self).spec_initialized(),
            !final(self).spec_sleeping(),
            final(self).spec_refresh_count() == old(self).spec_refresh_count(),
            final(self).spec_last_refresh_mode() == old(self).spec_last_refresh_mode(),
            final(self).spec_last_frame() == old(self).spec_last_frame(),
    {
        self.initialized = true;
        self.sleeping = false;
        Ok(())
    }

    /// Shows a frame; refused before the panel was woken.
    pub fn show(&mut self, buffer: &ScreenBuffer, mode: DisplayRefreshMode) -> (result: Result<(), DisplayError>)
        requires
            buffer.wf(),
        ensures
            old(self).spec_initialized() ==> {
                &&& result == Ok::<(), DisplayError>(())
                &&& final(self).spec_initialized()
                &&& !final(self).spec_sleeping()
                &&& final(self).spec_refresh_count() == (if old(self).spec_refresh_count() == u32::MAX {
                    u32::MAX as int
                } else {
                    old(self).spec_refresh_count() + 1
                })
                &&& final(self).spec_last_refresh_mode() == Some(mode)
                &&& final(self).spec_last_frame() == Some(buffer@)
            },
            !old(self).spec_initialized() ==> {
                &&& result == Err::<(), DisplayError>(DisplayError::NotInitialized)
                &&& *final(self) == *old(self)
            },
    {
        if !self.initialized {
            return Err(DisplayError::NotInitialized);
        }
        self.sleeping = false;
        self.refresh_count = if self.refresh_count == u32::MAX {
            u32::MAX
        } else {
            self.refresh_count + 1
        };
        self.last_refresh_mode = Some(mode);
        self.last_frame = Some(buffer.clone_frame());
        Ok(())
    }

    /// Puts the panel to sleep; refused before the panel was woken.
    pub fn power_off(&mut self) -> (result: Result<(), DisplayError>)
        ensures
            old(self).spec_initialized() ==> {
                &&& result == Ok::<(), DisplayError>(())
                &&& final(self).spec_sleeping()
                &&& final(self).spec_initialized()
                &&& final(self).spec_refresh_count() == old(self).spec_refresh_count()
                &&& final(self).spec_last_refresh_mode() == old(self).spec_last_refresh_mode()
                &&& final(self).spec_last_frame() == old(self).spec_last_frame()
            },
            !old(self).spec_initialized() ==> {
                &&& result == Err::<(), DisplayError>(DisplayError::NotInitialized)
                &&& *final(self) == *old(self)
            },
    {
        if !self.initialized {
            return Err(DisplayError::NotInitialized);
        }
        self.sleeping = true;
        Ok(())
    }
}

impl ScreenBuffer {
    /// A copy of the frame with the same pixels.
    pub fn clone_frame(&self) -> (copy: ScreenBuffer)
        requires
            self.wf(),
        ensures
            copy@ == self@,
    {
        let mut pixels: Vec<Color> = Vec::new();
        let mut i: usize = 0;
        while i < self.pixels.len()
            invariant
                i <= self.pixels@.len(),
                pixels@ == self.pixels@.subrange(0, i as int),
            decreases self.pixels@.len() - i,
        {
            pixels.push(self.pixels[i]);
            i = i + 1;
        }
        assert(pixels@ =~= self.pixels@);
        ScreenBuffer { pixels }
    }
}

impl Default for MockDisplay {
    fn default() -> (display: Self)
        ensures
            !display.spec_initialized(),
            !display.spec_sleeping(),
            display.spec_refresh_count() == 0,
            display.spec_last_refresh_mode() == None::<DisplayRefreshMode>,
            display.spec_last_frame() == None::<Seq<Color>>,
    {
        MockDisplay::new()
    }
}

impl EpaperDisplay for MockDisplay {
    /// Wakes the panel; see `power_on`.
    fn init(&mut self) -> (result: Result<(), DisplayError>)
        ensures
            result == Ok::<(), DisplayError>(()),
            final(self).spec_initialized(),
            !final(self).spec_sleeping(),
            final(self).spec_refresh_count() == old(self).spec_refresh_count(),
            final(self).spec_last_refresh_mode() == old(self).spec_last_refresh_mode(),
            final(self).spec_last_frame() == old(self).spec_last_frame(),
    {
        self.power_on()
    }

    /// Shows a frame; see `show`.
    fn refresh(&mut self, buffer: &ScreenBuffer, mode: DisplayRefreshMode) -> (result: Result<(), DisplayError>)
        ensures
            old(self).spec_initialized() ==> {
                &&& result == Ok::<(), DisplayError>(())
                &&& final(self).spec_initialized()
                &&& !final(self).spec_sleeping()
                &&& final(self).spec_refresh_count() == (if old(self).spec_refresh_count() == u32::MAX {
                    u32::MAX as int
                } else {
                    old(self).spec_refresh_count() + 1
                })
                &&& final(self).spec_last_refresh_mode() == Some(mode)
                &&& final(self).spec_last_frame() == Some(buffer@)
            },
            !old(self).spec_initialized() ==> {
                &&& result == Err::<(), DisplayError>(DisplayError::NotInitialized)
                &&& *final(self) == *old(self)
            },
    {
        self.show(buffer, mode)
    }

    /// Puts the panel to sleep; see `power_off`.
    fn sleep(&mut self) -> (result: Result<(), DisplayError>)
        ensures
            old(self).spec_initialized() ==> {
                &&& result == Ok::<(), DisplayError>(())
                &&& final(self).spec_sleeping()
                &&& final(self).spec_initialized()
                &&& final(self).spec_refresh_count() == old(self).spec_refresh_count()
                &&& final(self).spec_last_refresh_mode() == old(self).spec_last_refresh_mode()
                &&& final(self).spec_last_frame() == old(self).spec_last_frame()
            },
            !old(self).spec_initialized() ==> {
                &&& result == Err::<(), DisplayError>(DisplayError::NotInitialized)
                &&& *final(self) == *old(self)
            },
    {
        self.power_off()
    }
}

} // verus!
