//! Panel configuration.

use vstd::prelude::*;

verus! {

/// The largest transfer buffer the driver works with, in bytes.
pub const BUF_SIZE: usize = 24 * 48 * 2;

/// The number of pixels that fit into the largest transfer buffer.
pub const MAX_DATA_LEN: usize = BUF_SIZE / 2;

/// One of the four rotations of the panel.
#[derive(Debug, Clone, Copy, PartialEq, Eq)]
pub enum Orientation {
    Portrait,
    Landscape,
    PortraitSwapped,
    LandscapeSwapped,
}

impl Orientation {
    /// The value of the memory-access-control register that selects this
    /// rotation.
    pub open spec fn code(self) -> u8 {
        match self {
            Orientation::Portrait => 0x00,
            Orientation::Landscape => 0x60,
            Orientation::PortraitSwapped => 0x80,
            Orientation::LandscapeSwapped => 0xA0,
        }
    }

    /// The value of the memory-access-control register that selects this
    /// rotation.
    pub fn register_value(self) -> (byte: u8)
        ensures
            byte == self.code(),
    {
        match self {
            Orientation::Portrait => 0x00,
            Orientation::Landscape => 0x60,
            Orientation::PortraitSwapped => 0x80,
            Orientation::LandscapeSwapped => 0xA0,
        }
    }
}

/// How the panel is wired and mounted.
#[derive(Debug, Clone, Copy)]
pub struct Config {
    pub rgb: bool,
    pub inverted: bool,
    pub orientation: Orientation,
    /// Logical height in pixels.
    pub height: u16,
    /// Logical width in pixels.
    pub width: u16,
    /// Offset of the logical origin in the controller's memory, first axis.
    pub dx: u16,
    /// Offset of the logical origin in the controller's memory, second axis.
    pub dy: u16,
}

impl Config {
    /// A panel has at least one pixel in each direction.
    pub open spec fn valid(self) -> bool {
        self.width > 0 && self.height > 0
    }

    /// The whole panel, shifted by the offsets, can be addressed with the
    /// controller's 16-bit window registers.
    pub open spec fn addressable(self) -> bool {
        &&& self.valid()
        &&& self.width - 1 + self.dx <= u16::MAX
        &&& self.height - 1 + self.dy <= u16::MAX
    }

    /// Whether a rectangle with these inclusive corners, shifted by the
    /// offsets, can be addressed with the 16-bit window registers.
    pub open spec fn reaches(self, sx: u16, sy: u16, ex: u16, ey: u16) -> bool {
        &&& sx + self.dx <= u16::MAX
        &&& ex + self.dx <= u16::MAX
        &&& sy + self.dy <= u16::MAX
        &&& ey + self.dy <= u16::MAX
    }

    /// Whether a rectangle given by its corner and its size has a last
    /// column and a last row, and can be addressed.
    pub open spec fn holds_area(self, x: u16, y: u16, width: u16, height: u16) -> bool {
        &&& x + width >= 1
        &&& y + height >= 1
        &&& x + self.dx <= u16::MAX
        &&& y + self.dy <= u16::MAX
        &&& x + width - 1 + self.dx <= u16::MAX
        &&& y + height - 1 + self.dy <= u16::MAX
    }

    pub fn is_valid(&self) -> (ok: bool)
        ensures
            ok == self.valid(),
    {
        self.width > 0 && self.height > 0
    }

    pub fn is_addressable(&self) -> (ok: bool)
        ensures
            ok == self.addressable(),
    {
        self.width > 0 && self.height > 0
            && self.width - 1 <= u16::MAX - self.dx
            && self.height - 1 <= u16::MAX - self.dy
    }

    pub fn can_reach(&self, sx: u16, sy: u16, ex: u16, ey: u16) -> (ok: bool)
        ensures
            ok == self.reaches(sx, sy, ex, ey),
    {
        sx <= u16::MAX - self.dx && ex <= u16::MAX - self.dx
            && sy <= u16::MAX - self.dy && ey <= u16::MAX - self.dy
    }

    pub fn can_hold_area(&self, x: u16, y: u16, width: u16, height: u16) -> (ok: bool)
        ensures
            ok == self.holds_area(x, y, width, height),
    {
        let last_x: u32 = x as u32 + width as u32;
        let last_y: u32 = y as u32 + height as u32;
        last_x >= 1 && last_y >= 1
            && x <= u16::MAX - self.dx
            && y <= u16::MAX - self.dy
            && last_x - 1 + self.dx as u32 <= 0xFFFF
            && last_y - 1 + self.dy as u32 <= 0xFFFF
    }
}

impl Default for Config {
    fn default() -> (config: Config)
        ensures
            config.rgb == false,
            config.inverted == false,
            config.orientation == Orientation::Landscape,
            config.height == 160,
            config.width == 60,
            config.dx == 0,
            config.dy == 0,
    {
        Config {
            rgb: false,
            inverted: false,
            orientation: Orientation::Landscape,
            height: 160,
            width: 60,
            dx: 0,
            dy: 0,
        }
    }
}

/// Whether a transfer buffer of this many bytes can carry pixels: it holds a
/// whole number of them, at least one, and is no larger than `BUF_SIZE`.
pub open spec fn buffer_fits(capacity: nat) -> bool {
    capacity > 0 && capacity % 2 == 0 && capacity <= BUF_SIZE
}

pub fn check_buffer(capacity: usize) -> (ok: bool)
    ensures
        ok == buffer_fits(capacity as nat),
{
    capacity > 0 && capacity % 2 == 0 && capacity <= BUF_SIZE
}

} // verus!
