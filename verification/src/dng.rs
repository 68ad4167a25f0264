//! What the writer of the Digital Negative is told and what it asks of an
//! image before it is written.

use vstd::prelude::*;

use crate::image::is_product;

verus! {

/// The predictor of the lossless JPEG stream that holds the samples.
pub const LJ92_PREDICTOR: u8 = 7;

/// The oldest version of the format that can read the file: 1.1.0.0.
pub const DNG_BACKWARD_VERSION: [u8; 4] = [1, 1, 0, 0];

/// A rectangle on the sensor: the corner nearest the origin and the size.
#[derive(Copy, Clone, Debug, PartialEq, Eq, Structural)]
pub struct Rect {
    pub x: usize,
    pub y: usize,
    pub w: usize,
    pub h: usize,
}

/// The sizes that the raw part of the file is laid out by.
#[derive(Copy, Clone, Debug, PartialEq, Eq, Structural)]
pub struct RawLayout {
    pub width: usize,
    pub height: usize,
    pub cpp: usize,
    /// The part of the sensor that holds valid pixels; all of it where none
    /// is given.
    pub active_area: Option<Rect>,
    /// How many white levels the calibration holds.
    pub whitelevel_count: usize,
    /// How many black levels the calibration holds.
    pub blacklevel_count: usize,
    pub cfa_width: usize,
    pub cfa_height: usize,
}

impl RawLayout {
    /// The active area, or the whole sensor where none is given.
    pub open spec fn area(self) -> Rect {
        match self.active_area {
            Some(area) => area,
            None => Rect { x: 0, y: 0, w: self.width, h: self.height },
        }
    }

    /// The active area lies on the sensor, there is one white level for each
    /// component, and there is one black level for each component, or one
    /// for each component of each cell of the colour filter pattern.
    pub open spec fn valid(self) -> bool {
        &&& self.area().x + self.area().w <= self.width
        &&& self.area().y + self.area().h <= self.height
        &&& self.whitelevel_count == self.cpp
        &&& (self.blacklevel_count == self.cpp || self.blacklevel_count == self.cfa_width * self.cfa_height
            * self.cpp)
    }

    /// Whether the image can be laid out as the writer expects.
    pub fn is_valid(&self) -> (r: bool)
        ensures
            r == self.valid(),
    {
        let area: Rect = match self.active_area {
            Some(area) => area,
            None => Rect { x: 0, y: 0, w: self.width, h: self.height },
        };
        let fits_across: bool = match area.x.checked_add(area.w) {
            Some(right) => right <= self.width,
            None => false,
        };
        let fits_down: bool = match area.y.checked_add(area.h) {
            Some(bottom) => bottom <= self.height,
            None => false,
        };
        fits_across && fits_down && self.whitelevel_count == self.cpp && (self.blacklevel_count == self.cpp
            || is_product(self.blacklevel_count, self.cfa_width, self.cfa_height, self.cpp))
    }
}

/// The name under which the program signs a file: its name, ` v` and its
/// version.
pub fn program_description(name: &str, version: &str) -> (r: String)
    ensures
        r@ == name@ + " v"@ + version@,
{
    let mut description: String = name.to_owned();
    description.append(" v");
    description.append(version);
    description
}

} // verus!
