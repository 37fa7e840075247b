//! Measurements in staff spaces, points, and glyph extents.
use vstd::prelude::*;

verus! {

/// A length in staff spaces, the line spacing of a five-line staff: the
/// IEEE 754 binary64 bit pattern of the number, as `f64::to_bits` gives it.
///
/// Two values are equal when their bit patterns are.
#[derive(Clone, Copy, Debug, PartialEq, Eq, Hash, Structural)]
pub struct StaffSpaces(pub u64);

/// The sign bit of a binary64 number.
pub const SIGN_BIT: u64 = 0x8000_0000_0000_0000;

impl StaffSpaces {
    /// Zero staff spaces (positive zero, all bits clear).
    pub fn zero() -> (r: StaffSpaces)
        ensures
            r.0 == 0,
    {
        StaffSpaces(0)
    }

    /// The absolute value: the same number with the sign bit cleared.
    pub fn abs(&self) -> (r: StaffSpaces)
        ensures
            r.0 == self.0 & !SIGN_BIT,
            r.0 < SIGN_BIT,
            self.0 < SIGN_BIT ==> r == *self,
            self.0 >= SIGN_BIT ==> r.0 == self.0 - SIGN_BIT,
    {
        let v = self.0;
        let bits = v & !SIGN_BIT;
        assert(bits < 0x8000_0000_0000_0000u64 && (v < 0x8000_0000_0000_0000u64 ==> bits == v) && (
        v >= 0x8000_0000_0000_0000u64 ==> bits == (v - 0x8000_0000_0000_0000u64) as u64))
            by (bit_vector)
            requires
                bits == v & !0x8000_0000_0000_0000u64,
        ;
        StaffSpaces(bits)
    }
}

/// A point: x and y coordinates in staff spaces.
#[derive(Clone, Copy, Debug, PartialEq, Eq, Structural)]
pub struct Coord(pub StaffSpaces, pub StaffSpaces);

impl Coord {
    /// The x coordinate.
    pub fn x(&self) -> (r: StaffSpaces)
        ensures
            r == self.0,
    {
        self.0
    }

    /// The y coordinate.
    pub fn y(&self) -> (r: StaffSpaces)
        ensures
            r == self.1,
    {
        self.1
    }
}

/// The smallest rectangle that encloses every part of a glyph's path.
#[derive(Clone, Copy, Debug, PartialEq, Eq, Structural)]
pub struct BoundingBox {
    /// The north-east (top right) corner.
    pub ne: Coord,
    /// The south-west (bottom left) corner.
    pub sw: Coord,
}

/// The named anchor points of a glyph, each optional.
#[derive(Clone, Copy, Debug, PartialEq, Eq, Structural)]
pub struct Anchors {
    /// The exit point for an up-stem on the right of a split stem.
    pub split_stem_up_se: Option<Coord>,
    /// The exit point for an up-stem on the left of a split stem.
    pub split_stem_up_sw: Option<Coord>,
    /// The exit point for a down-stem on the right of a split stem.
    pub split_stem_down_ne: Option<Coord>,
    /// The exit point for a down-stem on the left of a split stem.
    pub split_stem_down_nw: Option<Coord>,
    /// The bottom right corner of an up-stem rectangle.
    pub stem_up_se: Option<Coord>,
    /// The top left corner of a down-stem rectangle.
    pub stem_down_nw: Option<Coord>,
    /// The amount by which an up-stem should be lengthened from its nominal unmodified length.
    pub stem_up_nw: Option<Coord>,
    /// The amount by which a down-stem should be lengthened from its nominal unmodified length.
    pub stem_down_sw: Option<Coord>,
    /// The width in staff spaces of a glyph that is wider than its advance.
    pub nominal_width: Option<Coord>,
    /// The position above a time signature digit for a numeral.
    pub numeral_top: Option<Coord>,
    /// The position below a time signature digit for a numeral.
    pub numeral_bottom: Option<Coord>,
    /// The bottom left corner of a cut-out in the top right of the glyph.
    pub cut_out_ne: Option<Coord>,
    /// The top left corner of a cut-out in the bottom right of the glyph.
    pub cut_out_se: Option<Coord>,
    /// The top right corner of a cut-out in the bottom left of the glyph.
    pub cut_out_sw: Option<Coord>,
    /// The bottom right corner of a cut-out in the top left of the glyph.
    pub cut_out_nw: Option<Coord>,
    /// The bottom left of a grace-note slash.
    pub grace_note_slash_sw: Option<Coord>,
    /// The top right of a grace-note slash.
    pub grace_note_slash_ne: Option<Coord>,
    /// The top left of a grace-note slash.
    pub grace_note_slash_nw: Option<Coord>,
    /// The bottom right of a grace-note slash.
    pub grace_note_slash_se: Option<Coord>,
    /// The horizontal offset for a repeated glyph.
    pub repeat_offset: Option<Coord>,
    /// The origin of a notehead that is not at its left edge.
    pub notehead_origin: Option<Coord>,
    /// The optical center of a dynamic glyph.
    pub optical_center: Option<Coord>,
}

impl Default for Anchors {
    /// Anchors with no point set.
    fn default() -> (r: Anchors)
        ensures
            r.split_stem_up_se is None,
            r.split_stem_up_sw is None,
            r.split_stem_down_ne is None,
            r.split_stem_down_nw is None,
            r.stem_up_se is None,
            r.stem_down_nw is None,
            r.stem_up_nw is None,
            r.stem_down_sw is None,
            r.nominal_width is None,
            r.numeral_top is None,
            r.numeral_bottom is None,
            r.cut_out_ne is None,
            r.cut_out_se is None,
            r.cut_out_sw is None,
            r.cut_out_nw is None,
            r.grace_note_slash_sw is None,
            r.grace_note_slash_ne is None,
            r.grace_note_slash_nw is None,
            r.grace_note_slash_se is None,
            r.repeat_offset is None,
            r.notehead_origin is None,
            r.optical_center is None,
    {
        Anchors {
            split_stem_up_se: None,
            split_stem_up_sw: None,
            split_stem_down_ne: None,
            split_stem_down_nw: None,
            stem_up_se: None,
            stem_down_nw: None,
            stem_up_nw: None,
            stem_down_sw: None,
            nominal_width: None,
            numeral_top: None,
            numeral_bottom: None,
            cut_out_ne: None,
            cut_out_se: None,
            cut_out_sw: None,
            cut_out_nw: None,
            grace_note_slash_sw: None,
            grace_note_slash_ne: None,
            grace_note_slash_nw: None,
            grace_note_slash_se: None,
            repeat_offset: None,
            notehead_origin: None,
            optical_center: None,
        }
    }
}

} // verus!
