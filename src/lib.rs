//! SMuFL font metadata: a glyph-indexed data model with unknown-key
//! tolerance and default merging, and a generator that turns the SMuFL glyph
//! registry into a closed enumeration.
//!
//! The runtime [`Glyph`] enumeration holds a part of the SMuFL registry
//! (noteheads, flags, clefs, accidentals and rests, eighteen glyphs). Every
//! other glyph name in a font's metadata is kept as an unknown key and shows
//! up in `Metadata::unknown_glyphs`; a build that needs the whole registry
//! replaces the enumeration with the output of [`generator::generate`].
pub mod text;
pub mod naming;
pub mod registry;
mod emit;
pub mod generator;
pub mod glyph;
pub mod values;
pub mod glyph_data;
pub mod engraving_defaults;
pub mod metadata;

pub use engraving_defaults::EngravingDefaults;
pub use glyph::{Glyph, GlyphOrUnknown};
pub use glyph_data::{GlyphData, MissingGlyphData};
pub use metadata::{GlyphAdvanceWidths, GlyphAnchors, GlyphBoundingBoxes, Metadata};
pub use values::{Anchors, BoundingBox, Coord, StaffSpaces};
