//! The metadata document of a SMuFL font, and its merge with fallback
//! values.
use vstd::prelude::*;
use crate::engraving_defaults::{lemma_engraving_merge_idempotent, EngravingDefaults};
use crate::glyph::GlyphKey;
use crate::glyph_data::{merge_maps, name_views, sorted_unique, strictly_ascending, GlyphData};
use crate::text::seq_items;
use crate::values::{Anchors, BoundingBox, StaffSpaces};

verus! {

/// Advance widths of glyphs.
pub type GlyphAdvanceWidths = GlyphData<StaffSpaces>;

/// Anchor points of glyphs.
pub type GlyphAnchors = GlyphData<Anchors>;

/// Bounding boxes of glyphs.
pub type GlyphBoundingBoxes = GlyphData<BoundingBox>;

/// The metadata that comes with a SMuFL font.
#[derive(Debug)]
pub struct Metadata {
    /// The name of the font to which the metadata applies.
    pub font_name: String,
    /// Recommended defaults for line widths and spacings.
    pub engraving_defaults: EngravingDefaults,
    /// Advance widths for glyphs.
    pub advance_widths: GlyphAdvanceWidths,
    /// Anchor data for glyphs.
    pub anchors: GlyphAnchors,
    /// Bounding boxes for glyphs.
    pub bounding_boxes: GlyphBoundingBoxes,
}

/// `s` is the name of a key that no known glyph has, in one of the three
/// per-glyph maps of `m`.
pub open spec fn is_unknown_name(m: Metadata, s: Seq<char>) -> bool {
    ||| m.advance_widths@.contains_key(GlyphKey::Unknown(s))
    ||| m.anchors@.contains_key(GlyphKey::Unknown(s))
    ||| m.bounding_boxes@.contains_key(GlyphKey::Unknown(s))
}

impl Metadata {
    /// Combines `self` and `defaults`: the font name of `self`, and for every
    /// engraving default and every glyph of each map the value of `self`
    /// where it has one, else that of `defaults`.
    pub fn with_defaults(self, defaults: Metadata) -> (r: Metadata)
        ensures
            r.font_name == self.font_name,
            r.engraving_defaults == self.engraving_defaults.merged(defaults.engraving_defaults),
            r.advance_widths@ == merge_maps(self.advance_widths@, defaults.advance_widths@),
            r.anchors@ == merge_maps(self.anchors@, defaults.anchors@),
            r.bounding_boxes@ == merge_maps(self.bounding_boxes@, defaults.bounding_boxes@),
    {
        Metadata {
            font_name: self.font_name,
            engraving_defaults: self.engraving_defaults.with_defaults(defaults.engraving_defaults),
            advance_widths: self.advance_widths.with_defaults(defaults.advance_widths),
            anchors: self.anchors.with_defaults(defaults.anchors),
            bounding_boxes: self.bounding_boxes.with_defaults(defaults.bounding_boxes),
        }
    }

    /// The names of the glyph keys, over all three per-glyph maps, that are
    /// no known glyph: each once, in ascending order. This is the batch to
    /// report after decoding.
    pub fn unknown_glyphs(&self) -> (r: Vec<String>)
        ensures
            strictly_ascending(name_views(r@)),
            forall|s: Seq<char>|
                #![trigger name_views(r@).contains(s)]
                name_views(r@).contains(s) <==> is_unknown_name(*self, s),
    {
        let mut names = self.advance_widths.unknown_names();
        let mut anchors = self.anchors.unknown_names();
        let mut boxes = self.bounding_boxes.unknown_names();
        let ghost a = name_views(names@);
        let ghost b = name_views(anchors@);
        let ghost c = name_views(boxes@);
        names.append(&mut anchors);
        names.append(&mut boxes);
        let r = sorted_unique(names);
        proof {
            assert(name_views(names@) =~= a + b + c);
            assert forall|s: Seq<char>|
                #![trigger name_views(r@).contains(s)]
                name_views(r@).contains(s) <==> is_unknown_name(*self, s) by {
                assert(seq_items(name_views(r@)).contains(s) == seq_items(name_views(names@)).contains(s));
                assert(a.contains(s) ==> (a + b + c).contains(s)) by {
                    if a.contains(s) {
                        let i = choose|i: int| 0 <= i < a.len() && a[i] == s;
                        assert((a + b + c)[i] == s);
                    }
                }
                assert(b.contains(s) ==> (a + b + c).contains(s)) by {
                    if b.contains(s) {
                        let i = choose|i: int| 0 <= i < b.len() && b[i] == s;
                        assert((a + b + c)[a.len() + i] == s);
                    }
                }
                assert(c.contains(s) ==> (a + b + c).contains(s)) by {
                    if c.contains(s) {
                        let i = choose|i: int| 0 <= i < c.len() && c[i] == s;
                        assert((a + b + c)[a.len() + b.len() + i] == s);
                    }
                }
                assert((a + b + c).contains(s) ==> a.contains(s) || b.contains(s) || c.contains(s)) by {
                    if (a + b + c).contains(s) {
                        let i = choose|i: int| 0 <= i < (a + b + c).len() && (a + b + c)[i] == s;
                        if i < a.len() {
                            assert(a[i] == s);
                        } else if i < a.len() + b.len() {
                            assert(b[i - a.len()] == s);
                        } else {
                            assert(c[i - a.len() - b.len()] == s);
                        }
                    }
                }
            }
        }
        r
    }
}

/// Merging metadata with itself as the fallback changes nothing: the
/// engraving defaults and all three per-glyph maps are those of `m`.
pub proof fn lemma_with_defaults_idempotent(m: Metadata)
    ensures
        m.engraving_defaults.merged(m.engraving_defaults) == m.engraving_defaults,
        merge_maps(m.advance_widths@, m.advance_widths@) == m.advance_widths@,
        merge_maps(m.anchors@, m.anchors@) == m.anchors@,
        merge_maps(m.bounding_boxes@, m.bounding_boxes@) == m.bounding_boxes@,
{
    lemma_engraving_merge_idempotent(m.engraving_defaults);
    assert(merge_maps(m.advance_widths@, m.advance_widths@) =~= m.advance_widths@);
    assert(merge_maps(m.anchors@, m.anchors@) =~= m.anchors@);
    assert(merge_maps(m.bounding_boxes@, m.bounding_boxes@) =~= m.bounding_boxes@);
}

} // verus!
