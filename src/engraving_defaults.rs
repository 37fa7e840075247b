//! The engraving defaults of a font: recommended line widths and spacings.
use vstd::prelude::*;
use crate::values::StaffSpaces;

verus! {

/// `a` where it is present, else `b`.
pub open spec fn prefer<A>(a: Option<A>, b: Option<A>) -> Option<A> {
    if a is Some {
        a
    } else {
        b
    }
}

fn pick(a: Option<StaffSpaces>, b: Option<StaffSpaces>) -> (r: Option<StaffSpaces>)
    ensures
        r == prefer(a, b),
{
    match a {
        Some(_) => a,
        None => b,
    }
}

/// Recommended defaults for line widths and spacings, each optional: an
/// absent value is one that the font does not specify.
#[derive(Clone, Debug)]
pub struct EngravingDefaults {
    /// The text font families, in descending order of preference, that pair
    /// well with this music font; generic CSS families come last.
    pub text_font_family: Vec<String>,
    /// The thickness of each staff line.
    pub staff_line_thickness: Option<StaffSpaces>,
    /// The thickness of a stem.
    pub stem_thickness: Option<StaffSpaces>,
    /// The thickness of a beam.
    pub beam_thickness: Option<StaffSpaces>,
    /// The distance between the inner edge of the primary and outer edge of
    /// subsequent secondary beams.
    pub beam_spacing: Option<StaffSpaces>,
    /// The thickness of a leger line (normally somewhat thicker than a staff
    /// line).
    pub leger_line_thickness: Option<StaffSpaces>,
    /// The amount by which a leger line should extend either side of a
    /// notehead, scaled proportionally with the notehead's size.
    pub leger_line_extension: Option<StaffSpaces>,
    /// The thickness of the end of a slur.
    pub slur_endpoint_thickness: Option<StaffSpaces>,
    /// The thickness of the mid-point of a slur (its thickest point).
    pub slur_midpoint_thickness: Option<StaffSpaces>,
    /// The thickness of the end of a tie.
    pub tie_endpoint_thickness: Option<StaffSpaces>,
    /// The thickness of the mid-point of a tie.
    pub tie_midpoint_thickness: Option<StaffSpaces>,
    /// The thickness of a thin barline, such as a normal barline or each of
    /// the lines of a double barline.
    pub thin_barline_thickness: Option<StaffSpaces>,
    /// The thickness of a thick barline, as in a final or a repeat barline.
    pub thick_barline_thickness: Option<StaffSpaces>,
    /// The thickness of a dashed barline.
    pub dashed_barline_thickness: Option<StaffSpaces>,
    /// The length of the dashes of a dashed barline.
    pub dashed_barline_dash_length: Option<StaffSpaces>,
    /// The length of the gap between dashes of a dashed barline.
    pub dashed_barline_gap_length: Option<StaffSpaces>,
    /// The default distance between thin barlines locked together, from the
    /// right-hand edge of the left barline to the left-hand edge of the right one.
    pub barline_separation: Option<StaffSpaces>,
    /// The default horizontal distance between the dots and the inner barline
    /// of a repeat barline.
    pub repeat_barline_dot_separation: Option<StaffSpaces>,
    /// The thickness of the vertical line of a bracket grouping staves.
    pub bracket_thickness: Option<StaffSpaces>,
    /// The thickness of the vertical line of a sub-bracket grouping the staves
    /// of one instrument.
    pub sub_bracket_thickness: Option<StaffSpaces>,
    /// The thickness of a crescendo or diminuendo hairpin.
    pub hairpin_thickness: Option<StaffSpaces>,
    /// The thickness of the dashed line of an octave line.
    pub octave_line_thickness: Option<StaffSpaces>,
    /// The thickness of the line used for piano pedaling.
    pub pedal_line_thickness: Option<StaffSpaces>,
    /// The thickness of the brackets that mark repeat endings.
    pub repeat_ending_line_thickness: Option<StaffSpaces>,
    /// The thickness of the shaft of an arrow.
    pub arrow_shaft_thickness: Option<StaffSpaces>,
    /// The thickness of the lyric extension line of a melisma.
    pub lyric_line_thickness: Option<StaffSpaces>,
    /// The thickness of a box drawn around text instructions.
    pub text_enclosure_thickness: Option<StaffSpaces>,
    /// The thickness of the brackets either side of tuplet numbers.
    pub tuplet_bracket_thickness: Option<StaffSpaces>,
    /// The thickness of the H-bar of a multi-bar rest.
    pub h_bar_thickness: Option<StaffSpaces>,
}

impl Default for EngravingDefaults {
    /// Engraving defaults that specify nothing.
    fn default() -> (r: EngravingDefaults)
        ensures
            r.text_font_family@.len() == 0,
            r.staff_line_thickness is None,
            r.stem_thickness is None,
            r.beam_thickness is None,
            r.beam_spacing is None,
            r.leger_line_thickness is None,
            r.leger_line_extension is None,
            r.slur_endpoint_thickness is None,
            r.slur_midpoint_thickness is None,
            r.tie_endpoint_thickness is None,
            r.tie_midpoint_thickness is None,
            r.thin_barline_thickness is None,
            r.thick_barline_thickness is None,
            r.dashed_barline_thickness is None,
            r.dashed_barline_dash_length is None,
            r.dashed_barline_gap_length is None,
            r.barline_separation is None,
            r.repeat_barline_dot_separation is None,
            r.bracket_thickness is None,
            r.sub_bracket_thickness is None,
            r.hairpin_thickness is None,
            r.octave_line_thickness is None,
            r.pedal_line_thickness is None,
            r.repeat_ending_line_thickness is None,
            r.arrow_shaft_thickness is None,
            r.lyric_line_thickness is None,
            r.text_enclosure_thickness is None,
            r.tuplet_bracket_thickness is None,
            r.h_bar_thickness is None,
    {
        EngravingDefaults {
            text_font_family: Vec::new(),
            staff_line_thickness: None,
            stem_thickness: None,
            beam_thickness: None,
            beam_spacing: None,
            leger_line_thickness: None,
            leger_line_extension: None,
            slur_endpoint_thickness: None,
            slur_midpoint_thickness: None,
            tie_endpoint_thickness: None,
            tie_midpoint_thickness: None,
            thin_barline_thickness: None,
            thick_barline_thickness: None,
            dashed_barline_thickness: None,
            dashed_barline_dash_length: None,
            dashed_barline_gap_length: None,
            barline_separation: None,
            repeat_barline_dot_separation: None,
            bracket_thickness: None,
            sub_bracket_thickness: None,
            hairpin_thickness: None,
            octave_line_thickness: None,
            pedal_line_thickness: None,
            repeat_ending_line_thickness: None,
            arrow_shaft_thickness: None,
            lyric_line_thickness: None,
            text_enclosure_thickness: None,
            tuplet_bracket_thickness: None,
            h_bar_thickness: None,
        }
    }
}

impl EngravingDefaults {
    /// `self` with every value it lacks taken from `defaults`; the font
    /// family list is that of `self` unless it is empty.
    pub open spec fn merged(self, defaults: EngravingDefaults) -> EngravingDefaults {
        EngravingDefaults {
            text_font_family: if self.text_font_family@.len() > 0 {
                self.text_font_family
            } else {
                defaults.text_font_family
            },
            staff_line_thickness: prefer(self.staff_line_thickness, defaults.staff_line_thickness),
            stem_thickness: prefer(self.stem_thickness, defaults.stem_thickness),
            beam_thickness: prefer(self.beam_thickness, defaults.beam_thickness),
            beam_spacing: prefer(self.beam_spacing, defaults.beam_spacing),
            leger_line_thickness: prefer(self.leger_line_thickness, defaults.leger_line_thickness),
            leger_line_extension: prefer(self.leger_line_extension, defaults.leger_line_extension),
            slur_endpoint_thickness: prefer(self.slur_endpoint_thickness, defaults.slur_endpoint_thickness),
            slur_midpoint_thickness: prefer(self.slur_midpoint_thickness, defaults.slur_midpoint_thickness),
            tie_endpoint_thickness: prefer(self.tie_endpoint_thickness, defaults.tie_endpoint_thickness),
            tie_midpoint_thickness: prefer(self.tie_midpoint_thickness, defaults.tie_midpoint_thickness),
            thin_barline_thickness: prefer(self.thin_barline_thickness, defaults.thin_barline_thickness),
            thick_barline_thickness: prefer(self.thick_barline_thickness, defaults.thick_barline_thickness),
            dashed_barline_thickness: prefer(self.dashed_barline_thickness, defaults.dashed_barline_thickness),
            dashed_barline_dash_length: prefer(self.dashed_barline_dash_length, defaults.dashed_barline_dash_length),
            dashed_barline_gap_length: prefer(self.dashed_barline_gap_length, defaults.dashed_barline_gap_length),
            barline_separation: prefer(self.barline_separation, defaults.barline_separation),
            repeat_barline_dot_separation: prefer(self.repeat_barline_dot_separation, defaults.repeat_barline_dot_separation),
            bracket_thickness: prefer(self.bracket_thickness, defaults.bracket_thickness),
            sub_bracket_thickness: prefer(self.sub_bracket_thickness, defaults.sub_bracket_thickness),
            hairpin_thickness: prefer(self.hairpin_thickness, defaults.hairpin_thickness),
            octave_line_thickness: prefer(self.octave_line_thickness, defaults.octave_line_thickness),
            pedal_line_thickness: prefer(self.pedal_line_thickness, defaults.pedal_line_thickness),
            repeat_ending_line_thickness: prefer(self.repeat_ending_line_thickness, defaults.repeat_ending_line_thickness),
            arrow_shaft_thickness: prefer(self.arrow_shaft_thickness, defaults.arrow_shaft_thickness),
            lyric_line_thickness: prefer(self.lyric_line_thickness, defaults.lyric_line_thickness),
            text_enclosure_thickness: prefer(self.text_enclosure_thickness, defaults.text_enclosure_thickness),
            tuplet_bracket_thickness: prefer(self.tuplet_bracket_thickness, defaults.tuplet_bracket_thickness),
            h_bar_thickness: prefer(self.h_bar_thickness, defaults.h_bar_thickness),
        }
    }

    /// Combines `self` and `defaults`, using the values of `defaults`
    /// wherever `self` has none.
    pub fn with_defaults(self, defaults: EngravingDefaults) -> (r: EngravingDefaults)
        ensures
            r == self.merged(defaults),
    {
        let text_font_family = if self.text_font_family.len() > 0 {
            self.text_font_family
        } else {
            defaults.text_font_family
        };
        EngravingDefaults {
            text_font_family,
            staff_line_thickness: pick(self.staff_line_thickness, defaults.staff_line_thickness),
            stem_thickness: pick(self.stem_thickness, defaults.stem_thickness),
            beam_thickness: pick(self.beam_thickness, defaults.beam_thickness),
            beam_spacing: pick(self.beam_spacing, defaults.beam_spacing),
            leger_line_thickness: pick(self.leger_line_thickness, defaults.leger_line_thickness),
            leger_line_extension: pick(self.leger_line_extension, defaults.leger_line_extension),
            slur_endpoint_thickness: pick(self.slur_endpoint_thickness, defaults.slur_endpoint_thickness),
            slur_midpoint_thickness: pick(self.slur_midpoint_thickness, defaults.slur_midpoint_thickness),
            tie_endpoint_thickness: pick(self.tie_endpoint_thickness, defaults.tie_endpoint_thickness),
            tie_midpoint_thickness: pick(self.tie_midpoint_thickness, defaults.tie_midpoint_thickness),
            thin_barline_thickness: pick(self.thin_barline_thickness, defaults.thin_barline_thickness),
            thick_barline_thickness: pick(self.thick_barline_thickness, defaults.thick_barline_thickness),
            dashed_barline_thickness: pick(self.dashed_barline_thickness, defaults.dashed_barline_thickness),
            dashed_barline_dash_length: pick(self.dashed_barline_dash_length, defaults.dashed_barline_dash_length),
            dashed_barline_gap_length: pick(self.dashed_barline_gap_length, defaults.dashed_barline_gap_length),
            barline_separation: pick(self.barline_separation, defaults.barline_separation),
            repeat_barline_dot_separation: pick(self.repeat_barline_dot_separation, defaults.repeat_barline_dot_separation),
            bracket_thickness: pick(self.bracket_thickness, defaults.bracket_thickness),
            sub_bracket_thickness: pick(self.sub_bracket_thickness, defaults.sub_bracket_thickness),
            hairpin_thickness: pick(self.hairpin_thickness, defaults.hairpin_thickness),
            octave_line_thickness: pick(self.octave_line_thickness, defaults.octave_line_thickness),
            pedal_line_thickness: pick(self.pedal_line_thickness, defaults.pedal_line_thickness),
            repeat_ending_line_thickness: pick(self.repeat_ending_line_thickness, defaults.repeat_ending_line_thickness),
            arrow_shaft_thickness: pick(self.arrow_shaft_thickness, defaults.arrow_shaft_thickness),
            lyric_line_thickness: pick(self.lyric_line_thickness, defaults.lyric_line_thickness),
            text_enclosure_thickness: pick(self.text_enclosure_thickness, defaults.text_enclosure_thickness),
            tuplet_bracket_thickness: pick(self.tuplet_bracket_thickness, defaults.tuplet_bracket_thickness),
            h_bar_thickness: pick(self.h_bar_thickness, defaults.h_bar_thickness),
        }
    }
}

/// Merging engraving defaults with themselves changes nothing.
pub proof fn lemma_engraving_merge_idempotent(e: EngravingDefaults)
    ensures
        e.merged(e) == e,
{
}

} // verus!
