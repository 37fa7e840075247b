//! Glyph keys: a known glyph of the enumeration, or a name it does not hold.
use vstd::prelude::*;
use crate::text::same_text;

verus! {

/// SMuFL glyphs known to this library, each tied to its registry name.
///
/// This is a part of the SMuFL registry; a metadata key naming any other
/// glyph is kept as an unknown key (`GlyphOrUnknown::Unknown`).
#[derive(Clone, Copy, Debug, PartialEq, Eq, Hash, Structural)]
pub enum Glyph {
    /// Double whole note (breve)
    NoteheadDoubleWhole,
    /// Whole (semibreve)
    NoteheadWhole,
    /// Half (minim)
    NoteheadHalf,
    /// Black notehead
    NoteheadBlack,
    /// Combining flag 1 (8th) above
    Flag8thUp,
    /// Combining flag 1 (8th) below
    Flag8thDown,
    /// Combining flag 2 (16th) above
    Flag16thUp,
    /// Combining flag 2 (16th) below
    Flag16thDown,
    /// G clef
    GClef,
    /// C clef
    CClef,
    /// F clef
    FClef,
    /// Flat
    AccidentalFlat,
    /// Natural
    AccidentalNatural,
    /// Sharp
    AccidentalSharp,
    /// Whole (semibreve) rest
    RestWhole,
    /// Half (minim) rest
    RestHalf,
    /// Quarter (crotchet) rest
    RestQuarter,
    /// Eighth (quaver) rest
    Rest8th,
}

/// The registry name of `g`.
pub open spec fn registry_name(g: Glyph) -> Seq<char> {
    match g {
        Glyph::NoteheadDoubleWhole => "noteheadDoubleWhole"@,
        Glyph::NoteheadWhole => "noteheadWhole"@,
        Glyph::NoteheadHalf => "noteheadHalf"@,
        Glyph::NoteheadBlack => "noteheadBlack"@,
        Glyph::Flag8thUp => "flag8thUp"@,
        Glyph::Flag8thDown => "flag8thDown"@,
        Glyph::Flag16thUp => "flag16thUp"@,
        Glyph::Flag16thDown => "flag16thDown"@,
        Glyph::GClef => "gClef"@,
        Glyph::CClef => "cClef"@,
        Glyph::FClef => "fClef"@,
        Glyph::AccidentalFlat => "accidentalFlat"@,
        Glyph::AccidentalNatural => "accidentalNatural"@,
        Glyph::AccidentalSharp => "accidentalSharp"@,
        Glyph::RestWhole => "restWhole"@,
        Glyph::RestHalf => "restHalf"@,
        Glyph::RestQuarter => "restQuarter"@,
        Glyph::Rest8th => "rest8th"@,
    }
}

/// The glyph that the table of registry names gives `name`, if any.
pub open spec fn glyph_named(name: Seq<char>) -> Option<Glyph> {
    if name == "noteheadDoubleWhole"@ {
        Some(Glyph::NoteheadDoubleWhole)
    } else if name == "noteheadWhole"@ {
        Some(Glyph::NoteheadWhole)
    } else if name == "noteheadHalf"@ {
        Some(Glyph::NoteheadHalf)
    } else if name == "noteheadBlack"@ {
        Some(Glyph::NoteheadBlack)
    } else if name == "flag8thUp"@ {
        Some(Glyph::Flag8thUp)
    } else if name == "flag8thDown"@ {
        Some(Glyph::Flag8thDown)
    } else if name == "flag16thUp"@ {
        Some(Glyph::Flag16thUp)
    } else if name == "flag16thDown"@ {
        Some(Glyph::Flag16thDown)
    } else if name == "gClef"@ {
        Some(Glyph::GClef)
    } else if name == "cClef"@ {
        Some(Glyph::CClef)
    } else if name == "fClef"@ {
        Some(Glyph::FClef)
    } else if name == "accidentalFlat"@ {
        Some(Glyph::AccidentalFlat)
    } else if name == "accidentalNatural"@ {
        Some(Glyph::AccidentalNatural)
    } else if name == "accidentalSharp"@ {
        Some(Glyph::AccidentalSharp)
    } else if name == "restWhole"@ {
        Some(Glyph::RestWhole)
    } else if name == "restHalf"@ {
        Some(Glyph::RestHalf)
    } else if name == "restQuarter"@ {
        Some(Glyph::RestQuarter)
    } else if name == "rest8th"@ {
        Some(Glyph::Rest8th)
    } else {
        None
    }
}

impl Glyph {
    /// The registry name of the glyph, such as `noteheadBlack`.
    pub fn name(&self) -> (r: &'static str)
        ensures
            r@ == registry_name(*self),
    {
        match self {
            Glyph::NoteheadDoubleWhole => "noteheadDoubleWhole",
            Glyph::NoteheadWhole => "noteheadWhole",
            Glyph::NoteheadHalf => "noteheadHalf",
            Glyph::NoteheadBlack => "noteheadBlack",
            Glyph::Flag8thUp => "flag8thUp",
            Glyph::Flag8thDown => "flag8thDown",
            Glyph::Flag16thUp => "flag16thUp",
            Glyph::Flag16thDown => "flag16thDown",
            Glyph::GClef => "gClef",
            Glyph::CClef => "cClef",
            Glyph::FClef => "fClef",
            Glyph::AccidentalFlat => "accidentalFlat",
            Glyph::AccidentalNatural => "accidentalNatural",
            Glyph::AccidentalSharp => "accidentalSharp",
            Glyph::RestWhole => "restWhole",
            Glyph::RestHalf => "restHalf",
            Glyph::RestQuarter => "restQuarter",
            Glyph::Rest8th => "rest8th",
        }
    }

    /// The glyph whose registry name is `name`, if there is one.
    pub fn from_name(name: &str) -> (r: Option<Glyph>)
        ensures
            r == glyph_named(name@),
            r matches Some(g) ==> registry_name(g) == name@,
            r is None ==> forall|g: Glyph| registry_name(g) != name@,
    {
        resolve(name)
    }
}

fn resolve(name: &str) -> (r: Option<Glyph>)
    ensures
        r == glyph_named(name@),
        r matches Some(g) ==> registry_name(g) == name@,
        r is None ==> forall|g: Glyph| registry_name(g) != name@,
{
    if same_text(name, "noteheadDoubleWhole") {
        return Some(Glyph::NoteheadDoubleWhole);
    }
    if same_text(name, "noteheadWhole") {
        return Some(Glyph::NoteheadWhole);
    }
    if same_text(name, "noteheadHalf") {
        return Some(Glyph::NoteheadHalf);
    }
    if same_text(name, "noteheadBlack") {
        return Some(Glyph::NoteheadBlack);
    }
    if same_text(name, "flag8thUp") {
        return Some(Glyph::Flag8thUp);
    }
    if same_text(name, "flag8thDown") {
        return Some(Glyph::Flag8thDown);
    }
    if same_text(name, "flag16thUp") {
        return Some(Glyph::Flag16thUp);
    }
    if same_text(name, "flag16thDown") {
        return Some(Glyph::Flag16thDown);
    }
    if same_text(name, "gClef") {
        return Some(Glyph::GClef);
    }
    if same_text(name, "cClef") {
        return Some(Glyph::CClef);
    }
    if same_text(name, "fClef") {
        return Some(Glyph::FClef);
    }
    if same_text(name, "accidentalFlat") {
        return Some(Glyph::AccidentalFlat);
    }
    if same_text(name, "accidentalNatural") {
        return Some(Glyph::AccidentalNatural);
    }
    if same_text(name, "accidentalSharp") {
        return Some(Glyph::AccidentalSharp);
    }
    if same_text(name, "restWhole") {
        return Some(Glyph::RestWhole);
    }
    if same_text(name, "restHalf") {
        return Some(Glyph::RestHalf);
    }
    if same_text(name, "restQuarter") {
        return Some(Glyph::RestQuarter);
    }
    if same_text(name, "rest8th") {
        return Some(Glyph::Rest8th);
    }
    None
}

/// A glyph key as the contracts see it: a known glyph, or the characters of
/// a name that resolved to none.
pub enum GlyphKey {
    Known(Glyph),
    Unknown(Seq<char>),
}

/// A key of a per-glyph map: a glyph of the enumeration, or a name that is
/// not one (a newer or older registry than this library knows).
#[derive(Clone, Debug, Hash)]
pub enum GlyphOrUnknown {
    Glyph(Glyph),
    Unknown(String),
}

impl View for GlyphOrUnknown {
    type V = GlyphKey;

    open spec fn view(&self) -> GlyphKey {
        match self {
            GlyphOrUnknown::Glyph(g) => GlyphKey::Known(*g),
            GlyphOrUnknown::Unknown(s) => GlyphKey::Unknown(s@),
        }
    }
}

/// The key that a metadata document's glyph name stands for: the glyph of
/// that name, or else the name itself.
pub open spec fn key_of_name(name: Seq<char>) -> GlyphKey {
    match glyph_named(name) {
        Some(g) => GlyphKey::Known(g),
        None => GlyphKey::Unknown(name),
    }
}

impl GlyphOrUnknown {
    /// Resolves a key of a metadata document: the known glyph of that name,
    /// or else the name itself.
    pub fn from_name(name: String) -> (r: GlyphOrUnknown)
        ensures
            r@ == key_of_name(name@),
            r matches GlyphOrUnknown::Glyph(g) ==> registry_name(g) == name@,
            r matches GlyphOrUnknown::Unknown(s) ==> s@ == name@ && forall|g: Glyph|
                registry_name(g) != name@,
    {
        match resolve(name.as_str()) {
            Some(g) => GlyphOrUnknown::Glyph(g),
            None => GlyphOrUnknown::Unknown(name),
        }
    }

    /// The key for a known glyph.
    pub fn known(glyph: Glyph) -> (r: GlyphOrUnknown)
        ensures
            r@ == GlyphKey::Known(glyph),
    {
        GlyphOrUnknown::Glyph(glyph)
    }
}

impl PartialEq for GlyphOrUnknown {
    fn eq(&self, other: &GlyphOrUnknown) -> (r: bool)
        ensures
            r == (self@ == other@),
    {
        match (self, other) {
            (GlyphOrUnknown::Glyph(a), GlyphOrUnknown::Glyph(b)) => *a == *b,
            (GlyphOrUnknown::Unknown(a), GlyphOrUnknown::Unknown(b)) => {
                same_text(a.as_str(), b.as_str())
            },
            _ => false,
        }
    }
}

impl vstd::std_specs::cmp::PartialEqSpecImpl for GlyphOrUnknown {
    open spec fn obeys_eq_spec() -> bool {
        true
    }

    open spec fn eq_spec(&self, other: &GlyphOrUnknown) -> bool {
        self@ == other@
    }
}

impl Eq for GlyphOrUnknown {

}

} // verus!
