use smufl::{Glyph, GlyphData, GlyphOrUnknown, MissingGlyphData};

fn data(values: &[(GlyphOrUnknown, u64)]) -> GlyphData<u64> {
    let mut d = GlyphData::new();
    for (key, value) in values {
        d.insert(key.clone(), *value);
    }
    d
}

fn known(values: &[(Glyph, u64)]) -> GlyphData<u64> {
    let pairs: Vec<(GlyphOrUnknown, u64)> =
        values.iter().map(|(g, v)| (GlyphOrUnknown::Glyph(*g), *v)).collect();
    data(&pairs)
}

#[test]
fn try_get_empty() {
    assert_eq!(known(&[]).try_get(Glyph::NoteheadBlack), None);
}

#[test]
fn try_get_not_empty() {
    let d = known(&[(Glyph::NoteheadBlack, 1), (Glyph::NoteheadWhole, 2)]);
    assert_eq!(d.try_get(Glyph::NoteheadBlack), Some(1));
    assert_eq!(d.try_get(Glyph::NoteheadWhole), Some(2));
    assert_eq!(d.try_get(Glyph::GClef), None);
}

#[test]
fn get_absent_is_refused() {
    let d = known(&[]);
    assert!(!d.contains(Glyph::NoteheadBlack));
    assert_eq!(
        d.require(Glyph::NoteheadBlack),
        Err(MissingGlyphData { glyph: Glyph::NoteheadBlack })
    );
}

#[test]
fn get_not_empty() {
    let d = known(&[(Glyph::NoteheadBlack, 1), (Glyph::NoteheadWhole, 2)]);
    assert_eq!(d.get(Glyph::NoteheadBlack), 1);
}

#[test]
fn require_reports_glyph() {
    let d = known(&[(Glyph::NoteheadWhole, 2)]);
    assert_eq!(d.require(Glyph::NoteheadWhole), Ok(2));
    assert_eq!(
        d.require(Glyph::NoteheadBlack),
        Err(MissingGlyphData { glyph: Glyph::NoteheadBlack })
    );
}

#[test]
fn contains_glyph() {
    let d = known(&[(Glyph::NoteheadWhole, 2)]);
    assert!(d.contains(Glyph::NoteheadWhole));
    assert!(!d.contains(Glyph::NoteheadBlack));
}

#[test]
fn insert_replaces() {
    let mut d = known(&[(Glyph::NoteheadBlack, 1)]);
    d.insert(GlyphOrUnknown::Glyph(Glyph::NoteheadBlack), 5);
    assert_eq!(d.try_get(Glyph::NoteheadBlack), Some(5));
}

#[test]
fn unknown_glyphs_empty() {
    let d = known(&[]);
    assert!(d.unknown_glyphs().is_empty());
}

#[test]
fn unknown_glyphs_not_empty() {
    let d = data(&[
        (GlyphOrUnknown::Glyph(Glyph::NoteheadBlack), 1),
        (GlyphOrUnknown::Unknown("Unknown".to_owned()), 2),
    ]);
    assert_eq!(d.unknown_glyphs(), ["Unknown"]);
}

#[test]
fn unknown_glyphs_sorted_once() {
    let d = data(&[
        (GlyphOrUnknown::Unknown("zeta".to_owned()), 1),
        (GlyphOrUnknown::Unknown("alpha".to_owned()), 2),
        (GlyphOrUnknown::Glyph(Glyph::GClef), 3),
        (GlyphOrUnknown::Unknown("alpha".to_owned()), 4),
        (GlyphOrUnknown::Unknown("Beta".to_owned()), 5),
    ]);
    assert_eq!(d.unknown_glyphs(), ["Beta", "alpha", "zeta"]);
}

#[test]
fn from_name_resolves_known_names() {
    assert_eq!(
        GlyphOrUnknown::from_name("noteheadBlack".to_owned()),
        GlyphOrUnknown::Glyph(Glyph::NoteheadBlack)
    );
    assert_eq!(
        GlyphOrUnknown::from_name("noteheadBlak".to_owned()),
        GlyphOrUnknown::Unknown("noteheadBlak".to_owned())
    );
    assert_eq!(Glyph::from_name("flag8thUp"), Some(Glyph::Flag8thUp));
    assert_eq!(Glyph::Flag8thUp.name(), "flag8thUp");
    assert_eq!(Glyph::from_name(""), None);
}

#[test]
fn merge_prefers_primary() {
    let primary = data(&[
        (GlyphOrUnknown::Glyph(Glyph::NoteheadBlack), 1),
        (GlyphOrUnknown::Unknown("mine".to_owned()), 7),
    ]);
    let fallback = data(&[
        (GlyphOrUnknown::Glyph(Glyph::NoteheadBlack), 10),
        (GlyphOrUnknown::Glyph(Glyph::NoteheadWhole), 20),
        (GlyphOrUnknown::Unknown("theirs".to_owned()), 8),
    ]);
    let merged = primary.with_defaults(fallback);
    assert_eq!(merged.try_get(Glyph::NoteheadBlack), Some(1));
    assert_eq!(merged.try_get(Glyph::NoteheadWhole), Some(20));
    assert_eq!(merged.try_get(Glyph::GClef), None);
    assert_eq!(merged.unknown_glyphs(), ["mine", "theirs"]);
}

#[test]
fn from_names_resolves_and_keeps_unknown() {
    let d = GlyphData::from_names(vec![
        ("noteheadBlack".to_owned(), 1u64),
        ("someNewGlyph".to_owned(), 2),
        ("gClef".to_owned(), 3),
        ("noteheadBlack".to_owned(), 4),
    ]);
    assert_eq!(d.try_get(Glyph::NoteheadBlack), Some(4));
    assert_eq!(d.try_get(Glyph::GClef), Some(3));
    assert_eq!(d.try_get(Glyph::NoteheadWhole), None);
    assert_eq!(d.unknown_glyphs(), ["someNewGlyph"]);
}
