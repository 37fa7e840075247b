use serde_json::Value;
use smufl::{
    Anchors, BoundingBox, Coord, EngravingDefaults, Glyph, GlyphData, GlyphOrUnknown, Metadata,
    StaffSpaces,
};

fn ss(v: f64) -> StaffSpaces {
    StaffSpaces(v.to_bits())
}

fn number(v: &Value) -> StaffSpaces {
    ss(v.as_f64().unwrap())
}

fn coord(v: &Value) -> Coord {
    Coord(number(&v[0]), number(&v[1]))
}

fn keyed<T>(v: &Value, field: &str, value: impl Fn(&Value) -> T) -> GlyphData<T> {
    let pairs = match v.get(field).and_then(Value::as_object) {
        Some(map) => map.iter().map(|(name, item)| (name.clone(), value(item))).collect(),
        None => Vec::new(),
    };
    GlyphData::from_names(pairs)
}

fn decode(text: &str) -> Metadata {
    let v: Value = serde_json::from_str(text).unwrap();
    let mut engraving_defaults = EngravingDefaults::default();
    engraving_defaults.staff_line_thickness =
        v["engravingDefaults"].get("staffLineThickness").map(number);
    Metadata {
        font_name: v["fontName"].as_str().unwrap().to_owned(),
        engraving_defaults,
        advance_widths: keyed(&v, "glyphAdvanceWidths", number),
        anchors: keyed(&v, "glyphsWithAnchors", |a| Anchors {
            stem_up_se: a.get("stemUpSE").map(coord),
            ..Anchors::default()
        }),
        bounding_boxes: keyed(&v, "glyphBBoxes", |b| BoundingBox {
            ne: coord(&b["bBoxNE"]),
            sw: coord(&b["bBoxSW"]),
        }),
    }
}

const BRAVURA: &str = r#"{
    "fontName": "Bravura",
    "fontVersion": 1.392,
    "engravingDefaults": {"staffLineThickness": 0.13, "stemThickness": 0.12},
    "glyphAdvanceWidths": {"noteheadWhole": 1.688, "noteheadBlack": 1.18},
    "glyphsWithAnchors": {"noteheadBlack": {"stemUpSE": [1.18, 0.168], "stemDownNW": [0.0, -0.168]}},
    "glyphBBoxes": {
        "noteheadBlack": {"bBoxNE": [1.18, 0.5], "bBoxSW": [0.0, -0.5]},
        "noteheadWhole": {"bBoxNE": [1.688, 0.532], "bBoxSW": [0.0, -0.54]}
    }
}"#;

fn metadata(name: &str, value: f64) -> Metadata {
    let mut engraving_defaults = EngravingDefaults::default();
    engraving_defaults.staff_line_thickness = Some(ss(value));
    let mut advance_widths = GlyphData::new();
    advance_widths.insert(GlyphOrUnknown::Glyph(Glyph::NoteheadBlack), ss(value));
    let mut anchors = GlyphData::new();
    anchors.insert(
        GlyphOrUnknown::Glyph(Glyph::NoteheadBlack),
        Anchors {
            split_stem_up_se: Some(Coord(ss(value), ss(value))),
            ..Anchors::default()
        },
    );
    let mut bounding_boxes = GlyphData::new();
    bounding_boxes.insert(
        GlyphOrUnknown::Glyph(Glyph::NoteheadBlack),
        BoundingBox {
            ne: Coord(ss(value), ss(value)),
            sw: Coord(ss(value), ss(value)),
        },
    );
    Metadata {
        font_name: name.to_owned(),
        engraving_defaults,
        advance_widths,
        anchors,
        bounding_boxes,
    }
}

fn empty() -> Metadata {
    Metadata {
        font_name: "Empty".to_owned(),
        engraving_defaults: EngravingDefaults::default(),
        advance_widths: GlyphData::default(),
        anchors: GlyphData::default(),
        bounding_boxes: GlyphData::default(),
    }
}

#[test]
fn bravura_excerpt_through_from_names() {
    let m = decode(BRAVURA);
    assert_eq!(m.font_name, "Bravura");
    assert_eq!(m.engraving_defaults.staff_line_thickness, Some(ss(0.13)));
    assert_eq!(m.advance_widths.try_get(Glyph::NoteheadWhole), Some(ss(1.688)));
    assert_eq!(
        m.anchors.try_get(Glyph::NoteheadBlack).and_then(|a| a.stem_up_se),
        Some(Coord(ss(1.18), ss(0.168)))
    );
    assert_eq!(
        m.bounding_boxes.get(Glyph::NoteheadBlack),
        BoundingBox {
            ne: Coord(ss(1.18), ss(0.5)),
            sw: Coord(ss(0.0), ss(-0.5)),
        }
    );
    assert!(m.unknown_glyphs().is_empty());
}

#[test]
fn one_unknown_bounding_box_key_reported() {
    let m = decode(
        r#"{
            "fontName": "Test",
            "glyphBBoxes": {
                "noteheadBlack": {"bBoxNE": [1.18, 0.5], "bBoxSW": [0.0, -0.5]},
                "noteheadFromTheFuture": {"bBoxNE": [1.0, 1.0], "bBoxSW": [0.0, 0.0]}
            }
        }"#,
    );
    assert_eq!(m.unknown_glyphs(), ["noteheadFromTheFuture"]);
    assert!(m.bounding_boxes.try_get(Glyph::NoteheadBlack).is_some());
}

#[test]
fn unknown_glyphs_across_maps_once_sorted() {
    let mut m = empty();
    m.advance_widths.insert(GlyphOrUnknown::Unknown("b".to_owned()), ss(1.0));
    m.anchors.insert(GlyphOrUnknown::Unknown("a".to_owned()), Anchors::default());
    m.bounding_boxes.insert(
        GlyphOrUnknown::Unknown("b".to_owned()),
        BoundingBox { ne: Coord(ss(1.0), ss(1.0)), sw: Coord(ss(0.0), ss(0.0)) },
    );
    m.bounding_boxes.insert(
        GlyphOrUnknown::Glyph(Glyph::GClef),
        BoundingBox { ne: Coord(ss(1.0), ss(1.0)), sw: Coord(ss(0.0), ss(0.0)) },
    );
    assert_eq!(m.unknown_glyphs(), ["a", "b"]);
}

#[test]
fn with_defaults_primary_empty() {
    let defaults = metadata("Defaults", 2.0);
    let merged = empty().with_defaults(metadata("Defaults", 2.0));
    assert_eq!(merged.font_name, "Empty");
    assert_eq!(
        merged.engraving_defaults.staff_line_thickness,
        defaults.engraving_defaults.staff_line_thickness
    );
    assert_eq!(
        merged.advance_widths.get(Glyph::NoteheadBlack),
        defaults.advance_widths.get(Glyph::NoteheadBlack)
    );
    assert_eq!(
        merged.anchors.get(Glyph::NoteheadBlack),
        defaults.anchors.get(Glyph::NoteheadBlack)
    );
    assert_eq!(
        merged.bounding_boxes.get(Glyph::NoteheadBlack),
        defaults.bounding_boxes.get(Glyph::NoteheadBlack)
    );
}

#[test]
fn with_defaults_primary_non_empty() {
    let non_empty = metadata("Defaults", 1.0);
    let merged = metadata("Defaults", 1.0).with_defaults(metadata("Defaults", 2.0));
    assert_eq!(merged.font_name, non_empty.font_name);
    assert_eq!(
        merged.engraving_defaults.staff_line_thickness,
        non_empty.engraving_defaults.staff_line_thickness
    );
    assert_eq!(
        merged.advance_widths.get(Glyph::NoteheadBlack),
        non_empty.advance_widths.get(Glyph::NoteheadBlack)
    );
    assert_eq!(
        merged.anchors.get(Glyph::NoteheadBlack),
        non_empty.anchors.get(Glyph::NoteheadBlack)
    );
    assert_eq!(
        merged.bounding_boxes.get(Glyph::NoteheadBlack),
        non_empty.bounding_boxes.get(Glyph::NoteheadBlack)
    );
}

#[test]
fn with_defaults_itself_unchanged() {
    let merged = metadata("Self", 3.0).with_defaults(metadata("Self", 3.0));
    assert_eq!(merged.font_name, "Self");
    assert_eq!(merged.engraving_defaults.staff_line_thickness, Some(ss(3.0)));
    assert_eq!(merged.engraving_defaults.stem_thickness, None);
    assert_eq!(merged.advance_widths.try_get(Glyph::NoteheadBlack), Some(ss(3.0)));
    assert_eq!(merged.advance_widths.try_get(Glyph::NoteheadWhole), None);
}

#[test]
fn with_defaults_fills_missing_fields_and_fonts() {
    let mut primary = empty();
    primary.engraving_defaults.stem_thickness = Some(ss(0.12));
    let mut fallback = metadata("Fallback", 2.0);
    fallback.engraving_defaults.stem_thickness = Some(ss(0.5));
    fallback.engraving_defaults.text_font_family = vec!["serif".to_owned()];
    let merged = primary.with_defaults(fallback);
    assert_eq!(merged.engraving_defaults.stem_thickness, Some(ss(0.12)));
    assert_eq!(merged.engraving_defaults.staff_line_thickness, Some(ss(2.0)));
    assert_eq!(merged.engraving_defaults.text_font_family, ["serif"]);
}
