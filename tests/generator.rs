use smufl::generator::{
    alternate_codepoint_arm_line, codepoint_arm_line, doc_annotation, generate, glyph_variants,
    rename_annotation,
};
use smufl::registry::{Codepoint, Glyph};

fn entry(name: &str, cp: char, alt: Option<char>, description: &str) -> (String, Glyph) {
    (
        name.to_owned(),
        Glyph {
            codepoint: Codepoint(cp),
            alternate_codepoint: alt.map(Codepoint),
            description: description.to_owned(),
        },
    )
}

fn registry() -> Vec<(String, Glyph)> {
    vec![
        entry("noteheadBlack", '\u{E0A4}', Some('\u{1D158}'), "Black notehead"),
        entry("4stringTabClef", '\u{E06E}', None, "4-string tab clef"),
        entry("flag8thUp", '\u{E240}', Some('\u{1D16E}'), "Combining flag 1 [8th] above"),
    ]
}

#[test]
fn doc_annotation_escapes_brackets() {
    assert_eq!(doc_annotation("Flag [8th] up"), "/// Flag \\[8th\\] up");
    assert_eq!(doc_annotation(""), "/// ");
}

#[test]
fn rename_annotation_names_registry_entry() {
    assert_eq!(rename_annotation("flag8thUp"), "#[serde(rename = \"flag8thUp\")]");
}

#[test]
fn codepoint_arms() {
    assert_eq!(
        codepoint_arm_line("NoteheadBlack", Codepoint('\u{E0A4}')),
        "Self::NoteheadBlack => '\\u{e0a4}',"
    );
    assert_eq!(
        alternate_codepoint_arm_line("NoteheadBlack", Some(Codepoint('a'))),
        "Self::NoteheadBlack => Some('a'),"
    );
    assert_eq!(
        alternate_codepoint_arm_line("NoteheadBlack", None),
        "Self::NoteheadBlack => None,"
    );
}

#[test]
fn variants_sorted_by_identifier() {
    let variants = glyph_variants(registry());
    let identifiers: Vec<&str> = variants.iter().map(|v| v.identifier.as_str()).collect();
    assert_eq!(identifiers, ["Flag8thUp", "NoteheadBlack", "_4StringTabClef"]);
    let names: Vec<&str> = variants.iter().map(|v| v.name.as_str()).collect();
    assert_eq!(names, ["flag8thUp", "noteheadBlack", "4stringTabClef"]);
    assert_eq!(variants[1].glyph.codepoint, Codepoint('\u{E0A4}'));
}

#[test]
fn variants_independent_of_input_order() {
    let mut reversed = registry();
    reversed.reverse();
    let a: Vec<String> = glyph_variants(registry()).into_iter().map(|v| v.identifier).collect();
    let b: Vec<String> = glyph_variants(reversed).into_iter().map(|v| v.identifier).collect();
    assert_eq!(a, b);
}

#[test]
fn generate_emits_enum_and_accessors() {
    let code = generate(registry());
    assert!(code.contains("pub enum Glyph"));
    assert!(code.contains("#[derive(Clone, Copy, Debug, Deserialize, Eq, Hash, PartialEq)]"));
    assert!(code.contains("use serde::Deserialize;"));
    assert!(code.contains("impl Glyph"));
    assert!(code.contains("/// Combining flag 1 \\[8th\\] above"));
    assert!(code.contains("#[serde(rename = \"flag8thUp\")]"));
    assert!(code.contains("pub fn codepoint(&self) -> char"));
    assert!(code.contains("pub fn alternate_codepoint(&self) -> Option<char>"));
    assert!(code.contains("Self::NoteheadBlack => '\\u{e0a4}',"));
    assert!(code.contains("Self::_4StringTabClef => None,"));
    let flag = code.find("Flag8thUp,").unwrap();
    let black = code.find("NoteheadBlack,").unwrap();
    let tab = code.find("_4StringTabClef,").unwrap();
    assert!(flag < black && black < tab);
}
