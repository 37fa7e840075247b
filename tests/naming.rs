use smufl::naming::{identifier_from_pascal, variant_name};

fn check(name: &str, expected: &str) {
    assert_eq!(variant_name(name), expected);
}

#[test]
fn variant_name_number_suffixes() {
    check("flag8thDown", "Flag8thDown");
    check("flag16thDown", "Flag16thDown");
    check("flag32ndDown", "Flag32ndDown");
    check("flag64thDown", "Flag64thDown");
    check("flag128thDown", "Flag128thDown");
    check("flag256thDown", "Flag256thDown");
    check("flag512thDown", "Flag512thDown");
}

#[test]
fn variant_name_leading_digit() {
    check("4stringTabClef", "_4StringTabClef");
    check("6stringTabClef", "_6StringTabClef");
}

#[test]
fn variant_name_plain() {
    check("noteheadBlack", "NoteheadBlack");
    check("gClef", "GClef");
}

#[test]
fn pascal_form_ordinals_fixed_everywhere() {
    assert_eq!(identifier_from_pascal("Flag8ThDown"), "Flag8thDown");
    assert_eq!(identifier_from_pascal("Flag32NdDown"), "Flag32ndDown");
    assert_eq!(identifier_from_pascal("A8ThB16ThC"), "A8thB16thC");
}

#[test]
fn pascal_form_ordinal_needs_digit_and_second_letter() {
    assert_eq!(identifier_from_pascal("NoteheadThin"), "NoteheadThin");
    assert_eq!(identifier_from_pascal("Tuplet3Tied"), "Tuplet3Tied");
    assert_eq!(identifier_from_pascal("Rest8Th"), "Rest8th");
    assert_eq!(identifier_from_pascal("Rest8T"), "Rest8T");
}

#[test]
fn pascal_form_leading_non_letter() {
    assert_eq!(identifier_from_pascal("4StringTabClef"), "_4StringTabClef");
    assert_eq!(identifier_from_pascal("8ThNote"), "_8thNote");
    assert_eq!(identifier_from_pascal(""), "");
}
