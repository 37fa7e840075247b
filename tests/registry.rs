use smufl::registry::{Codepoint, CodepointError};

#[test]
fn codepoint_parses_private_use() {
    assert_eq!(Codepoint::parse("U+E0A4"), Ok(Codepoint('\u{E0A4}')));
    assert_eq!(Codepoint::parse("U+e0a4"), Ok(Codepoint('\u{E0A4}')));
}

#[test]
fn codepoint_parses_musical_symbols() {
    assert_eq!(Codepoint::parse("U+1D158"), Ok(Codepoint('\u{1D158}')));
    assert_eq!(Codepoint::parse("U+10FFFF"), Ok(Codepoint('\u{10FFFF}')));
}

#[test]
fn codepoint_missing_prefix() {
    assert_eq!(Codepoint::parse("E0A4"), Err(CodepointError::MissingPrefix));
    assert_eq!(Codepoint::parse("u+E0A4"), Err(CodepointError::MissingPrefix));
    assert_eq!(Codepoint::parse(""), Err(CodepointError::MissingPrefix));
}

#[test]
fn codepoint_invalid_hex() {
    assert_eq!(Codepoint::parse("U+"), Err(CodepointError::InvalidHex));
    assert_eq!(Codepoint::parse("U+E0G4"), Err(CodepointError::InvalidHex));
    assert_eq!(Codepoint::parse("U++E0A4"), Err(CodepointError::InvalidHex));
    assert_eq!(Codepoint::parse("U+FFFFFFFFFFZ"), Err(CodepointError::InvalidHex));
}

#[test]
fn codepoint_not_scalar() {
    assert_eq!(Codepoint::parse("U+D800"), Err(CodepointError::NotScalarValue));
    assert_eq!(Codepoint::parse("U+110000"), Err(CodepointError::NotScalarValue));
    assert_eq!(Codepoint::parse("U+FFFFFFFFFFFF"), Err(CodepointError::NotScalarValue));
}

#[test]
fn codepoint_literal() {
    assert_eq!(Codepoint('\u{E0A4}').literal(), "'\\u{e0a4}'");
    assert_eq!(Codepoint('a').literal(), "'a'");
}
