use flagcat::escape::{scan_escape, ScanError, ESC};

fn chars(text: &str) -> Vec<char> {
    text.chars().collect()
}

#[test]
fn the_escape_character() {
    assert_eq!(ESC, '\x1b');
}

#[test]
fn csi_with_parameters() {
    assert_eq!(scan_escape(&chars("\x1b[1;31mX"), 0), Ok(7));
    assert_eq!(scan_escape(&chars("ab\x1b[0m"), 2), Ok(6));
    assert_eq!(scan_escape(&chars("\x1b[?25lrest"), 0), Ok(6));
}

#[test]
fn csi_without_parameters() {
    assert_eq!(scan_escape(&chars("\x1b[mX"), 0), Ok(3));
    assert_eq!(scan_escape(&chars("\x1b[Hm"), 0), Ok(3));
    assert_eq!(scan_escape(&chars("\x1b[@"), 0), Ok(3));
    assert_eq!(scan_escape(&chars("\x1b[~"), 0), Ok(3));
}

#[test]
fn csi_with_intermediates() {
    assert_eq!(scan_escape(&chars("\x1b[0 qZ"), 0), Ok(5));
    assert_eq!(scan_escape(&chars("\x1b[ !/pZ"), 0), Ok(6));
    assert_eq!(scan_escape(&chars("\x1b[12;3 $}"), 0), Ok(9));
}

#[test]
fn csi_that_ends_too_early() {
    assert_eq!(scan_escape(&chars("\x1b["), 0), Err(ScanError::CsiUnterminated));
    assert_eq!(scan_escape(&chars("\x1b[12;"), 0), Err(ScanError::CsiUnterminated));
    assert_eq!(scan_escape(&chars("\x1b[1 "), 0), Err(ScanError::CsiUnterminated));
}

#[test]
fn csi_with_a_byte_out_of_range() {
    assert_eq!(scan_escape(&chars("\x1b[1\x07m"), 0), Err(ScanError::CsiBadByte));
    assert_eq!(scan_escape(&chars("\x1b[\nm"), 0), Err(ScanError::CsiBadByte));
    assert_eq!(scan_escape(&chars("\x1b[\x7f"), 0), Err(ScanError::CsiBadByte));
    assert_eq!(scan_escape(&chars("\x1b[1\u{e9}"), 0), Err(ScanError::CsiBadByte));
    assert_eq!(scan_escape(&chars("\x1b[\x1b[m"), 0), Err(ScanError::CsiBadByte));
}

#[test]
fn csi_parameter_after_an_intermediate_is_out_of_place() {
    assert_eq!(scan_escape(&chars("\x1b[ 1m"), 0), Err(ScanError::CsiBadByte));
    assert_eq!(scan_escape(&chars("\x1b[1 ;m"), 0), Err(ScanError::CsiBadByte));
}

#[test]
fn nf_sequences() {
    assert_eq!(scan_escape(&chars("\x1b(BZ"), 0), Ok(3));
    assert_eq!(scan_escape(&chars("\x1b #8"), 0), Ok(4));
    assert_eq!(scan_escape(&chars("\x1b%0"), 0), Ok(3));
    assert_eq!(scan_escape(&chars("\x1b/~"), 0), Ok(3));
}

#[test]
fn nf_that_ends_too_early() {
    assert_eq!(scan_escape(&chars("\x1b("), 0), Err(ScanError::NfUnterminated));
    assert_eq!(scan_escape(&chars("\x1b( #"), 0), Err(ScanError::NfUnterminated));
}

#[test]
fn nf_with_a_byte_out_of_range() {
    assert_eq!(scan_escape(&chars("\x1b(\x07"), 0), Err(ScanError::NfBadByte));
    assert_eq!(scan_escape(&chars("\x1b( \n"), 0), Err(ScanError::NfBadByte));
    assert_eq!(scan_escape(&chars("\x1b(\x7f"), 0), Err(ScanError::NfBadByte));
}

#[test]
fn any_other_character_is_the_whole_sequence() {
    assert_eq!(scan_escape(&chars("\x1bMrest"), 0), Ok(2));
    assert_eq!(scan_escape(&chars("\x1b7"), 0), Ok(2));
    assert_eq!(scan_escape(&chars("\x1bc"), 0), Ok(2));
    assert_eq!(scan_escape(&chars("\x1b\n"), 0), Ok(2));
    assert_eq!(scan_escape(&chars("\x1b\x1b[m"), 0), Ok(2));
    assert_eq!(scan_escape(&chars("\x1b\u{e9}"), 0), Ok(2));
    assert_eq!(scan_escape(&chars("\x1b\x1f"), 0), Ok(2));
    assert_eq!(scan_escape(&chars("\x1b0"), 0), Ok(2));
}

#[test]
fn escape_character_at_the_end() {
    assert_eq!(scan_escape(&chars("\x1b"), 0), Err(ScanError::LoneEscape));
    assert_eq!(scan_escape(&chars("abc\x1b"), 3), Err(ScanError::LoneEscape));
}

#[test]
fn every_error_has_its_message() {
    assert_eq!(
        ScanError::LoneEscape.message(),
        "Escape character with no escape sequence after it"
    );
    assert_eq!(ScanError::CsiUnterminated.message(), "CSI escape sequence did not terminate");
    assert_eq!(
        ScanError::CsiBadByte.message(),
        "CSI escape sequence terminated with an incorrect value"
    );
    assert_eq!(ScanError::NfUnterminated.message(), "nF escape sequence did not terminate");
    assert_eq!(
        ScanError::NfBadByte.message(),
        "nF escape sequence terminated with an incorrect value"
    );
}
