//! Textual rendering: symbolic names and hexadecimal unknown codes.

use esp_error::error::EspError;
use esp_error::render::hex_string;

#[test]
fn unknown_renders_hex_code_and_platform_name() {
    assert_eq!(
        EspError::Unknown(0x1103).display_string("ESP_ERR_TIMEOUT_CUSTOM"),
        "0x1103 (\"ESP_ERR_TIMEOUT_CUSTOM\")"
    );
}

#[test]
fn named_variants_render_their_symbolic_name() {
    // The name-lookup argument is read only for `Unknown`.
    assert_eq!(EspError::NoMem.display_string("ignored"), "NoMem");
    assert_eq!(EspError::InvalidArg.display_string("ignored"), "InvalidArg");
    assert_eq!(EspError::Timeout.display_string("ignored"), "Timeout");
    assert_eq!(
        EspError::NVSNewVersionFound.display_string("ignored"),
        "NVSNewVersionFound"
    );
    assert_eq!(
        EspError::WifiNotStarted.display_string("ignored"),
        "WifiNotStarted"
    );
}

#[test]
fn variant_name_matches_the_variant() {
    assert_eq!(EspError::NoMem.variant_name(), "NoMem");
    assert_eq!(EspError::MeshBase.variant_name(), "MeshBase");
    assert_eq!(EspError::Unknown(42).variant_name(), "Unknown");
}

#[test]
fn hex_rendering_is_lowercase_and_unpadded() {
    assert_eq!(hex_string(0), "0");
    assert_eq!(hex_string(9), "9");
    assert_eq!(hex_string(10), "a");
    assert_eq!(hex_string(15), "f");
    assert_eq!(hex_string(16), "10");
    assert_eq!(hex_string(0x1103), "1103");
    assert_eq!(hex_string(0xdeadbeef), "deadbeef");
    assert_eq!(hex_string(u32::MAX), "ffffffff");
}

#[test]
fn negative_codes_render_their_bit_pattern() {
    assert_eq!(EspError::Unknown(-1).display_string(""), "0xffffffff (\"\")");
    assert_eq!(
        EspError::Unknown(i32::MIN).display_string("x"),
        "0x80000000 (\"x\")"
    );
    // Same text the standard hex formatting of a signed code produces.
    assert_eq!(
        EspError::Unknown(-1).display_string(""),
        format!("{:#x} ({:?})", -1i32, "")
    );
}

#[test]
fn unknown_zero_renders_without_failing() {
    assert_eq!(EspError::Unknown(0).display_string(""), "0x0 (\"\")");
}

#[test]
fn display_matches_standard_hex_formatting() {
    for code in [1, 0x1103, -77, i32::MAX, i32::MIN] {
        assert_eq!(
            EspError::Unknown(code).display_string("name"),
            format!("{:#x} ({:?})", code, "name")
        );
    }
}

#[test]
fn name_looked_up_through_a_c_string_boundary() {
    // A platform name table hands out null-terminated byte sequences; the
    // caller wraps one into owned, bounds-checked text before rendering.
    let raw: &[u8] = b"ESP_ERR_TIMEOUT_CUSTOM\0";
    let name = cstr_core::CStr::from_bytes_with_nul(raw)
        .unwrap()
        .to_str()
        .unwrap();
    assert_eq!(
        EspError::Unknown(0x1103).display_string(name),
        "0x1103 (\"ESP_ERR_TIMEOUT_CUSTOM\")"
    );
}
