//! Textual rendering of classifications.
//!
//! Named variants render as their symbolic name. An `Unknown` code renders as
//! its hexadecimal form (lowercase digits, `0x` prefix, no padding — the bit
//! pattern of the signed code) followed by a platform-supplied display name in
//! quoted parentheses, so no failure is ever reduced to a bare opaque integer.

use vstd::prelude::*;

use crate::error::EspError;

verus! {

/// The lowercase hexadecimal digit of a value below 16.
pub open spec fn hex_digit_char(d: nat) -> char {
    if d == 0 {
        '0'
    } else if d == 1 {
        '1'
    } else if d == 2 {
        '2'
    } else if d == 3 {
        '3'
    } else if d == 4 {
        '4'
    } else if d == 5 {
        '5'
    } else if d == 6 {
        '6'
    } else if d == 7 {
        '7'
    } else if d == 8 {
        '8'
    } else if d == 9 {
        '9'
    } else if d == 10 {
        'a'
    } else if d == 11 {
        'b'
    } else if d == 12 {
        'c'
    } else if d == 13 {
        'd'
    } else if d == 14 {
        'e'
    } else {
        'f'
    }
}

/// The hexadecimal digits of `n`, most significant first, without leading
/// zeros (`0` itself is the single digit `0`).
pub open spec fn hex_digits(n: nat) -> Seq<char>
    decreases n,
{
    if n < 16 {
        seq![hex_digit_char(n)]
    } else {
        hex_digits(n / 16) + seq![hex_digit_char(n % 16)]
    }
}

/// The unsigned 32-bit value with the same bit pattern as the signed code
/// `c`: hexadecimal rendering shows the two's-complement bits.
pub open spec fn status_bits(c: i32) -> nat {
    if c >= 0 {
        c as nat
    } else {
        (c + 0x1_0000_0000) as nat
    }
}

/// The symbolic name of a variant (for `Unknown`, the bare variant name
/// without its payload).
pub open spec fn name_of(e: EspError) -> Seq<char> {
    match e {
        EspError::NoMem => "NoMem"@,
        EspError::InvalidArg => "InvalidArg"@,
        EspError::InvalidState => "InvalidState"@,
        EspError::InvalidSize => "InvalidSize"@,
        EspError::NotFound => "NotFound"@,
        EspError::NotSupported => "NotSupported"@,
        EspError::Timeout => "Timeout"@,
        EspError::InvalidResponse => "InvalidResponse"@,
        EspError::InvalidCrc => "InvalidCrc"@,
        EspError::InvalidVersion => "InvalidVersion"@,
        EspError::InvalidMac => "InvalidMac"@,
        EspError::WifiBase => "WifiBase"@,
        EspError::MeshBase => "MeshBase"@,
        EspError::NVSNoFreePages => "NVSNoFreePages"@,
        EspError::NVSNewVersionFound => "NVSNewVersionFound"@,
        EspError::WifiNotStarted => "WifiNotStarted"@,
        EspError::Unknown(_) => "Unknown"@,
    }
}

/// The rendered form of a classification: the symbolic name of a named
/// variant, or, for `Unknown(c)`, the hexadecimal code and the platform's
/// display name for `c`, as in `0x1103 ("ESP_ERR_TIMEOUT_CUSTOM")`.
pub open spec fn display_of(e: EspError, unknown_name: Seq<char>) -> Seq<char> {
    match e {
        EspError::Unknown(c) => "0x"@ + hex_digits(status_bits(c)) + " (\""@ + unknown_name
            + "\")"@,
        _ => name_of(e),
    }
}

/// The lowercase hexadecimal digit of a value below 16, as a string slice.
fn hex_digit_str(d: u32) -> (r: &'static str)
    requires
        d < 16,
    ensures
        r@ == seq![hex_digit_char(d as nat)],
{
    proof {
        reveal_strlit("0");
        reveal_strlit("1");
        reveal_strlit("2");
        reveal_strlit("3");
        reveal_strlit("4");
        reveal_strlit("5");
        reveal_strlit("6");
        reveal_strlit("7");
        reveal_strlit("8");
        reveal_strlit("9");
        reveal_strlit("a");
        reveal_strlit("b");
        reveal_strlit("c");
        reveal_strlit("d");
        reveal_strlit("e");
        reveal_strlit("f");
    }
    let r: &'static str = if d == 0 {
        "0"
    } else if d == 1 {
        "1"
    } else if d == 2 {
        "2"
    } else if d == 3 {
        "3"
    } else if d == 4 {
        "4"
    } else if d == 5 {
        "5"
    } else if d == 6 {
        "6"
    } else if d == 7 {
        "7"
    } else if d == 8 {
        "8"
    } else if d == 9 {
        "9"
    } else if d == 10 {
        "a"
    } else if d == 11 {
        "b"
    } else if d == 12 {
        "c"
    } else if d == 13 {
        "d"
    } else if d == 14 {
        "e"
    } else {
        "f"
    };
    proof {
        assert(r@ =~= seq![hex_digit_char(d as nat)]);
    }
    r
}

/// The hexadecimal rendering of `n`: lowercase digits, most significant
/// first, no leading zeros.
pub fn hex_string(n: u32) -> (r: String)
    ensures
        r@ == hex_digits(n as nat),
    decreases n,
{
    if n < 16 {
        String::from_str(hex_digit_str(n))
    } else {
        let mut s = hex_string(n / 16);
        s.append(hex_digit_str(n % 16));
        s
    }
}

impl EspError {
    /// The symbolic name of this variant (for `Unknown`, the bare variant
    /// name without its payload).
    pub fn variant_name(&self) -> (r: &'static str)
        ensures
            r@ == name_of(*self),
    {
        match self {
            EspError::NoMem => "NoMem",
            EspError::InvalidArg => "InvalidArg",
            EspError::InvalidState => "InvalidState",
            EspError::InvalidSize => "InvalidSize",
            EspError::NotFound => "NotFound",
            EspError::NotSupported => "NotSupported",
            EspError::Timeout => "Timeout",
            EspError::InvalidResponse => "InvalidResponse",
            EspError::InvalidCrc => "InvalidCrc",
            EspError::InvalidVersion => "InvalidVersion",
            EspError::InvalidMac => "InvalidMac",
            EspError::WifiBase => "WifiBase",
            EspError::MeshBase => "MeshBase",
            EspError::NVSNoFreePages => "NVSNoFreePages",
            EspError::NVSNewVersionFound => "NVSNewVersionFound",
            EspError::WifiNotStarted => "WifiNotStarted",
            EspError::Unknown(_) => "Unknown",
        }
    }

    /// Renders this classification as text.
    ///
    /// `unknown_name` is the platform's display name for the wrapped code,
    /// looked up by the caller through the platform's name table; it is read
    /// only when this classification is `Unknown`.
    pub fn display_string(&self, unknown_name: &str) -> (r: String)
        ensures
            r@ == display_of(*self, unknown_name@),
    {
        match self {
            EspError::Unknown(code) => {
                let bits: u32 = if *code >= 0 {
                    *code as u32
                } else {
                    ((*code as i64) + 0x1_0000_0000i64) as u32
                };
                proof {
                    assert(bits as nat == status_bits(*code));
                }
                let mut s = String::from_str("0x");
                let hex = hex_string(bits);
                s.append(hex.as_str());
                s.append(" (\"");
                s.append(unknown_name);
                s.append("\")");
                s
            },
            _ => String::from_str(self.variant_name()),
        }
    }
}

} // verus!
