//! The platform's well-known failure codes.
//!
//! ESP-IDF partitions the signed 32-bit status space into the reserved
//! success value `0`, a fixed table of named failure constants, and an
//! open-ended remainder. The constants below are the named part of that
//! table; no two of them share a value, and none is `0`.

use vstd::prelude::*;

verus! {

/// The reserved success value: the one status that does not denote a failure.
pub const ESP_OK: i32 = 0;

pub const ESP_ERR_NO_MEM: i32 = 0x101;
pub const ESP_ERR_INVALID_ARG: i32 = 0x102;
pub const ESP_ERR_INVALID_STATE: i32 = 0x103;
pub const ESP_ERR_INVALID_SIZE: i32 = 0x104;
pub const ESP_ERR_NOT_FOUND: i32 = 0x105;
pub const ESP_ERR_NOT_SUPPORTED: i32 = 0x106;
pub const ESP_ERR_TIMEOUT: i32 = 0x107;
pub const ESP_ERR_INVALID_RESPONSE: i32 = 0x108;
pub const ESP_ERR_INVALID_CRC: i32 = 0x109;
pub const ESP_ERR_INVALID_VERSION: i32 = 0x10a;
pub const ESP_ERR_INVALID_MAC: i32 = 0x10b;
pub const ESP_ERR_NVS_NO_FREE_PAGES: i32 = 0x110d;
pub const ESP_ERR_NVS_NEW_VERSION_FOUND: i32 = 0x1110;
pub const ESP_ERR_WIFI_BASE: i32 = 0x3000;
pub const ESP_ERR_WIFI_NOT_STARTED: i32 = 0x3002;
pub const ESP_ERR_MESH_BASE: i32 = 0x4000;

/// Whether `c` is one of the named failure constants of the platform table.
pub open spec fn spec_is_named_code(c: i32) -> bool {
    ||| c == ESP_ERR_NO_MEM
    ||| c == ESP_ERR_INVALID_ARG
    ||| c == ESP_ERR_INVALID_STATE
    ||| c == ESP_ERR_INVALID_SIZE
    ||| c == ESP_ERR_NOT_FOUND
    ||| c == ESP_ERR_NOT_SUPPORTED
    ||| c == ESP_ERR_TIMEOUT
    ||| c == ESP_ERR_INVALID_RESPONSE
    ||| c == ESP_ERR_INVALID_CRC
    ||| c == ESP_ERR_INVALID_VERSION
    ||| c == ESP_ERR_INVALID_MAC
    ||| c == ESP_ERR_NVS_NO_FREE_PAGES
    ||| c == ESP_ERR_NVS_NEW_VERSION_FOUND
    ||| c == ESP_ERR_WIFI_BASE
    ||| c == ESP_ERR_WIFI_NOT_STARTED
    ||| c == ESP_ERR_MESH_BASE
}

/// Runtime test for membership in the named part of the platform table.
#[verifier::when_used_as_spec(spec_is_named_code)]
pub fn is_named_code(c: i32) -> (r: bool)
    ensures
        r == spec_is_named_code(c),
{
    c == ESP_ERR_NO_MEM || c == ESP_ERR_INVALID_ARG || c == ESP_ERR_INVALID_STATE
        || c == ESP_ERR_INVALID_SIZE || c == ESP_ERR_NOT_FOUND || c == ESP_ERR_NOT_SUPPORTED
        || c == ESP_ERR_TIMEOUT || c == ESP_ERR_INVALID_RESPONSE || c == ESP_ERR_INVALID_CRC
        || c == ESP_ERR_INVALID_VERSION || c == ESP_ERR_INVALID_MAC
        || c == ESP_ERR_NVS_NO_FREE_PAGES || c == ESP_ERR_NVS_NEW_VERSION_FOUND
        || c == ESP_ERR_WIFI_BASE || c == ESP_ERR_WIFI_NOT_STARTED || c == ESP_ERR_MESH_BASE
}

/// No named failure constant is the success value.
pub proof fn lemma_named_codes_nonzero(c: i32)
    ensures
        spec_is_named_code(c) ==> c != ESP_OK,
{
}

} // verus!
