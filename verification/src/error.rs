//! The closed error classification and its mapping to and from status codes.

use vstd::prelude::*;

use crate::codes::{
    spec_is_named_code, ESP_ERR_INVALID_ARG, ESP_ERR_INVALID_CRC, ESP_ERR_INVALID_MAC,
    ESP_ERR_INVALID_RESPONSE, ESP_ERR_INVALID_SIZE, ESP_ERR_INVALID_STATE,
    ESP_ERR_INVALID_VERSION, ESP_ERR_MESH_BASE, ESP_ERR_NOT_FOUND, ESP_ERR_NOT_SUPPORTED,
    ESP_ERR_NO_MEM, ESP_ERR_NVS_NEW_VERSION_FOUND, ESP_ERR_NVS_NO_FREE_PAGES, ESP_ERR_TIMEOUT,
    ESP_ERR_WIFI_BASE, ESP_ERR_WIFI_NOT_STARTED, ESP_OK,
};

verus! {

/// Error classification mapped to ESP-IDF failure values.
///
/// One variant per named failure constant of the platform table, plus
/// [`EspError::Unknown`], which carries the raw nonzero code of any failure
/// the table does not name.
#[derive(Debug, Clone, Copy, PartialEq, Eq, Structural)]
pub enum EspError {
    NoMem,
    InvalidArg,
    InvalidState,
    InvalidSize,
    NotFound,
    NotSupported,
    Timeout,
    InvalidResponse,
    InvalidCrc,
    InvalidVersion,
    InvalidMac,
    WifiBase,
    MeshBase,
    NVSNoFreePages,
    NVSNewVersionFound,
    WifiNotStarted,
    Unknown(i32),
}

/// The classification of a status code: the named variant whose constant
/// equals `code`, or `Unknown(code)` where the table names no such constant.
///
/// Total over the whole integer domain; in particular `0`, which callers are
/// expected to have screened out, maps to `Unknown(0)`.
pub open spec fn classification_of(code: i32) -> EspError {
    if code == ESP_ERR_NO_MEM {
        EspError::NoMem
    } else if code == ESP_ERR_INVALID_ARG {
        EspError::InvalidArg
    } else if code == ESP_ERR_INVALID_STATE {
        EspError::InvalidState
    } else if code == ESP_ERR_INVALID_SIZE {
        EspError::InvalidSize
    } else if code == ESP_ERR_NOT_FOUND {
        EspError::NotFound
    } else if code == ESP_ERR_NOT_SUPPORTED {
        EspError::NotSupported
    } else if code == ESP_ERR_TIMEOUT {
        EspError::Timeout
    } else if code == ESP_ERR_INVALID_RESPONSE {
        EspError::InvalidResponse
    } else if code == ESP_ERR_INVALID_CRC {
        EspError::InvalidCrc
    } else if code == ESP_ERR_INVALID_VERSION {
        EspError::InvalidVersion
    } else if code == ESP_ERR_INVALID_MAC {
        EspError::InvalidMac
    } else if code == ESP_ERR_WIFI_BASE {
        EspError::WifiBase
    } else if code == ESP_ERR_MESH_BASE {
        EspError::MeshBase
    } else if code == ESP_ERR_NVS_NO_FREE_PAGES {
        EspError::NVSNoFreePages
    } else if code == ESP_ERR_NVS_NEW_VERSION_FOUND {
        EspError::NVSNewVersionFound
    } else if code == ESP_ERR_WIFI_NOT_STARTED {
        EspError::WifiNotStarted
    } else {
        EspError::Unknown(code)
    }
}

/// The reverse mapping: the platform constant of a named variant, or the
/// stored code of `Unknown` unchanged (no re-validation).
pub open spec fn code_of(e: EspError) -> i32 {
    match e {
        EspError::NoMem => ESP_ERR_NO_MEM,
        EspError::InvalidArg => ESP_ERR_INVALID_ARG,
        EspError::InvalidState => ESP_ERR_INVALID_STATE,
        EspError::InvalidSize => ESP_ERR_INVALID_SIZE,
        EspError::NotFound => ESP_ERR_NOT_FOUND,
        EspError::NotSupported => ESP_ERR_NOT_SUPPORTED,
        EspError::Timeout => ESP_ERR_TIMEOUT,
        EspError::InvalidResponse => ESP_ERR_INVALID_RESPONSE,
        EspError::InvalidCrc => ESP_ERR_INVALID_CRC,
        EspError::InvalidVersion => ESP_ERR_INVALID_VERSION,
        EspError::InvalidMac => ESP_ERR_INVALID_MAC,
        EspError::WifiBase => ESP_ERR_WIFI_BASE,
        EspError::MeshBase => ESP_ERR_MESH_BASE,
        EspError::NVSNoFreePages => ESP_ERR_NVS_NO_FREE_PAGES,
        EspError::NVSNewVersionFound => ESP_ERR_NVS_NEW_VERSION_FOUND,
        EspError::WifiNotStarted => ESP_ERR_WIFI_NOT_STARTED,
        EspError::Unknown(code) => code,
    }
}

/// A classification is well formed when an `Unknown` payload is a genuine
/// failure code outside the named table; named variants carry nothing to
/// constrain.
pub open spec fn wf_classification(e: EspError) -> bool {
    match e {
        EspError::Unknown(code) => code != ESP_OK && !spec_is_named_code(code),
        _ => true,
    }
}

/// Every classification produced from a status code is well formed, save
/// `Unknown(0)`, which only the screened-out success value produces.
pub proof fn lemma_classification_of_wf(code: i32)
    ensures
        code != ESP_OK ==> wf_classification(classification_of(code)),
{
}

/// Round trip of the named codes: each named constant classifies to a named
/// variant (never `Unknown`), and the reverse mapping returns the same
/// constant.
pub proof fn lemma_named_code_round_trip(c: i32)
    requires
        spec_is_named_code(c),
    ensures
        !(classification_of(c) is Unknown),
        code_of(classification_of(c)) == c,
{
}

/// Round trip of the open remainder: a nonzero code outside the named table
/// classifies to `Unknown` carrying it, and converts back unchanged.
pub proof fn lemma_unknown_round_trip(c: i32)
    requires
        c != ESP_OK,
        !spec_is_named_code(c),
    ensures
        classification_of(c) == EspError::Unknown(c),
        code_of(classification_of(c)) == c,
{
}

/// Round trip of classifications: converting a well-formed classification to
/// its code and classifying that code again is the identity, and the code of
/// a well-formed classification is never the success value.
pub proof fn lemma_classification_round_trip(e: EspError)
    requires
        wf_classification(e),
    ensures
        classification_of(code_of(e)) == e,
        code_of(e) != ESP_OK,
{
}

} // verus!
