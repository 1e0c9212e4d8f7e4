//! The status-result carrier and the boundary between the numeric ABI and
//! the classification.

use vstd::prelude::*;

use crate::codes::{
    ESP_ERR_INVALID_ARG, ESP_ERR_INVALID_CRC, ESP_ERR_INVALID_MAC, ESP_ERR_INVALID_RESPONSE,
    ESP_ERR_INVALID_SIZE, ESP_ERR_INVALID_STATE, ESP_ERR_INVALID_VERSION, ESP_ERR_MESH_BASE,
    ESP_ERR_NOT_FOUND, ESP_ERR_NOT_SUPPORTED, ESP_ERR_NO_MEM, ESP_ERR_NVS_NEW_VERSION_FOUND,
    ESP_ERR_NVS_NO_FREE_PAGES, ESP_ERR_TIMEOUT, ESP_ERR_WIFI_BASE, ESP_ERR_WIFI_NOT_STARTED,
    ESP_OK,
};
use crate::error::{classification_of, code_of, wf_classification, EspError};

verus! {

/// A raw platform status code, wrapped without interpretation.
///
/// The one reserved value [`ESP_OK`] (`0`) means success; every other value
/// denotes a failure. A value of this type is immutable once created and has
/// no state beyond the wrapped scalar.
#[derive(Debug, Clone, Copy, PartialEq, Eq, Structural)]
pub struct EspStatus(pub i32);

/// Failed to convert an integer into an `enum` value.
#[derive(Debug, Clone, Copy, PartialEq, Eq, Structural)]
pub struct EnumFromIntError(pub EspStatus);

/// The outcome a status stands for: success for the reserved value, otherwise
/// the classification of the wrapped failure code.
pub open spec fn classify(s: EspStatus) -> Result<(), EspError> {
    if s.0 == ESP_OK {
        Ok(())
    } else {
        Err(classification_of(s.0))
    }
}

impl EspStatus {
    /// Whether this status is the unique success sentinel.
    pub open spec fn spec_is_ok(self) -> bool {
        self.0 == ESP_OK
    }

    /// The single authoritative boundary between the numeric ABI and the
    /// symbolic error model: success for `0`, otherwise the classification of
    /// the wrapped code.
    ///
    /// A caller propagating failures writes `status.into_result()?`, which
    /// aborts the enclosing computation at the first failing status.
    pub fn into_result(self) -> (r: Result<(), EspError>)
        ensures
            r == classify(self),
            self.spec_is_ok() ==> r == Result::<(), EspError>::Ok(()),
            !self.spec_is_ok() ==> r == Result::<(), EspError>::Err(classification_of(self.0)),
    {
        if self.0 == ESP_OK {
            Ok(())
        } else {
            Err(EspError::from(self))
        }
    }

    /// Lifts a failure classification back across the ABI boundary: the
    /// status wrapping the classification's code.
    pub fn from_error(v: EspError) -> (r: Self)
        ensures
            r == EspStatus(code_of(v)),
    {
        EspStatus::from(v)
    }

    /// Lifts the success outcome back across the ABI boundary: the status
    /// wrapping exactly the success value `0`.
    pub fn from_ok(_v: ()) -> (r: Self)
        ensures
            r == EspStatus(ESP_OK),
    {
        EspStatus(ESP_OK)
    }
}

/// Converts an int returned from the platform into the error classification.
impl core::convert::From<EspStatus> for EspError {
    fn from(value: EspStatus) -> Self {
        if value.0 == ESP_ERR_NO_MEM {
            EspError::NoMem
        } else if value.0 == ESP_ERR_INVALID_ARG {
            EspError::InvalidArg
        } else if value.0 == ESP_ERR_INVALID_STATE {
            EspError::InvalidState
        } else if value.0 == ESP_ERR_INVALID_SIZE {
            EspError::InvalidSize
        } else if value.0 == ESP_ERR_NOT_FOUND {
            EspError::NotFound
        } else if value.0 == ESP_ERR_NOT_SUPPORTED {
            EspError::NotSupported
        } else if value.0 == ESP_ERR_TIMEOUT {
            EspError::Timeout
        } else if value.0 == ESP_ERR_INVALID_RESPONSE {
            EspError::InvalidResponse
        } else if value.0 == ESP_ERR_INVALID_CRC {
            EspError::InvalidCrc
        } else if value.0 == ESP_ERR_INVALID_VERSION {
            EspError::InvalidVersion
        } else if value.0 == ESP_ERR_INVALID_MAC {
            EspError::InvalidMac
        } else if value.0 == ESP_ERR_WIFI_BASE {
            EspError::WifiBase
        } else if value.0 == ESP_ERR_MESH_BASE {
            EspError::MeshBase
        } else if value.0 == ESP_ERR_NVS_NO_FREE_PAGES {
            EspError::NVSNoFreePages
        } else if value.0 == ESP_ERR_NVS_NEW_VERSION_FOUND {
            EspError::NVSNewVersionFound
        } else if value.0 == ESP_ERR_WIFI_NOT_STARTED {
            EspError::WifiNotStarted
        } else {
            EspError::Unknown(value.0)
        }
    }
}

impl vstd::std_specs::convert::FromSpecImpl<EspStatus> for EspError {
    open spec fn obeys_from_spec() -> bool {
        true
    }

    open spec fn from_spec(t: EspStatus) -> Self {
        classification_of(t.0)
    }
}

/// Converts the error classification back into a raw platform status.
impl core::convert::From<EspError> for EspStatus {
    fn from(value: EspError) -> Self {
        match value {
            EspError::NoMem => EspStatus(ESP_ERR_NO_MEM),
            EspError::InvalidArg => EspStatus(ESP_ERR_INVALID_ARG),
            EspError::InvalidState => EspStatus(ESP_ERR_INVALID_STATE),
            EspError::InvalidSize => EspStatus(ESP_ERR_INVALID_SIZE),
            EspError::NotFound => EspStatus(ESP_ERR_NOT_FOUND),
            EspError::NotSupported => EspStatus(ESP_ERR_NOT_SUPPORTED),
            EspError::Timeout => EspStatus(ESP_ERR_TIMEOUT),
            EspError::InvalidResponse => EspStatus(ESP_ERR_INVALID_RESPONSE),
            EspError::InvalidCrc => EspStatus(ESP_ERR_INVALID_CRC),
            EspError::InvalidVersion => EspStatus(ESP_ERR_INVALID_VERSION),
            EspError::InvalidMac => EspStatus(ESP_ERR_INVALID_MAC),
            EspError::WifiBase => EspStatus(ESP_ERR_WIFI_BASE),
            EspError::MeshBase => EspStatus(ESP_ERR_MESH_BASE),
            EspError::NVSNoFreePages => EspStatus(ESP_ERR_NVS_NO_FREE_PAGES),
            EspError::NVSNewVersionFound => EspStatus(ESP_ERR_NVS_NEW_VERSION_FOUND),
            EspError::WifiNotStarted => EspStatus(ESP_ERR_WIFI_NOT_STARTED),
            EspError::Unknown(code) => EspStatus(code),
        }
    }
}

impl vstd::std_specs::convert::FromSpecImpl<EspError> for EspStatus {
    open spec fn obeys_from_spec() -> bool {
        true
    }

    open spec fn from_spec(t: EspError) -> Self {
        EspStatus(code_of(t))
    }
}

/// Lifting a well-formed failure classification and classifying the lifted
/// status is the identity on the classification: the lifted status is never
/// the success sentinel, and classifying it yields exactly the failure it was
/// lifted from.
pub proof fn lemma_lift_then_classify(e: EspError)
    requires
        wf_classification(e),
    ensures
        !EspStatus(code_of(e)).spec_is_ok(),
        classify(EspStatus(code_of(e))) == Result::<(), EspError>::Err(e),
{
    crate::error::lemma_classification_round_trip(e);
}

} // verus!
