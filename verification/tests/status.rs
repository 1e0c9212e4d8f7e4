//! The status-result mechanism: classify, lift, and short-circuit
//! propagation.

use esp_error::codes::{ESP_ERR_NO_MEM, ESP_ERR_TIMEOUT};
use esp_error::error::EspError;
use esp_error::status::{EnumFromIntError, EspStatus};

#[test]
fn classify_success() {
    assert_eq!(EspStatus(0).into_result(), Ok(()));
}

#[test]
fn classify_named_failure() {
    assert_eq!(
        EspStatus(ESP_ERR_NO_MEM).into_result(),
        Err(EspError::NoMem)
    );
    assert_eq!(
        EspStatus(ESP_ERR_TIMEOUT).into_result(),
        Err(EspError::Timeout)
    );
}

#[test]
fn classify_unrecognized_failure() {
    assert_eq!(EspStatus(77).into_result(), Err(EspError::Unknown(77)));
    assert_eq!(EspStatus(-3).into_result(), Err(EspError::Unknown(-3)));
}

#[test]
fn lift_success_wraps_zero() {
    assert_eq!(EspStatus::from_ok(()), EspStatus(0));
}

#[test]
fn lift_failure_wraps_the_code() {
    assert_eq!(
        EspStatus::from_error(EspError::Timeout),
        EspStatus(ESP_ERR_TIMEOUT)
    );
    assert_eq!(EspStatus::from_error(EspError::Unknown(-5)), EspStatus(-5));
}

#[test]
fn lift_then_classify_is_identity() {
    let classifications = [
        EspError::NoMem,
        EspError::InvalidArg,
        EspError::Timeout,
        EspError::WifiNotStarted,
        EspError::Unknown(0x1103),
        EspError::Unknown(-1),
    ];
    for e in classifications {
        let lifted = EspStatus::from_error(e);
        assert_ne!(lifted, EspStatus(0));
        assert_eq!(lifted.into_result(), Err(e));
    }
}

#[test]
fn short_circuit_stops_at_first_failure() {
    let mut calls = 0;
    let mut invoke = |code: i32| -> EspStatus {
        calls += 1;
        EspStatus(code)
    };
    let result = (|| -> Result<(), EspError> {
        invoke(0).into_result()?;
        invoke(ESP_ERR_TIMEOUT).into_result()?;
        invoke(0).into_result()?;
        Ok(())
    })();
    assert_eq!(result, Err(EspError::Timeout));
    assert_eq!(calls, 2);
}

#[test]
fn all_success_sequence_runs_to_completion() {
    let mut calls = 0;
    let mut invoke = |code: i32| -> EspStatus {
        calls += 1;
        EspStatus(code)
    };
    let result = (|| -> Result<(), EspError> {
        invoke(0).into_result()?;
        invoke(0).into_result()?;
        invoke(0).into_result()?;
        Ok(())
    })();
    assert_eq!(result, Ok(()));
    assert_eq!(calls, 3);
}

#[test]
fn enum_from_int_error_carries_the_status() {
    let e = EnumFromIntError(EspStatus(0x1103));
    assert_eq!(e.0, EspStatus(0x1103));
}
