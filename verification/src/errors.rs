//! Status codes of the vendor driver and the errors surfaced to callers.

use vstd::prelude::*;

verus! {

/// The status with which every driver call reports success.
pub const ESP_OK: i32 = 0;

/// A raw status code of the vendor driver, kept exactly as it was reported.
#[derive(Clone, Copy, Debug, PartialEq, Eq, Structural)]
pub struct EspError(pub i32);

/// Why an operation of this crate failed.
#[derive(Clone, Copy, Debug, PartialEq, Eq, Structural)]
pub enum Error {
    /// The driver reported a status other than `ESP_OK`; the status is carried unchanged.
    Esp(EspError),
    /// The requested clock rate does not fit the signed 32-bit field of the
    /// device configuration. Nothing was handed to the driver.
    InvalidClockSpeed,
    /// The task name does not end in a NUL byte. Nothing was handed to the kernel.
    UnterminatedName,
    /// The kernel did not create the task; the status is carried unchanged.
    TaskCreate(i32),
}

/// Reads `esp_idf_sys::ESP_OK`, which the bindings define as the constant 0,
/// as a status code.
#[verifier::external_body]
fn esp_ok() -> (code: i32)
    ensures
        code == ESP_OK,
{
    esp_idf_sys::ESP_OK as i32
}

impl EspError {
    /// Whether this status reports success.
    pub open spec fn is_ok(self) -> bool {
        self.0 == ESP_OK
    }

    /// The outcome that this status stands for.
    pub open spec fn outcome(self) -> Result<(), Error> {
        if self.is_ok() {
            Ok(())
        } else {
            Err(Error::Esp(self))
        }
    }

    /// The raw status code.
    pub fn code(&self) -> (code: i32)
        ensures
            code == self.0,
    {
        self.0
    }

    /// Turns a status into a result: `Ok` for `ESP_OK` and for no other
    /// status, otherwise the status itself as the error.
    pub fn into_result(self) -> (r: Result<(), Error>)
        ensures
            r == self.outcome(),
    {
        if self.0 == esp_ok() {
            Ok(())
        } else {
            Err(Error::Esp(self))
        }
    }
}

} // verus!
