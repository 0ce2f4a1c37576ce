//! VM screen captures, taken with QMP `screendump`.

use vstd::prelude::*;
use crate::qmp::{filename_args, runs_command, JsonValue, QmpAnswer, QmpClient, QmpError, QmpQuery, QmpRequest};

verus! {

/// Errors raised by capture operations.
#[derive(Debug)]
pub enum CaptureError {
    /// Underlying QMP error.
    Qmp(QmpError),
    /// Failed to convert or rename the captured image.
    ConversionFailed,
}

/// The request that captures the VM screen to `output_path` (PPM, QEMU's
/// default format).
pub fn capture_vm_screen(qmp: &QmpClient, output_path: &str) -> (res: QmpRequest)
    ensures
        res.query == QmpQuery::Screendump,
        exists|a: JsonValue| filename_args(a, output_path@) && runs_command(res.message, "screendump"@, Some(a)),
{
    qmp.screendump(output_path)
}

/// The capture's outcome from the answer to its request: QMP errors become
/// `CaptureError::Qmp`.
pub fn capture_result(answer: Result<QmpAnswer, QmpError>) -> (res: Result<(), CaptureError>)
    ensures
        match answer {
            Ok(_) => res is Ok,
            Err(e) => res == Err::<(), CaptureError>(CaptureError::Qmp(e)),
        },
{
    match answer {
        Ok(_) => Ok(()),
        Err(e) => Err(CaptureError::Qmp(e)),
    }
}

} // verus!
