//! Values exchanged with clients: requests, responses and errors.

use vstd::prelude::*;
use crate::journal::PixelUpdate;

verus! {

/// A full snapshot of the canvas: `pixels[y][x]` is the colour of `(x, y)`.
pub struct CanvasResponse {
    pub width: u32,
    pub height: u32,
    pub pixels: Vec<Vec<String>>,
}

/// A request to set one cell.
pub struct PixelUpdateInput {
    pub x: u32,
    pub y: u32,
    pub color: String,
}

/// The answer to a cell write; `error` names the failure, if any.
pub struct PixelUpdateResponse {
    pub success: bool,
    pub error: Option<String>,
}

/// The answer to a reset request.
pub struct ClearCanvasResponse {
    pub success: bool,
    pub message: String,
}

/// An incremental poll: the client's cursor, in epoch milliseconds.
pub struct GetUpdatesInput {
    pub since: u64,
}

/// The answer to an incremental poll.
pub struct UpdatesResponse {
    pub updates: Vec<PixelUpdate>,
    pub reset_required: bool,
}

impl PixelUpdateResponse {
    /// The answer to a cell write that ended with `outcome`: success, or the
    /// wire name of the error.
    pub fn from_outcome(outcome: &Result<(), CanvasError>) -> (r: PixelUpdateResponse)
        ensures
            r.success == outcome is Ok,
            outcome is Ok ==> r.error is None,
            outcome is Err ==> r.error is Some && r.error->Some_0@ == error_code(outcome->Err_0),
    {
        match outcome {
            Ok(()) => PixelUpdateResponse { success: true, error: None },
            Err(e) => PixelUpdateResponse { success: false, error: Some(e.code()) },
        }
    }
}

/// The message that confirms a reset.
pub open spec fn reset_message() -> Seq<char> {
    "Canvas reset successfully"@
}

impl ClearCanvasResponse {
    /// The answer to a reset that ended with `outcome`: a confirmation, or the
    /// wire name of the error.
    pub fn from_outcome(outcome: &Result<(), CanvasError>) -> (r: ClearCanvasResponse)
        ensures
            r.success == outcome is Ok,
            outcome is Ok ==> r.message@ == reset_message(),
            outcome is Err ==> r.message@ == error_code(outcome->Err_0),
    {
        match outcome {
            Ok(()) => ClearCanvasResponse {
                success: true,
                message: "Canvas reset successfully".to_string(),
            },
            Err(e) => ClearCanvasResponse { success: false, message: e.code() },
        }
    }
}

/// Why a write did not go through.
#[derive(Clone, Copy, Debug, PartialEq, Eq, Structural)]
pub enum CanvasError {
    /// The cell lies outside the grid; nothing was changed.
    OutOfBounds,
    /// The durable commit failed; the in-memory grid still holds the write.
    PersistError,
}

/// The wire name of an error.
pub open spec fn error_code(e: CanvasError) -> Seq<char> {
    match e {
        CanvasError::OutOfBounds => "out_of_bounds"@,
        CanvasError::PersistError => "persist_error"@,
    }
}

impl CanvasError {
    /// The wire name of this error: `"out_of_bounds"` or `"persist_error"`.
    pub fn code(&self) -> (r: String)
        ensures
            r@ == error_code(*self),
    {
        match self {
            CanvasError::OutOfBounds => "out_of_bounds".to_string(),
            CanvasError::PersistError => "persist_error".to_string(),
        }
    }

    /// The HTTP status that reports this error: a client error for a cell
    /// outside the grid, a server error for a failed commit.
    pub fn status_code(&self) -> (r: u16)
        ensures
            *self == CanvasError::OutOfBounds ==> r == 400,
            *self == CanvasError::PersistError ==> r == 500,
    {
        match self {
            CanvasError::OutOfBounds => 400,
            CanvasError::PersistError => 500,
        }
    }
}

} // verus!
