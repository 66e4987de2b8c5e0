//! The failures of the image store, each with the words shown to the client.

use vstd::prelude::*;

verus! {

/// Why an operation of the image store failed. Each variant carries the
/// words that explain the failure; the variant alone decides the status
/// that is answered.
#[derive(Debug, PartialEq, Eq)]
pub enum AppError {
    /// The text is no address of a display.
    InvalidAddress(String),
    /// The rasterizer does not accept the drawing.
    InvalidVectorInput(String),
    /// No such display, or no such image of it.
    AssetNotFound(String),
    /// The image directory, a file of it or the rasterizer failed.
    StoreUnavailable(String),
}

impl AppError {
    /// The words that explain the failure.
    pub open spec fn text(&self) -> Seq<char> {
        match self {
            AppError::InvalidAddress(message) => message@,
            AppError::InvalidVectorInput(message) => message@,
            AppError::AssetNotFound(message) => message@,
            AppError::StoreUnavailable(message) => message@,
        }
    }

    /// The HTTP status that stands for the variant: 400 for what the client
    /// sent, 404 for what is not there, 500 for a failure of the store.
    pub open spec fn status(&self) -> u16 {
        match self {
            AppError::InvalidAddress(_) => 400,
            AppError::InvalidVectorInput(_) => 400,
            AppError::AssetNotFound(_) => 404,
            AppError::StoreUnavailable(_) => 500,
        }
    }

    /// The HTTP status to answer with.
    pub fn status_code(&self) -> (code: u16)
        ensures
            code == self.status(),
    {
        match self {
            AppError::InvalidAddress(_) => 400,
            AppError::InvalidVectorInput(_) => 400,
            AppError::AssetNotFound(_) => 404,
            AppError::StoreUnavailable(_) => 500,
        }
    }

    /// The words that explain the failure, as the body of the answer.
    pub fn to_string(&self) -> (message: String)
        ensures
            message@ == self.text(),
    {
        match self {
            AppError::InvalidAddress(message) => message.clone(),
            AppError::InvalidVectorInput(message) => message.clone(),
            AppError::AssetNotFound(message) => message.clone(),
            AppError::StoreUnavailable(message) => message.clone(),
        }
    }
}

} // verus!
