use vstd::prelude::*;

use crate::outside::bytes_view;

verus! {

/// Why a command failed.
#[derive(Debug, Clone, Copy, PartialEq, Eq, Structural)]
pub enum ErrorType {
    InvalidSyntax,
    NonExistentKey,
}

/// What executing a command produced.
#[derive(Debug, PartialEq, Eq)]
#[allow(inconsistent_fields)]
pub enum Response {
    /// A result to send back to the client.
    Valid { message: bytes::Bytes },
    /// An error to send back to the client.
    Error { error_type: ErrorType, message: String },
    /// Nothing to send back.
    Empty,
}

/// The mathematical value of a `Response`.
#[allow(inconsistent_fields)]
pub enum ResponseView {
    Valid { message: Seq<u8> },
    Error { error_type: ErrorType, message: Seq<char> },
    Empty,
}

impl View for Response {
    type V = ResponseView;

    open spec fn view(&self) -> ResponseView {
        match self {
            Response::Valid { message } => ResponseView::Valid { message: bytes_view(*message) },
            Response::Error { error_type, message } => ResponseView::Error {
                error_type: *error_type,
                message: message@,
            },
            Response::Empty => ResponseView::Empty,
        }
    }
}

} // verus!
