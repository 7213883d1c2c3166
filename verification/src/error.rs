//! The failures an upload can meet.

use vstd::prelude::*;

verus! {

/// Why an upload request was refused or a finished upload could not be
/// turned into pictures.
#[derive(Clone, Copy, Debug, PartialEq, Eq, Structural)]
pub enum UploadError {
    /// No open session has the identifier.
    SessionNotFound,
    /// A chunk reaches past the size announced when the session was opened.
    OutOfBounds,
    /// The assembled bytes are not a picture that can be decoded.
    DecodeFailure,
    /// The picture's metadata names an orientation outside 1 to 8.
    InvalidOrientation,
    /// A resized picture could not be encoded.
    EncodeFailure,
    /// A resource is exhausted: no identifier is left for a new session.
    AllocationFailure,
}

impl UploadError {
    /// The failure in words.
    pub open spec fn message_of(self) -> Seq<char> {
        match self {
            UploadError::SessionNotFound => "no session"@,
            UploadError::OutOfBounds => "chunk out of bounds"@,
            UploadError::DecodeFailure => "picture cannot be decoded"@,
            UploadError::InvalidOrientation => "invalid orientation"@,
            UploadError::EncodeFailure => "picture cannot be encoded"@,
            UploadError::AllocationFailure => "no session identifier left"@,
        }
    }

    /// The failure in words, for whoever reports it.
    pub fn message(&self) -> (text: String)
        ensures
            text@ == self.message_of(),
    {
        match self {
            UploadError::SessionNotFound => "no session".to_owned(),
            UploadError::OutOfBounds => "chunk out of bounds".to_owned(),
            UploadError::DecodeFailure => "picture cannot be decoded".to_owned(),
            UploadError::InvalidOrientation => "invalid orientation".to_owned(),
            UploadError::EncodeFailure => "picture cannot be encoded".to_owned(),
            UploadError::AllocationFailure => "no session identifier left".to_owned(),
        }
    }
}

} // verus!
