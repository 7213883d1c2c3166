use picture_upload::error::UploadError;

#[test]
fn each_failure_has_its_words() {
    assert_eq!(UploadError::SessionNotFound.message(), "no session");
    assert_eq!(UploadError::OutOfBounds.message(), "chunk out of bounds");
    assert_eq!(UploadError::DecodeFailure.message(), "picture cannot be decoded");
    assert_eq!(UploadError::InvalidOrientation.message(), "invalid orientation");
    assert_eq!(UploadError::EncodeFailure.message(), "picture cannot be encoded");
    assert_eq!(UploadError::AllocationFailure.message(), "no session identifier left");
}

#[test]
fn failures_differ_from_each_other() {
    let all = [
        UploadError::SessionNotFound,
        UploadError::OutOfBounds,
        UploadError::DecodeFailure,
        UploadError::InvalidOrientation,
        UploadError::EncodeFailure,
        UploadError::AllocationFailure,
    ];
    for (i, one) in all.iter().enumerate() {
        for (j, other) in all.iter().enumerate() {
            assert_eq!(one == other, i == j);
        }
    }
}
