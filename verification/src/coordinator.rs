//! The three requests of an upload: prepare, chunk, finish.
//!
//! The coordinator owns the registry of sessions. Finishing an upload takes
//! its session out of the registry first and only then works on the bytes,
//! so a finish that fails leaves nothing to retry. The work on the bytes
//! needs no registry: a caller that shares the coordinator between requests
//! can take the session while it holds the coordinator and call
//! [`complete_upload`] after letting it go.

use crate::error::UploadError;
use crate::image_process::{encoded_pixels, process, processed, within_box};
use crate::transport::{base64_decoding, decode_payload};
use crate::uploader::{
    after_take, after_write, exhausted, opened, take_outcome, write_outcome, FileUploader,
    Registry,
};
use crate::variant::Variant;
use vstd::prelude::*;

verus! {

/// What is kept of a finished upload.
#[derive(Debug)]
pub struct FinishedUpload {
    pub picture_id: u32,
    pub side: u32,
    pub main_bytes: Vec<u8>,
    pub thumb_bytes: Vec<u8>,
    pub hash: i32,
}

/// A finished upload, as mathematics.
pub struct FinishedUploadView {
    pub picture_id: u32,
    pub side: u32,
    pub main_bytes: Seq<u8>,
    pub thumb_bytes: Seq<u8>,
    pub hash: i32,
}

impl View for FinishedUpload {
    type V = FinishedUploadView;

    open spec fn view(&self) -> FinishedUploadView {
        FinishedUploadView {
            picture_id: self.picture_id,
            side: self.side,
            main_bytes: self.main_bytes@,
            thumb_bytes: self.thumb_bytes@,
            hash: self.hash,
        }
    }
}

/// What completing an upload of `bytes` for the given picture and side
/// gives.
pub open spec fn completed(picture_id: u32, side: u32, bytes: Seq<u8>) -> Result<
    FinishedUploadView,
    UploadError,
> {
    match processed(bytes) {
        Ok((main_bytes, thumb_bytes, hash)) => Ok(
            FinishedUploadView { picture_id, side, main_bytes, thumb_bytes, hash },
        ),
        Err(e) => Err(e),
    }
}

/// What finishing session `id` gives: `SessionNotFound` where it is not
/// open, else what completing its buffer gives.
pub open spec fn finish_outcome(registry: Registry, id: u32) -> Result<
    FinishedUploadView,
    UploadError,
> {
    match take_outcome(registry, id) {
        Ok((picture_id, side, bytes)) => completed(picture_id, side, bytes),
        Err(e) => Err(e),
    }
}

/// Turns the assembled bytes of an upload into what is kept of it: the main
/// picture, the thumbnail, and the fingerprint of the bytes as they were
/// uploaded. The pixels encoded for each picture lie within its box.
pub fn complete_upload(picture_id: u32, side: u32, bytes: Vec<u8>) -> (outcome: Result<
    FinishedUpload,
    UploadError,
>)
    ensures
        completed(picture_id, side, bytes@) == (match outcome {
            Ok(upload) => Ok::<FinishedUploadView, UploadError>(upload@),
            Err(e) => Err::<FinishedUploadView, UploadError>(e),
        }),
        outcome is Ok ==> within_box(encoded_pixels(bytes@, Variant::Main), Variant::Main)
            && within_box(encoded_pixels(bytes@, Variant::Thumbnail), Variant::Thumbnail),
{
    match process(bytes) {
        Ok((main_bytes, thumb_bytes, hash)) => Ok(
            FinishedUpload { picture_id, side, main_bytes, thumb_bytes, hash },
        ),
        Err(e) => Err(e),
    }
}

/// The front of the upload service.
pub struct UploadCoordinator {
    uploader: FileUploader,
}

impl View for UploadCoordinator {
    type V = Registry;

    closed spec fn view(&self) -> Registry {
        self.uploader@
    }
}

impl UploadCoordinator {
    /// A coordinator without sessions.
    pub fn new() -> (coordinator: Self)
        ensures
            coordinator@ == Registry::empty(),
    {
        Self { uploader: FileUploader::new() }
    }

    /// Opens a session of `size` zero bytes for side `side` of picture
    /// `picture_id`, after giving abandoned sessions the chance to be
    /// retired. Fails only when no identifier is left.
    pub fn prepare(&mut self, picture_id: u32, side: u32, size: usize) -> (outcome: Result<
        u32,
        UploadError,
    >)
        ensures
            outcome is Err <==> exhausted(old(self)@),
            match outcome {
                Ok(uid) => !old(self)@.contains_key(uid) && final(self)@ == opened(
                    old(self)@,
                    uid,
                    picture_id,
                    side,
                    size as nat,
                ),
                Err(e) => e == UploadError::AllocationFailure && final(self)@ == old(self)@,
            },
    {
        self.uploader.clean_sessions();
        self.uploader.new_session(picture_id, side, size)
    }

    /// Writes a chunk into session `uid` at `offset`.
    pub fn chunk(&mut self, uid: u32, offset: usize, payload: &[u8]) -> (outcome: Result<
        (),
        UploadError,
    >)
        ensures
            outcome == write_outcome(old(self)@, uid, offset as nat, payload@),
            final(self)@ == after_write(old(self)@, uid, offset as nat, payload@),
    {
        self.uploader.add_chunk(uid, offset, payload)
    }

    /// Writes a chunk that arrives as base64 text. A text that is not base64
    /// is answered with `None` and changes nothing; any other is decoded and
    /// written as [`UploadCoordinator::chunk`] writes it.
    pub fn chunk_base64(&mut self, uid: u32, offset: usize, text: &str) -> (outcome: Option<
        Result<(), UploadError>,
    >)
        ensures
            match base64_decoding(text@) {
                Some(payload) => outcome == Some(
                    write_outcome(old(self)@, uid, offset as nat, payload),
                ) && final(self)@ == after_write(old(self)@, uid, offset as nat, payload),
                None => outcome is None && final(self)@ == old(self)@,
            },
    {
        match decode_payload(text) {
            Some(payload) => Some(self.uploader.add_chunk(uid, offset, payload.as_slice())),
            None => None,
        }
    }

    /// Takes session `uid` out of the registry and hands out its picture,
    /// its side and its buffer: the first half of [`UploadCoordinator::finish`].
    pub fn take(&mut self, uid: u32) -> (outcome: Result<(u32, u32, Vec<u8>), UploadError>)
        ensures
            take_outcome(old(self)@, uid) == (match outcome {
                Ok((picture_id, picture_side, bytes)) => Ok::<(u32, u32, Seq<u8>), UploadError>(
                    (picture_id, picture_side, bytes@),
                ),
                Err(e) => Err::<(u32, u32, Seq<u8>), UploadError>(e),
            }),
            final(self)@ == after_take(old(self)@, uid),
    {
        self.uploader.take(uid)
    }

    /// Finishes the upload of session `uid`: takes the session out of the
    /// registry, then turns its buffer into the main picture, the thumbnail
    /// and the fingerprint. The session is gone whether or not that
    /// succeeds.
    pub fn finish(&mut self, uid: u32) -> (outcome: Result<FinishedUpload, UploadError>)
        ensures
            finish_outcome(old(self)@, uid) == (match outcome {
                Ok(upload) => Ok::<FinishedUploadView, UploadError>(upload@),
                Err(e) => Err::<FinishedUploadView, UploadError>(e),
            }),
            final(self)@ == after_take(old(self)@, uid),
            outcome is Ok ==> ({
                let bytes = old(self)@[uid].bytes;
                &&& within_box(encoded_pixels(bytes, Variant::Main), Variant::Main)
                &&& within_box(encoded_pixels(bytes, Variant::Thumbnail), Variant::Thumbnail)
            }),
    {
        match self.uploader.take(uid) {
            Ok((picture_id, side, bytes)) => complete_upload(picture_id, side, bytes),
            Err(e) => Err(e),
        }
    }
}

} // verus!
